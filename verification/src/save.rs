//! Saved progress: what the save file holds of a profile (progress,
//! unlocks, language), its conversion to and from the UI state, and where
//! the file lives. Reading and writing the file is the application's part.

use vstd::prelude::*;

use crate::level_flow::{
    level_label, normalize_progress_ui, spec_level_label,
    spec_starting_seeds, starting_unlocked_seeds,
};
use crate::ui::{clone_names, names, PilotUi, UiView};

verus! {

/// Version stamped on every save written.
pub const SAVE_VERSION: u32 = 1;

/// File name of the save inside the save directory.
pub const SAVE_FILE_NAME: &'static str = "save.ron";

/// Progress and settings a save holds (volumes are presentational and
/// travel with the application's copy of this record).
#[derive(Debug)]
pub struct SaveProgress {
    pub version: u32,
    pub high_score: u32,
    /// Adventure progress, 0-based (0 => next level is "1-1").
    pub adventure_level: u32,
    /// Seed names unlocked through level completion.
    pub unlocked_seed_names: Vec<String>,
    pub language: String,
}

/// A `SaveProgress` as mathematical values.
pub struct SaveView {
    pub version: u32,
    pub high_score: u32,
    pub adventure_level: u32,
    pub unlocked: Seq<Seq<char>>,
    pub language: Seq<char>,
}

impl View for SaveProgress {
    type V = SaveView;

    open spec fn view(&self) -> SaveView {
        SaveView {
            version: self.version,
            high_score: self.high_score,
            adventure_level: self.adventure_level,
            unlocked: names(self.unlocked_seed_names@),
            language: self.language@,
        }
    }
}

impl SaveProgress {
    /// A fresh profile: current version, no score, level "1-1", nothing
    /// unlocked, English.
    pub fn new() -> (s: SaveProgress)
        ensures
            s@ == (SaveView {
                version: SAVE_VERSION,
                high_score: 0,
                adventure_level: 0,
                unlocked: Seq::empty(),
                language: "en"@,
            }),
    {
        let s = SaveProgress {
            version: SAVE_VERSION,
            high_score: 0,
            adventure_level: 0,
            unlocked_seed_names: Vec::new(),
            language: "en".to_owned(),
        };
        assert(names(s.unlocked_seed_names@) == Seq::<Seq<char>>::empty());
        s
    }
}

impl Default for SaveProgress {
    fn default() -> (s: SaveProgress)
        ensures
            s@ == (SaveView {
                version: SAVE_VERSION,
                high_score: 0,
                adventure_level: 0,
                unlocked: Seq::empty(),
                language: "en"@,
            }),
    {
        SaveProgress::new()
    }
}

/// The UI after a save is pushed into it (boot, settings load).
pub open spec fn spec_applied(data: SaveView, u: UiView) -> UiView {
    UiView {
        adventure_level: data.adventure_level,
        unlocked: data.unlocked,
        language: data.language,
        level_name: spec_level_label(data.adventure_level as nat),
        ..u
    }
}

/// The save snapshot of a UI (persist points).
pub open spec fn spec_captured(u: UiView) -> SaveView {
    SaveView {
        version: SAVE_VERSION,
        high_score: 0,
        adventure_level: u.adventure_level,
        unlocked: u.unlocked,
        language: u.language,
    }
}

/// Pushes save contents into the UI: progress, unlocks, language, and the
/// level label that goes with the progress.
pub fn apply_to_ui(data: &SaveProgress, ui: &mut PilotUi)
    ensures
        final(ui)@ == spec_applied(data@, old(ui)@),
{
    ui.adventure_level = data.adventure_level;
    ui.unlocked_seed_names = clone_names(&data.unlocked_seed_names);
    ui.language = data.language.clone();
    ui.level_name = level_label(ui.adventure_level);
}

/// Snapshots UI progress into save shape.
pub fn capture_from_ui(ui: &PilotUi) -> (data: SaveProgress)
    ensures
        data@ == spec_captured(ui@),
{
    SaveProgress {
        version: SAVE_VERSION,
        high_score: 0,
        adventure_level: ui.adventure_level,
        unlocked_seed_names: clone_names(&ui.unlocked_seed_names),
        language: ui.language.clone(),
    }
}

/// Copies runtime progress (level and unlocks) into the save record.
pub fn persist_progress(save: &mut SaveProgress, ui: &PilotUi)
    ensures
        final(save)@ == (SaveView {
            adventure_level: ui.adventure_level,
            unlocked: names(ui.unlocked_seed_names@),
            ..old(save)@
        }),
{
    save.adventure_level = ui.adventure_level;
    save.unlocked_seed_names = clone_names(&ui.unlocked_seed_names);
}

/// Law: a save pushed into any UI and captured back gives the same
/// progress, unlocks and language (stamped with the current version).
pub proof fn lemma_apply_then_capture(data: SaveView, u: UiView)
    ensures
        spec_captured(spec_applied(data, u)) == (SaveView {
            version: SAVE_VERSION,
            high_score: 0,
            ..data
        }),
{
}

/// Law: capturing a UI and pushing the capture back leaves the UI as it
/// was, as long as its label matches its progress.
pub proof fn lemma_capture_then_apply(u: UiView)
    requires
        u.level_name == spec_level_label(u.adventure_level as nat),
    ensures
        spec_applied(spec_captured(u), u) == u,
{
}

/// Loads saved progress at boot: the save is authoritative for the level;
/// its unlock list replaces the UI's unless it is empty, when the starting
/// seeds apply; then the UI is normalized (label, bank).
pub fn apply_saved_progress(save: &SaveProgress, ui: &mut PilotUi)
    ensures
        ({
            let unlocked = if save@.unlocked.len() > 0 {
                save@.unlocked
            } else {
                spec_starting_seeds()
            };
            &&& final(ui)@ == (UiView {
                adventure_level: save.adventure_level,
                unlocked,
                level_name: spec_level_label(save.adventure_level as nat),
                seed_bank: final(ui).seed_bank@,
                ..old(ui)@
            })
            &&& crate::level_flow::normalized_bank(old(ui).seed_bank@, unlocked, final(ui).seed_bank@)
        }),
{
    ui.adventure_level = save.adventure_level;
    if save.unlocked_seed_names.len() > 0 {
        ui.unlocked_seed_names = clone_names(&save.unlocked_seed_names);
    } else {
        ui.unlocked_seed_names = starting_unlocked_seeds();
    }
    normalize_progress_ui(ui);
}

/// A path that starts with the verbatim prefix `\\?\`, which path joining
/// normalizes as a whole.
pub open spec fn has_verbatim_prefix(d: Seq<char>) -> bool {
    d.len() >= 4 && d[0] == '\\' && d[1] == '\\' && d[2] == '?' && d[3] == '\\'
}

/// `r` is `name` joined onto `dir`: the name alone onto an empty
/// directory, otherwise the directory, at most one separator, then the
/// name; no separator after a trailing `/`, exactly one after a last
/// character that is neither a separator nor a drive colon.
pub open spec fn is_joined_path(dir: Seq<char>, name: Seq<char>, r: Seq<char>) -> bool {
    &&& (r == dir + name || r == dir + seq!['/'] + name || r == dir + seq!['\\'] + name)
    &&& (dir.len() == 0 ==> r == name)
    &&& (dir.len() > 0 && dir.last() == '/' ==> r == dir + name)
    &&& (dir.len() > 0 && dir.last() != '/' && dir.last() != '\\' && dir.last() != ':'
        ==> r.len() == dir.len() + 1 + name.len())
}

/// Joins a plain file name onto a directory path.
///
/// Trusted: wraps `std::path::Path::join`. std documents that a relative
/// path is pushed onto the directory with a separator added unless the
/// directory already ends in one (an empty directory gets none, a bare
/// drive such as `C:` none either), and that under a verbatim `\\?\`
/// prefix the whole result is normalized; so outside that prefix the
/// result is `is_joined_path`. Which of `/` and `\` is the separator
/// depends on the platform and is not stated, nor the result under a
/// verbatim prefix.
#[verifier::external_body]
fn join_path(dir: &str, name: &str) -> (r: String)
    requires
        is_plain_file_name(name@),
    ensures
        !has_verbatim_prefix(dir@) ==> is_joined_path(dir@, name@, r@),
{
    std::path::Path::new(dir).join(name).to_string_lossy().into_owned()
}

/// A bare file name: not empty, not `.` or `..`, no separator, no drive
/// colon.
pub open spec fn is_plain_file_name(n: Seq<char>) -> bool {
    &&& n.len() > 0
    &&& n != seq!['.']
    &&& n != seq!['.', '.']
    &&& forall|i: int| 0 <= i < n.len() ==> #[trigger] n[i] != '/' && n[i] != '\\' && n[i] != ':'
}

/// Canonical save location inside the save directory `save_dir` (which
/// the application finds and creates): always a path, namely
/// `SAVE_FILE_NAME` joined onto the directory.
pub fn save_path(save_dir: &str) -> (r: Option<String>)
    ensures
        r is Some,
        r matches Some(p) && (!has_verbatim_prefix(save_dir@) ==> is_joined_path(
            save_dir@,
            SAVE_FILE_NAME@,
            p@,
        )),
{
    proof {
        reveal_strlit("save.ron");
        assert(SAVE_FILE_NAME@.len() == 8);
        assert(SAVE_FILE_NAME@ != seq!['.'] && SAVE_FILE_NAME@ != seq!['.', '.']);
    }
    Some(join_path(save_dir, SAVE_FILE_NAME))
}

} // verus!
