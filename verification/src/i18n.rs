//! Translations: one Fluent catalog per language, looked up in the current
//! language with English and then the key itself as fallbacks; seed labels
//! derived from the catalogs; and the flat key/value table of the full
//! build.

use vstd::prelude::*;

use fluent_bundle::{FluentBundle, FluentResource};
use std::str::FromStr;
use unic_langid::LanguageIdentifier;
use vstd::hash_map::StringHashMap;

use crate::defs::{seed_key, slug};
use crate::text::{char_prefix, prefix_chars, str_eq};

verus! {

/// Whether a language code parses as a language identifier.
pub uninterp spec fn lang_code_ok(code: Seq<char>) -> bool;

/// Whether a Fluent source parses without errors.
pub uninterp spec fn ftl_ok(ftl: Seq<char>) -> bool;

/// The text Fluent formats for message `key` (no arguments) from a bundle
/// of language `code` holding the catalog source `ftl`; `None` when the
/// code or the source does not parse, or the message is missing or has no
/// value.
pub uninterp spec fn fluent_message(code: Seq<char>, ftl: Seq<char>, key: Seq<char>) -> Option<
    Seq<char>,
>;

/// Parses a language code.
///
/// Trusted: wraps `<unic_langid::LanguageIdentifier as FromStr>::from_str`
/// and reports whether it succeeded. The result depends on the code alone.
#[verifier::external_body]
fn parse_lang_code(code: &str) -> (r: bool)
    ensures
        r == lang_code_ok(code@),
{
    LanguageIdentifier::from_str(code).is_ok()
}

/// Parses a Fluent catalog source.
///
/// Trusted: wraps `fluent_bundle::FluentResource::try_new` and reports
/// whether it parsed without errors. The result depends on the source alone.
#[verifier::external_body]
fn parse_ftl(ftl: &str) -> (r: bool)
    ensures
        r == ftl_ok(ftl@),
{
    FluentResource::try_new(ftl.to_string()).is_ok()
}

/// Formats one message of a catalog.
///
/// Trusted: builds a `fluent_bundle::FluentBundle` for the parsed language
/// code, adds the parsed catalog (`add_resource`), and formats the value of
/// message `key` (`get_message`, `value`, `format_pattern` with no
/// arguments), the same calls a long-lived bundle makes. The outcome
/// depends on the three arguments alone; what Fluent formats is not stated
/// beyond that.
#[verifier::external_body]
fn format_message(code: &str, ftl: &str, key: &str) -> (r: Option<String>)
    ensures
        match r {
            Some(s) => fluent_message(code@, ftl@, key@) == Some(s@),
            None => fluent_message(code@, ftl@, key@) is None,
        },
{
    let lang = LanguageIdentifier::from_str(code).ok()?;
    let res = FluentResource::try_new(ftl.to_string()).ok()?;
    let mut bundle = FluentBundle::new(vec![lang]);
    let _ = bundle.add_resource(res);
    let pattern = bundle.get_message(key)?.value()?;
    let mut errors = Vec::new();
    Some(bundle.format_pattern(pattern, None, &mut errors).into_owned())
}

/// Strict character-by-character order of two strings (a proper prefix
/// comes first).
pub open spec fn str_lt(a: Seq<char>, b: Seq<char>) -> bool
    decreases a.len(),
{
    if a.len() == 0 {
        b.len() > 0
    } else if b.len() == 0 {
        false
    } else if a[0] != b[0] {
        (a[0] as int) < (b[0] as int)
    } else {
        str_lt(a.drop_first(), b.drop_first())
    }
}

proof fn lemma_str_lt_trans(a: Seq<char>, b: Seq<char>, c: Seq<char>)
    requires
        str_lt(a, b),
        str_lt(b, c),
    ensures
        str_lt(a, c),
    decreases a.len(),
{
    if a.len() > 0 && b.len() > 0 && c.len() > 0 && a[0] == b[0] && b[0] == c[0] {
        lemma_str_lt_trans(a.drop_first(), b.drop_first(), c.drop_first());
    }
}

proof fn lemma_str_lt_total(a: Seq<char>, b: Seq<char>)
    ensures
        a != b ==> str_lt(a, b) || str_lt(b, a),
        !(str_lt(a, b) && str_lt(b, a)),
        !str_lt(a, a),
    decreases a.len(),
{
    if a.len() == 0 && b.len() == 0 {
        assert(a =~= b);
    }
    if a.len() > 0 && b.len() > 0 && a[0] != b[0] {
        assert((a[0] as int) != (b[0] as int));
    }
    if a.len() > 0 && b.len() > 0 && a[0] == b[0] {
        lemma_str_lt_total(a.drop_first(), b.drop_first());
        if a.drop_first() == b.drop_first() {
            assert(a == seq![a[0]] + a.drop_first());
            assert(b == seq![b[0]] + b.drop_first());
        }
    }
    if a.len() > 0 {
        lemma_str_lt_total(a.drop_first(), a.drop_first());
    }
}

/// Whether `a` comes before `b` (see `str_lt`).
pub fn str_less(a: &str, b: &str) -> (r: bool)
    ensures
        r == str_lt(a@, b@),
{
    let la = a.unicode_len();
    let lb = b.unicode_len();
    let mut i: usize = 0;
    assert(a@.skip(0) =~= a@ && b@.skip(0) =~= b@);
    while i < la && i < lb
        invariant
            i <= la,
            i <= lb,
            la == a@.len(),
            lb == b@.len(),
            str_lt(a@, b@) == str_lt(a@.skip(i as int), b@.skip(i as int)),
        decreases la - i,
    {
        let ca = a.get_char(i);
        let cb = b.get_char(i);
        assert(a@.skip(i as int)[0] == ca && b@.skip(i as int)[0] == cb);
        if ca != cb {
            return ca < cb;
        }
        assert(a@.skip(i as int).drop_first() == a@.skip(i + 1));
        assert(b@.skip(i as int).drop_first() == b@.skip(i + 1));
        i = i + 1;
    }
    i < lb
}

/// Strictly ascending (hence without repeats).
pub open spec fn sorted_strict(s: Seq<Seq<char>>) -> bool {
    forall|i: int, j: int| 0 <= i < j < s.len() ==> str_lt(#[trigger] s[i], #[trigger] s[j])
}

/// The catalog (source) of the last loaded entry for `code`.
pub open spec fn catalog_for(cats: Seq<(Seq<char>, Seq<char>)>, code: Seq<char>) -> Option<Seq<char>>
    decreases cats.len(),
{
    if cats.len() == 0 {
        None
    } else if cats.last().0 == code {
        Some(cats.last().1)
    } else {
        catalog_for(cats.drop_last(), code)
    }
}

/// A message in one language, if its catalog is loaded and holds it.
pub open spec fn lookup_in(cats: Seq<(Seq<char>, Seq<char>)>, code: Seq<char>, key: Seq<char>) -> Option<
    Seq<char>,
> {
    match catalog_for(cats, code) {
        Some(src) => fluent_message(code, src, key),
        None => None,
    }
}

/// The fallback chain: the current language's text, else English, else
/// the key itself.
pub open spec fn resolved(current: Option<Seq<char>>, english: Option<Seq<char>>, key: Seq<char>) -> Seq<
    char,
> {
    match current {
        Some(s) => s,
        None => match english {
            Some(s) => s,
            None => key,
        },
    }
}

/// What a `Localizer` holds: the loaded catalogs (language code, source)
/// in load order, and the current language.
pub struct LocalizerView {
    pub catalogs: Seq<(Seq<char>, Seq<char>)>,
    pub current: Seq<char>,
}

/// Text of `key` under a localizer's state.
pub open spec fn text_for(l: LocalizerView, key: Seq<char>) -> Seq<char> {
    resolved(lookup_in(l.catalogs, l.current, key), lookup_in(l.catalogs, "en"@, key), key)
}

/// The catalogs that load, in order.
pub open spec fn loadable(sources: Seq<(Seq<char>, Seq<char>)>) -> Seq<(Seq<char>, Seq<char>)> {
    sources.filter(|e: (Seq<char>, Seq<char>)| lang_code_ok(e.0) && ftl_ok(e.1))
}

/// The (code, source) pairs of a list of string pairs.
pub open spec fn pair_views(v: Seq<(String, String)>) -> Seq<(Seq<char>, Seq<char>)> {
    v.map_values(|e: (String, String)| (e.0@, e.1@))
}

/// Catalogs per language and the current language.
#[derive(Debug)]
pub struct Localizer {
    catalogs: Vec<(String, String)>,
    current: String,
}

impl View for Localizer {
    type V = LocalizerView;

    closed spec fn view(&self) -> LocalizerView {
        LocalizerView { catalogs: pair_views(self.catalogs@), current: self.current@ }
    }
}

/// Fallback chain of a lookup: the current language's text, else the
/// English text, else the key.
pub fn resolve_text(current: Option<String>, english: Option<String>, key: &str) -> (r: String)
    ensures
        r@ == resolved(
            match current {
                Some(s) => Some(s@),
                None => None,
            },
            match english {
                Some(s) => Some(s@),
                None => None,
            },
            key@,
        ),
{
    match current {
        Some(s) => s,
        None => match english {
            Some(s) => s,
            None => key.to_owned(),
        },
    }
}

impl Localizer {
    /// Loads the catalogs given as (language code, Fluent source) pairs; a
    /// pair whose code or source does not parse is skipped, so one broken
    /// catalog cannot stop the others. A later pair for the same code
    /// replaces an earlier one. English is current.
    pub fn new(sources: Vec<(String, String)>) -> (l: Localizer)
        ensures
            l@.catalogs == loadable(pair_views(sources@)),
            l@.current == "en"@,
    {
        let ghost orig = pair_views(sources@);
        let mut catalogs: Vec<(String, String)> = Vec::new();
        let mut i: usize = 0;
        while i < sources.len()
            invariant
                i <= sources@.len(),
                orig == pair_views(sources@),
                pair_views(catalogs@) == loadable(orig.take(i as int)),
            decreases sources@.len() - i,
        {
            reveal(Seq::filter);
            let code = sources[i].0.clone();
            let src = sources[i].1.clone();
            assert(orig.take(i + 1).drop_last() == orig.take(i as int));
            assert(orig.take(i + 1).last() == (code@, src@));
            if parse_lang_code(code.as_str()) && parse_ftl(src.as_str()) {
                let ghost before = catalogs@;
                catalogs.push((code, src));
                assert(pair_views(catalogs@) == pair_views(before).push((code@, src@)));
            }
            i = i + 1;
        }
        assert(orig.take(sources@.len() as int) == orig);
        Localizer { catalogs, current: "en".to_owned() }
    }

    /// Index of the catalog for `code` (the last loaded one).
    fn find_catalog(&self, code: &str) -> (r: Option<usize>)
        ensures
            match r {
                Some(i) => i < self@.catalogs.len() && catalog_for(self@.catalogs, code@) == Some(
                    self@.catalogs[i as int].1,
                ),
                None => catalog_for(self@.catalogs, code@) is None,
            },
    {
        let ghost cats = self@.catalogs;
        let mut n: usize = self.catalogs.len();
        assert(cats.take(n as int) =~= cats);
        while n > 0
            invariant
                n <= cats.len(),
                cats == pair_views(self.catalogs@),
                catalog_for(cats, code@) == catalog_for(cats.take(n as int), code@),
            decreases n,
        {
            let ghost pre = cats.take(n as int);
            assert(pre.drop_last() == cats.take(n - 1));
            assert(pre.last() == cats[n - 1]);
            if str_eq(self.catalogs[n - 1].0.as_str(), code) {
                return Some(n - 1);
            }
            n = n - 1;
        }
        None
    }

    /// Message `key` in language `code` alone (no fallback).
    fn lookup(&self, code: &str, key: &str) -> (r: Option<String>)
        ensures
            match r {
                Some(s) => lookup_in(self@.catalogs, code@, key@) == Some(s@),
                None => lookup_in(self@.catalogs, code@, key@) is None,
            },
    {
        match self.find_catalog(code) {
            Some(i) => format_message(code, self.catalogs[i].1.as_str(), key),
            None => None,
        }
    }

    /// The loaded language codes, ascending, each once.
    pub fn available(&self) -> (r: Vec<String>)
        ensures
            sorted_strict(crate::ui::names(r@)),
            forall|c: Seq<char>|
                crate::ui::names(r@).contains(c) <==> exists|i: int|
                    0 <= i < self@.catalogs.len() && #[trigger] self@.catalogs[i].0 == c,
    {
        let ghost cats = self@.catalogs;
        let mut out: Vec<String> = Vec::new();
        let mut k: usize = 0;
        while k < self.catalogs.len()
            invariant
                k <= cats.len(),
                cats == pair_views(self.catalogs@),
                sorted_strict(crate::ui::names(out@)),
                forall|c: Seq<char>|
                    crate::ui::names(out@).contains(c) <==> exists|i: int|
                        0 <= i < k && #[trigger] cats[i].0 == c,
            decreases cats.len() - k,
        {
            let code = self.catalogs[k].0.clone();
            assert(code@ == cats[k as int].0);
            let ghost o = crate::ui::names(out@);
            let mut p: usize = 0;
            let mut present = false;
            while p < out.len()
                invariant_except_break
                    !present,
                invariant
                    p <= out@.len(),
                    o == crate::ui::names(out@),
                    sorted_strict(o),
                    forall|j: int| 0 <= j < p ==> str_lt(#[trigger] o[j], code@),
                ensures
                    present ==> p < o.len() && o[p as int] == code@,
                    !present ==> (p < o.len() ==> str_lt(code@, o[p as int])),
                decreases out@.len() - p,
            {
                if str_eq(out[p].as_str(), code.as_str()) {
                    present = true;
                    assert(o[p as int] == out@[p as int]@);
                    break;
                }
                if str_less(code.as_str(), out[p].as_str()) {
                    break;
                }
                proof {
                    lemma_str_lt_total(o[p as int], code@);
                }
                p = p + 1;
            }
            if present {
                assert(o[p as int] == code@);
                assert(o.contains(code@));
            } else {
                proof {
                    if p < o.len() {
                        assert(str_lt(code@, o[p as int]));
                    }
                    assert forall|j: int| 0 <= j < o.len() implies o[j] != code@ by {
                        lemma_str_lt_total(o[j], code@);
                        if j >= p && p < o.len() {
                            if j > p {
                                lemma_str_lt_trans(code@, o[p as int], o[j]);
                            }
                        }
                    }
                }
                out.insert(p, code);
                proof {
                    let n = crate::ui::names(out@);
                    assert(n == o.insert(p as int, code@));
                    assert forall|i: int, j: int| 0 <= i < j < n.len() implies str_lt(
                        #[trigger] n[i],
                        #[trigger] n[j],
                    ) by {
                        if j < p {
                            assert(n[i] == o[i] && n[j] == o[j]);
                        } else if j == p {
                            assert(n[i] == o[i]);
                        } else if i == p {
                            assert(n[j] == o[j - 1]);
                            if j - 1 > p {
                                lemma_str_lt_trans(code@, o[p as int], o[j - 1]);
                            }
                        } else if i < p {
                            assert(n[i] == o[i] && n[j] == o[j - 1]);
                        } else {
                            assert(n[i] == o[i - 1] && n[j] == o[j - 1]);
                        }
                    }
                }
            }
            proof {
                let n = crate::ui::names(out@);
                assert forall|c: Seq<char>| n.contains(c) <==> exists|i: int|
                    0 <= i < k + 1 && #[trigger] cats[i].0 == c by {
                    if n.contains(c) {
                        let m = choose|m: int| 0 <= m < n.len() && n[m] == c;
                        if !present {
                            if m == p {
                                assert(cats[k as int].0 == c);
                            } else if m < p {
                                assert(o[m] == c);
                                assert(o.contains(c));
                            } else {
                                assert(o[m - 1] == c);
                                assert(o.contains(c));
                            }
                        } else {
                            assert(o.contains(c));
                        }
                    }
                    if exists|i: int| 0 <= i < k + 1 && #[trigger] cats[i].0 == c {
                        let i = choose|i: int| 0 <= i < k + 1 && #[trigger] cats[i].0 == c;
                        if i == k {
                            if present {
                                assert(o[p as int] == c);
                            } else {
                                assert(n[p as int] == c);
                            }
                        } else {
                            assert(o.contains(c));
                            let m = choose|m: int| 0 <= m < o.len() && o[m] == c;
                            if present {
                                assert(n[m] == c);
                            } else if m < p {
                                assert(n[m] == c);
                            } else {
                                assert(n[m + 1] == c);
                            }
                        }
                    }
                }
            }
            k = k + 1;
        }
        out
    }

    /// The current language code.
    pub fn language(&self) -> (r: &str)
        ensures
            r@ == self@.current,
    {
        self.current.as_str()
    }

    /// Switches language. Returns false, keeping the current one, for a
    /// code with no loaded catalog.
    pub fn set_language(&mut self, code: &str) -> (ok: bool)
        ensures
            ok == (catalog_for(old(self)@.catalogs, code@) is Some),
            ok ==> final(self)@ == (LocalizerView { current: code@, ..old(self)@ }),
            !ok ==> final(self)@ == old(self)@,
    {
        if self.find_catalog(code).is_some() {
            self.current = code.to_owned();
            true
        } else {
            false
        }
    }

    /// Message `key` in the current language only.
    pub fn t_local(&self, key: &str) -> (r: Option<String>)
        ensures
            match r {
                Some(s) => lookup_in(self@.catalogs, self@.current, key@) == Some(s@),
                None => lookup_in(self@.catalogs, self@.current, key@) is None,
            },
    {
        self.lookup(self.current.as_str(), key)
    }

    /// Looks up a key: the current language, then English, then the key
    /// itself.
    pub fn t(&self, key: &str) -> (r: String)
        ensures
            r@ == text_for(self@, key@),
    {
        let current = self.lookup(self.current.as_str(), key);
        let english = self.lookup("en", key);
        resolve_text(current, english, key)
    }
}

/// Catalog key of a seed's name (see `seed_key`).
pub open spec fn seed_key_of(name: Seq<char>) -> Seq<char> {
    "seed-"@ + slug(name)
}

/// The seed's display name from a looked-up text: the text, unless the
/// lookup fell through to the key itself, when the internal name is shown.
pub open spec fn seed_label(text: Seq<char>, name: Seq<char>) -> Seq<char> {
    if text == seed_key_of(name) {
        name
    } else {
        text
    }
}

/// Translated seed display name; the internal name when the key itself
/// leaks through (unknown seed or missing catalog entry).
pub fn t_seed(loc: &Localizer, name: &str) -> (r: String)
    ensures
        r@ == seed_label(text_for(loc@, seed_key_of(name@)), name@),
{
    let key = seed_key(name);
    let got = loc.t(key.as_str());
    if str_eq(got.as_str(), key.as_str()) {
        name.to_owned()
    } else {
        got
    }
}

/// The first four characters of a name (packet-length label).
pub fn short_name(name: &str) -> (r: String)
    ensures
        r@ == char_prefix(name@, 4),
{
    prefix_chars(name, 4)
}

/// Packet-length seed label: the translator's short label when the current
/// language has one, else the first four characters of the translated name.
pub fn short_seed(loc: &Localizer, name: &str) -> (r: String)
    ensures
        ({
            let short_key = seed_key_of(name@) + "-short"@;
            match lookup_in(loc@.catalogs, loc@.current, short_key) {
                Some(s) => r@ == s,
                None => r@ == char_prefix(seed_label(text_for(loc@, seed_key_of(name@)), name@), 4),
            }
        }),
{
    let mut short_key = seed_key(name);
    short_key.append("-short");
    match loc.t_local(short_key.as_str()) {
        Some(s) => s,
        None => short_name(t_seed(loc, name).as_str()),
    }
}

/// The flat key/value translation table of the full build.
pub struct Translations {
    map: StringHashMap<String>,
}

impl View for Translations {
    type V = Map<Seq<char>, Seq<char>>;

    closed spec fn view(&self) -> Map<Seq<char>, Seq<char>> {
        self.map@.map_values(|s: String| s@)
    }
}

impl Translations {
    /// An empty table.
    pub fn new() -> (t: Translations)
        ensures
            t@ == Map::<Seq<char>, Seq<char>>::empty(),
    {
        let t = Translations { map: StringHashMap::new() };
        assert(t@ =~= Map::<Seq<char>, Seq<char>>::empty());
        t
    }

    /// Sets the text of a key.
    pub fn insert(&mut self, key: String, text: String)
        ensures
            final(self)@ == old(self)@.insert(key@, text@),
    {
        self.map.insert(key, text);
        assert(self@ =~= old(self)@.insert(key@, text@));
    }
}

/// Text of `key` in the table, or `fallback` when the table lacks it.
pub fn t(translations: &Translations, key: &str, fallback: &str) -> (r: String)
    ensures
        r@ == if translations@.contains_key(key@) {
            translations@[key@]
        } else {
            fallback@
        },
{
    match translations.map.get(key) {
        Some(s) => s.clone(),
        None => fallback.to_owned(),
    }
}

} // verus!
