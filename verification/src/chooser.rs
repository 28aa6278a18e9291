//! The seed chooser: picking and dropping packets before a level, and the
//! bank built from the picks.

use vstd::prelude::*;

use crate::constants::MAX_CHOOSER_PICKS;
use crate::defs::seed_def;
use crate::level_flow::{is_fresh_slot, name_unlocked};
use crate::ui::{bank_names, contains_name, names, PilotUi, SeedSlot, UiView};

verus! {

/// The picks after choosing `name`: added at the end unless already picked
/// or the chooser is full.
pub open spec fn pick_added(picks: Seq<Seq<char>>, name: Seq<char>) -> Seq<Seq<char>> {
    if !picks.contains(name) && picks.len() < MAX_CHOOSER_PICKS {
        picks.push(name)
    } else {
        picks
    }
}

/// The picks after dropping the one at `idx` (nothing past the end).
pub open spec fn pick_removed(picks: Seq<Seq<char>>, idx: int) -> Seq<Seq<char>> {
    if 0 <= idx < picks.len() {
        picks.remove(idx)
    } else {
        picks
    }
}

/// `bank` holds one fresh packet per name in `picks`, in order.
pub open spec fn bank_for(picks: Seq<Seq<char>>, bank: Seq<SeedSlot>) -> bool {
    &&& bank.len() == picks.len()
    &&& forall|i: int| 0 <= i < picks.len() ==> is_fresh_slot(#[trigger] bank[i], picks[i])
}

/// Chooses a packet in the seed chooser.
pub fn add_pick(ui: &mut PilotUi, name: String)
    ensures
        final(ui)@ == (UiView { picks: pick_added(old(ui)@.picks, name@), ..old(ui)@ }),
{
    if !contains_name(&ui.chooser_picks, name.as_str()) && ui.chooser_picks.len() < MAX_CHOOSER_PICKS {
        let ghost before = ui.chooser_picks@;
        ui.chooser_picks.push(name);
        assert(names(ui.chooser_picks@) == names(before).push(name@));
    }
}

/// Drops the packet at `idx` from the chooser picks.
pub fn remove_pick(ui: &mut PilotUi, idx: usize)
    ensures
        final(ui)@ == (UiView { picks: pick_removed(old(ui)@.picks, idx as int), ..old(ui)@ }),
{
    if idx < ui.chooser_picks.len() {
        let ghost before = ui.chooser_picks@;
        ui.chooser_picks.remove(idx);
        assert(names(ui.chooser_picks@) == names(before).remove(idx as int));
    }
}

/// Fresh packets (full, affordable, unselected, priced from the packet
/// table, 100 sun for an unknown name) for `picks`, in order.
pub fn fresh_bank(picks: &Vec<String>) -> (bank: Vec<SeedSlot>)
    ensures
        bank_for(names(picks@), bank@),
{
    let mut bank: Vec<SeedSlot> = Vec::new();
    let mut i: usize = 0;
    while i < picks.len()
        invariant
            i <= picks@.len(),
            bank@.len() == i,
            forall|j: int| 0 <= j < i ==> is_fresh_slot(#[trigger] bank@[j], names(picks@)[j]),
        decreases picks@.len() - i,
    {
        let name = picks[i].clone();
        let cost = match seed_def(name.as_str()) {
            Some(d) => d.cost,
            None => 100,
        };
        assert(names(picks@)[i as int] == name@);
        bank.push(SeedSlot { seed_name: name, cost, ready: true, affordable: true, selected: false });
        i = i + 1;
    }
    bank
}

/// Keeps only the picks whose seed is unlocked, in order.
pub fn retain_unlocked(picks: &mut Vec<String>, unlocked: &Vec<String>)
    ensures
        names(final(picks)@) == names(old(picks)@).filter(name_unlocked(names(unlocked@))),
{
    let ghost u = names(unlocked@);
    let mut rest: Vec<String> = Vec::new();
    std::mem::swap(&mut rest, picks);
    let ghost orig = names(rest@);
    let ghost orig_v = rest@;
    let mut kept: Vec<String> = Vec::new();
    let ghost mut i: int = 0;
    while rest.len() > 0
        invariant
            0 <= i <= orig.len(),
            orig == names(orig_v),
            rest@ == orig_v.skip(i),
            u == names(unlocked@),
            names(kept@) == orig.take(i).filter(name_unlocked(u)),
        decreases rest.len(),
    {
        reveal(Seq::filter);
        let name = rest.remove(0);
        assert(name@ == orig[i]);
        assert(orig.take(i + 1).drop_last() == orig.take(i));
        assert(orig.take(i + 1).last() == name@);
        if contains_name(unlocked, name.as_str()) {
            let ghost k0 = kept@;
            kept.push(name);
            assert(names(kept@) == names(k0).push(name@));
        }
        proof {
            i = i + 1;
        }
        assert(rest@ == orig_v.skip(i));
    }
    assert(orig.take(orig.len() as int) == orig);
    *picks = kept;
}

/// The bank's seed names, as a fresh list (the chooser opens with them).
pub fn bank_name_list(bank: &Vec<SeedSlot>) -> (r: Vec<String>)
    ensures
        names(r@) == bank_names(bank@),
{
    let mut r: Vec<String> = Vec::new();
    let mut i: usize = 0;
    while i < bank.len()
        invariant
            i <= bank@.len(),
            r@.len() == i,
            forall|j: int| 0 <= j < i ==> (#[trigger] r@[j])@ == bank@[j].seed_name@,
        decreases bank@.len() - i,
    {
        r.push(bank[i].seed_name.clone());
        i = i + 1;
    }
    assert(names(r@) == bank_names(bank@));
    r
}


/// No name occurs twice.
pub open spec fn distinct_names(s: Seq<Seq<char>>) -> bool {
    forall|i: int, j: int| 0 <= i < j < s.len() ==> #[trigger] s[i] != #[trigger] s[j]
}

/// Law: choosing and dropping packets keeps the picks free of repeats and
/// within the chooser's limit.
pub proof fn lemma_picks_stay_distinct_and_capped(picks: Seq<Seq<char>>, name: Seq<char>, idx: int)
    requires
        distinct_names(picks),
        picks.len() <= MAX_CHOOSER_PICKS,
    ensures
        distinct_names(pick_added(picks, name)),
        pick_added(picks, name).len() <= MAX_CHOOSER_PICKS,
        distinct_names(pick_removed(picks, idx)),
        pick_removed(picks, idx).len() <= MAX_CHOOSER_PICKS,
{
    let a = pick_added(picks, name);
    if !picks.contains(name) && picks.len() < MAX_CHOOSER_PICKS {
        assert forall|i: int, j: int| 0 <= i < j < a.len() implies #[trigger] a[i] != #[trigger] a[j] by {
            if j == picks.len() {
                assert(a[i] == picks[i]);
            }
        }
    }
    let r = pick_removed(picks, idx);
    if 0 <= idx < picks.len() {
        assert forall|i: int, j: int| 0 <= i < j < r.len() implies #[trigger] r[i] != #[trigger] r[j] by {
            let oi = if i < idx { i } else { i + 1 };
            let oj = if j < idx { j } else { j + 1 };
            assert(r[i] == picks[oi] && r[j] == picks[oj]);
        }
    }
}

/// Keeping only some names of a list free of repeats leaves it free of
/// repeats, and no longer; every name kept comes from the list.
pub proof fn lemma_filter_keeps_distinct(s: Seq<Seq<char>>, p: spec_fn(Seq<char>) -> bool)
    requires
        distinct_names(s),
    ensures
        distinct_names(s.filter(p)),
        s.filter(p).len() <= s.len(),
        forall|i: int| 0 <= i < s.filter(p).len() ==> s.contains(#[trigger] s.filter(p)[i]),
    decreases s.len(),
{
    reveal(Seq::filter);
    s.lemma_filter_len(p);
    if s.len() > 0 {
        let d = s.drop_last();
        assert(distinct_names(d)) by {
            assert forall|i: int, j: int| 0 <= i < j < d.len() implies #[trigger] d[i] != #[trigger] d[j] by {
                assert(d[i] == s[i] && d[j] == s[j]);
            }
        }
        lemma_filter_keeps_distinct(d, p);
        let f = d.filter(p);
        assert forall|i: int| 0 <= i < f.len() implies s.contains(#[trigger] f[i]) by {
            let k = choose|k: int| 0 <= k < d.len() && d[k] == f[i];
            assert(s[k] == d[k]);
        }
        if p(s.last()) {
            let g = f.push(s.last());
            assert forall|i: int, j: int| 0 <= i < j < g.len() implies #[trigger] g[i] != #[trigger] g[j] by {
                if j == f.len() {
                    let k = choose|k: int| 0 <= k < d.len() && d[k] == f[i];
                    assert(s[k] == d[k]);
                    assert(s[s.len() - 1] == s.last());
                } else {
                    assert(g[i] == f[i] && g[j] == f[j]);
                }
            }
            assert forall|i: int| 0 <= i < g.len() implies s.contains(#[trigger] g[i]) by {
                if i == f.len() {
                    assert(s[s.len() - 1] == g[i]);
                } else {
                    assert(g[i] == f[i]);
                }
            }
        }
    }
}

} // verus!
