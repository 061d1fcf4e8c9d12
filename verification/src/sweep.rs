//! Pruning the working directory once a version is known to be installed.

use crate::host::{DirEntry, DirEntryView, Effect, EffectView, EntryKind, effects_view, entries_view};
use crate::platform::{install_directory, working_directory};
use vstd::prelude::*;
use vstd::string::*;

verus! {

/// What the sweep does about one entry: nothing for the entry named like the
/// installed version or for one of unknown type, and else the removal that
/// fits its type.
pub open spec fn removal_of(entry: DirEntryView, version: Seq<char>) -> Option<EffectView> {
    if entry.name == version {
        None
    } else {
        match entry.kind {
            EntryKind::Directory => Some(EffectView::RemoveTree(working_directory() + entry.name)),
            EntryKind::File => Some(EffectView::RemoveFile(working_directory() + entry.name)),
            EntryKind::Unknown => None,
        }
    }
}

/// The removals for a whole listing, in the listing's order.
pub open spec fn sweep_plan(entries: Seq<DirEntryView>, version: Seq<char>) -> Seq<EffectView>
    decreases entries.len(),
{
    if entries.len() == 0 {
        Seq::empty()
    } else {
        let before = sweep_plan(entries.drop_last(), version);
        match removal_of(entries.last(), version) {
            Some(removal) => before.push(removal),
            None => before,
        }
    }
}

/// Whether `effect` removes the entry called `name`, in either way.
pub open spec fn removes(effect: EffectView, name: Seq<char>) -> bool {
    effect == EffectView::RemoveTree(working_directory() + name) || effect
        == EffectView::RemoveFile(working_directory() + name)
}

/// Two entries with different names lie at different paths.
pub proof fn lemma_paths_differ(a: Seq<char>, b: Seq<char>)
    requires
        a != b,
    ensures
        working_directory() + a != working_directory() + b,
{
    let dir = working_directory();
    if dir + a == dir + b {
        assert((dir + a).len() == (dir + b).len());
        assert forall|i: int| 0 <= i < a.len() implies a[i] == b[i] by {
            assert((dir + a)[dir.len() + i] == a[i]);
            assert((dir + b)[dir.len() + i] == b[i]);
        }
        assert(a =~= b);
    }
}

/// Whether `effect` is what the sweep does about some entry of the listing.
pub open spec fn planned_for(
    entries: Seq<DirEntryView>,
    version: Seq<char>,
    effect: EffectView,
) -> bool {
    exists|i: int|
        0 <= i < entries.len() && removal_of(#[trigger] entries[i], version) == Some(effect)
}

/// Every step of the plan removes an entry of the listing whose name is not
/// the version, as its type asks; so nothing in the plan touches the
/// installed version.
pub proof fn lemma_sweep_spares_version(entries: Seq<DirEntryView>, version: Seq<char>)
    ensures
        forall|k: int|
            0 <= k < sweep_plan(entries, version).len() ==> planned_for(
                entries,
                version,
                #[trigger] sweep_plan(entries, version)[k],
            ),
        forall|k: int|
            0 <= k < sweep_plan(entries, version).len() ==> !removes(
                #[trigger] sweep_plan(entries, version)[k],
                version,
            ),
    decreases entries.len(),
{
    let plan = sweep_plan(entries, version);
    if entries.len() > 0 {
        let front = entries.drop_last();
        let before = sweep_plan(front, version);
        lemma_sweep_spares_version(front, version);
        assert forall|k: int| 0 <= k < plan.len() implies planned_for(
            entries,
            version,
            #[trigger] plan[k],
        ) by {
            if k < before.len() {
                assert(planned_for(front, version, before[k]));
                let i = choose|i: int|
                    0 <= i < front.len() && removal_of(#[trigger] front[i], version) == Some(
                        before[k],
                    );
                assert(entries[i] == front[i]);
            } else {
                assert(removal_of(entries[entries.len() - 1], version) == Some(plan[k]));
            }
        }
    }
    assert forall|k: int| 0 <= k < plan.len() implies !removes(#[trigger] plan[k], version) by {
        assert(planned_for(entries, version, plan[k]));
        let i = choose|i: int|
            0 <= i < entries.len() && removal_of(#[trigger] entries[i], version) == Some(plan[k]);
        lemma_paths_differ(entries[i].name, version);
    }
}

/// Every entry of known type whose name is not the version has its removal
/// in the plan: a directory as a tree, anything else as a file.
pub proof fn lemma_sweep_removes_others(entries: Seq<DirEntryView>, version: Seq<char>)
    ensures
        forall|i: int|
            0 <= i < entries.len() && removal_of(#[trigger] entries[i], version) is Some
                ==> sweep_plan(entries, version).contains(removal_of(entries[i], version)->0),
    decreases entries.len(),
{
    let plan = sweep_plan(entries, version);
    if entries.len() > 0 {
        let front = entries.drop_last();
        let before = sweep_plan(front, version);
        lemma_sweep_removes_others(front, version);
        assert forall|i: int|
            0 <= i < entries.len() && removal_of(
                #[trigger] entries[i],
                version,
            ) is Some implies plan.contains(removal_of(entries[i], version)->0) by {
            let removal = removal_of(entries[i], version)->0;
            if i < front.len() {
                assert(front[i] == entries[i]);
                let k = choose|k: int| 0 <= k < before.len() && before[k] == removal;
                assert(plan[k] == removal);
            } else {
                assert(plan[plan.len() - 1] == removal);
            }
        }
    }
}

/// Plans the sweep of a listing: which entries go, and how.
pub fn plan_sweep(entries: &Vec<DirEntry>, version: &String) -> (plan: Vec<Effect>)
    ensures
        effects_view(plan@) == sweep_plan(entries_view(entries@), version@),
{
    let ghost all = entries_view(entries@);
    let mut plan: Vec<Effect> = Vec::new();
    let mut i: usize = 0;
    assert(effects_view(plan@) =~= sweep_plan(all.take(0), version@));
    while i < entries.len()
        invariant
            i <= entries.len(),
            all == entries_view(entries@),
            effects_view(plan@) == sweep_plan(all.take(i as int), version@),
        decreases entries.len() - i,
    {
        let entry = &entries[i];
        let ghost before = effects_view(plan@);
        assert(all.take(i as int + 1).drop_last() =~= all.take(i as int));
        assert(all.take(i as int + 1).last() == entry@);
        if entry.name != *version {
            match entry.kind {
                EntryKind::Directory => {
                    let mut path = String::from_str(install_directory());
                    path.append(entry.name.as_str());
                    plan.push(Effect::RemoveTree(path));
                    assert(effects_view(plan@) =~= before.push(removal_of(entry@, version@)->0));
                },
                EntryKind::File => {
                    let mut path = String::from_str(install_directory());
                    path.append(entry.name.as_str());
                    plan.push(Effect::RemoveFile(path));
                    assert(effects_view(plan@) =~= before.push(removal_of(entry@, version@)->0));
                },
                EntryKind::Unknown => {},
            }
        }
        i += 1;
    }
    assert(all.take(i as int) =~= all);
    plan
}

} // verus!
