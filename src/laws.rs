use vstd::prelude::*;
use crate::model::{dir_entries, effect, has_dir, is_listing, promoted, replay, step, Entries, Event, Node};
use crate::precondition::{entry_check, InvariantViolation};
use crate::promotion::{after_listing, after_outcome, is_final, mutates, start, Failure, Phase, PromotionView};
use crate::temp_name::lemma_temp_name_free;

verus! {

/// A listing of a directory with the single entry `child` is exactly
/// `[child]`.
proof fn lemma_single_listing(names: Seq<Seq<char>>, m: Entries, child: Seq<char>)
    requires
        is_listing(names, m),
        m.dom() == set![child],
    ensures
        names.len() == 1,
        names[0] == child,
{
    names.unique_seq_to_set();
    assert(names.to_set().contains(names[0]));
}

/// Promoting a directory `parent` whose only entry is `child`, on a
/// filesystem that carries out each step, takes the three steps in order
/// and leaves `child`'s node in `parent`'s place, with nothing else changed.
pub proof fn lemma_promotion_replaces_parent(
    g: Entries,
    parent: Seq<char>,
    child: Seq<char>,
    parent_names: Seq<Seq<char>>,
    grandparent_names: Seq<Seq<char>>,
)
    requires
        parent.len() > 0,
        has_dir(g, parent),
        dir_entries(g, parent).dom() == set![child],
        is_listing(parent_names, dir_entries(g, parent)),
        is_listing(grandparent_names, g),
    ensures
        ({
            let s1 = after_listing(start(child, parent, false), parent_names);
            let s2 = after_listing(s1, grandparent_names);
            let s3 = after_outcome(s2, true);
            let s4 = after_outcome(s3, true);
            let g1 = effect(g, s2);
            let g2 = effect(g1.unwrap(), s3);
            let g3 = effect(g2.unwrap(), s4);
            &&& s1.phase == Phase::ListGrandparent
            &&& s2.phase == Phase::MoveChildToTemp && g1 is Some
            &&& s3.phase == Phase::RemoveParent && g2 is Some
            &&& s4.phase == Phase::MoveTempToParent && g3 is Some
            &&& after_outcome(s4, true).phase == Phase::Promoted
            &&& g3.unwrap() == promoted(g, parent, child)
        }),
{
    let m = dir_entries(g, parent);
    lemma_single_listing(parent_names, m, child);
    let s1 = after_listing(start(child, parent, false), parent_names);
    let s2 = after_listing(s1, grandparent_names);
    let temp = s2.temp;
    lemma_temp_name_free(grandparent_names, parent);
    assert(!g.contains_key(temp));
    let g1 = g.insert(parent, Node::Dir(m.remove(child))).insert(temp, m[child]);
    assert(effect(g, s2) == Some(g1));
    let s3 = after_outcome(s2, true);
    assert(dir_entries(g1, parent).dom() =~= Set::empty());
    let g2 = g1.remove(parent);
    assert(effect(g1, s3) == Some(g2));
    let s4 = after_outcome(s3, true);
    let g3 = g2.remove(temp).insert(parent, g2[temp]);
    assert(effect(g2, s4) == Some(g3));
    assert(g3 =~= promoted(g, parent, child));
}

/// A promotion in a final phase stays as it is whatever it is handed next,
/// and asks for no change to the filesystem.
pub proof fn lemma_final_stays(s: PromotionView, evs: Seq<Event>)
    requires
        is_final(s.phase),
    ensures
        replay(s, evs) == s,
        !mutates(replay(s, evs).phase),
        forall|g: Entries| effect(g, s) is None,
    decreases evs.len(),
{
    if evs.len() > 0 {
        assert(step(s, evs[0]) == s);
        lemma_final_stays(s, evs.skip(1));
    }
}

/// A promotion whose parent lists no entries, or two or more, stops at the
/// check with the matching failure and never changes the filesystem,
/// whatever follows.
pub proof fn lemma_wrong_count_aborts(
    m: Entries,
    child: Seq<char>,
    parent: Seq<char>,
    dry_run: bool,
    names: Seq<Seq<char>>,
    rest: Seq<Event>,
)
    requires
        is_listing(names, m),
        m.dom().len() != 1,
    ensures
        ({
            let s1 = after_listing(start(child, parent, dry_run), names);
            &&& m.dom().len() == 0 ==> s1.phase == Phase::Failed(
                Failure::Invariant(InvariantViolation::EmptyParent),
            )
            &&& m.dom().len() >= 2 ==> s1.phase == Phase::Failed(Failure::ExtraEntries)
            &&& replay(s1, rest) == s1
            &&& !mutates(s1.phase)
        }),
{
    names.unique_seq_to_set();
    let s1 = after_listing(start(child, parent, dry_run), names);
    lemma_final_stays(s1, rest);
}

/// From the start of a dry run, every state reached is the start or a final
/// phase that changes nothing.
proof fn lemma_dry_run_reach(s: PromotionView, evs: Seq<Event>)
    requires
        s == start(s.child, s.parent, true) || (is_final(s.phase) && !mutates(s.phase)),
    ensures
        !mutates(replay(s, evs).phase),
    decreases evs.len(),
{
    if evs.len() > 0 {
        lemma_dry_run_reach(step(s, evs[0]), evs.skip(1));
    }
}

/// A dry run never reaches a phase that changes the filesystem, whatever it
/// is handed, and it reports the move once the check passes.
pub proof fn lemma_dry_run_never_mutates(
    child: Seq<char>,
    parent: Seq<char>,
    names: Seq<Seq<char>>,
    evs: Seq<Event>,
)
    ensures
        !mutates(replay(start(child, parent, true), evs).phase),
        entry_check(names, child) == Result::<bool, InvariantViolation>::Ok(true) ==> after_listing(start(child, parent, true), names).phase
            == Phase::DryRun,
{
    lemma_dry_run_reach(start(child, parent, true), evs);
}

/// When moving the child to the temporary name fails, the promotion stops
/// there: nothing is removed or renamed afterwards, so the parent still
/// holds the child.
pub proof fn lemma_failed_move_stops(s: PromotionView, rest: Seq<Event>)
    requires
        s.phase == Phase::MoveChildToTemp,
    ensures
        ({
            let t = after_outcome(s, false);
            &&& t.phase == Phase::Failed(Failure::MoveToTemp)
            &&& replay(t, rest) == t
        }),
{
    lemma_final_stays(after_outcome(s, false), rest);
}

/// When removing the emptied parent fails, the promotion stops with that
/// failure, still naming the child and the temporary name it was moved to,
/// and touches neither again.
pub proof fn lemma_failed_remove_stops(s: PromotionView, rest: Seq<Event>)
    requires
        s.phase == Phase::RemoveParent,
    ensures
        ({
            let t = after_outcome(s, false);
            &&& t.phase == Phase::Failed(Failure::RemoveParent)
            &&& t.child == s.child && t.temp == s.temp && t.parent == s.parent
            &&& replay(t, rest) == t
        }),
{
    lemma_final_stays(after_outcome(s, false), rest);
}

/// Promoting the same directory again after a promotion checks the promoted
/// contents: with two or more entries it stops with the precondition
/// failure; with exactly the one entry `next` it goes on.
pub proof fn lemma_second_promotion(
    g: Entries,
    parent: Seq<char>,
    child: Seq<char>,
    next: Seq<char>,
    dry_run: bool,
    names: Seq<Seq<char>>,
)
    requires
        has_dir(g, parent),
        dir_entries(g, parent).contains_key(child),
        has_dir(promoted(g, parent, child), parent),
        is_listing(names, dir_entries(promoted(g, parent, child), parent)),
    ensures
        dir_entries(promoted(g, parent, child), parent) == dir_entries(dir_entries(g, parent), child),
        names.len() >= 2 ==> after_listing(start(next, parent, dry_run), names).phase
            == Phase::Failed(Failure::ExtraEntries),
        dir_entries(promoted(g, parent, child), parent).dom() == set![next] ==> after_listing(
            start(next, parent, dry_run),
            names,
        ).phase != Phase::Failed(Failure::ExtraEntries),
{
    let m = dir_entries(promoted(g, parent, child), parent);
    if m.dom() == set![next] {
        lemma_single_listing(names, m, next);
    }
}

} // verus!
