use vstd::prelude::*;
use crate::promotion::{after_listing, after_outcome, Phase, PromotionView};

verus! {

/// A filesystem entry as far as a promotion can tell: a file's bytes, or a
/// directory's entries by name.
pub enum Node {
    File(Seq<u8>),
    Dir(Map<Seq<char>, Node>),
}

/// The entries of the grandparent directory, by name: the part of the
/// filesystem that a promotion touches.
pub type Entries = Map<Seq<char>, Node>;

/// `names` is what one listing of a directory with entries `m` returns: each
/// entry's name once, in some order.
pub open spec fn is_listing(names: Seq<Seq<char>>, m: Entries) -> bool {
    names.no_duplicates() && names.to_set() == m.dom()
}

/// The entries of the directory `name` in `g`.
pub open spec fn dir_entries(g: Entries, name: Seq<char>) -> Entries {
    g[name]->Dir_0
}

/// `g` has a directory called `name`.
pub open spec fn has_dir(g: Entries, name: Seq<char>) -> bool {
    g.contains_key(name) && g[name] is Dir
}

/// What the filesystem `g` becomes when it carries out the work of the
/// promotion's current phase; `None` where it refuses (an existing target
/// name, a missing source, a parent that is not empty) or the phase changes
/// nothing.
pub open spec fn effect(g: Entries, s: PromotionView) -> Option<Entries> {
    match s.phase {
        Phase::MoveChildToTemp => if has_dir(g, s.parent) && dir_entries(g, s.parent).contains_key(
            s.child,
        ) && !g.contains_key(s.temp) {
            let m = dir_entries(g, s.parent);
            Some(g.insert(s.parent, Node::Dir(m.remove(s.child))).insert(s.temp, m[s.child]))
        } else {
            None
        },
        Phase::RemoveParent => if has_dir(g, s.parent) && dir_entries(g, s.parent).dom().is_empty() {
            Some(g.remove(s.parent))
        } else {
            None
        },
        Phase::MoveTempToParent => if g.contains_key(s.temp) && !g.contains_key(s.parent) {
            Some(g.remove(s.temp).insert(s.parent, g[s.temp]))
        } else {
            None
        },
        _ => None,
    }
}

/// What a caller hands to a promotion: a directory listing, or whether the
/// phase's work succeeded.
pub enum Event {
    Listing(Seq<Seq<char>>),
    Outcome(bool),
}

/// The promotion after one event.
pub open spec fn step(s: PromotionView, e: Event) -> PromotionView {
    match e {
        Event::Listing(names) => after_listing(s, names),
        Event::Outcome(ok) => after_outcome(s, ok),
    }
}

/// The promotion after the events `evs`, in order.
pub open spec fn replay(s: PromotionView, evs: Seq<Event>) -> PromotionView
    decreases evs.len(),
{
    if evs.len() == 0 {
        s
    } else {
        replay(step(s, evs[0]), evs.skip(1))
    }
}

/// `g` once the directory `parent` is replaced by its entry `child`.
pub open spec fn promoted(g: Entries, parent: Seq<char>, child: Seq<char>) -> Entries {
    g.insert(parent, dir_entries(g, parent)[child])
}

} // verus!
