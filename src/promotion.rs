use vstd::prelude::*;
use crate::precondition::{entry_check, has_one_entry, InvariantViolation};
use crate::temp_name::{get_unique_temporary_name, temp_name};

verus! {

/// Why a promotion stopped short.
#[derive(Debug, Clone, Copy, PartialEq, Eq, Structural)]
pub enum Failure {
    /// The parent directory could not be listed.
    ParentUnlisted,
    /// The parent's listing contradicts how the parent was found.
    Invariant(InvariantViolation),
    /// The parent holds other entries besides the child.
    ExtraEntries,
    /// The parent has no base name to derive a temporary name from.
    NoBaseName,
    /// The grandparent directory could not be listed.
    GrandparentUnlisted,
    /// Moving the child to the temporary name failed; nothing was changed.
    MoveToTemp,
    /// Removing the emptied parent failed; the child already sits at the
    /// temporary name.
    RemoveParent,
    /// Moving the temporary name onto the parent's name failed; the parent is
    /// gone and the temporary name holds the promoted contents.
    MoveToParent,
}

/// The kinds of failure that a caller reports differently.
#[derive(Debug, Clone, Copy, PartialEq, Eq, Structural)]
pub enum Category {
    /// A path could not be read or named; nothing was changed.
    Resolution,
    /// The filesystem contradicts itself (a race, or a bug); nothing was changed.
    Invariant,
    /// The parent does not hold exactly the child; nothing was changed.
    Precondition,
    /// A rename or remove failed.
    Operation,
}

/// The kind of each failure.
pub open spec fn category_of(f: Failure) -> Category {
    match f {
        Failure::ParentUnlisted | Failure::NoBaseName | Failure::GrandparentUnlisted => Category::Resolution,
        Failure::Invariant(_) => Category::Invariant,
        Failure::ExtraEntries => Category::Precondition,
        Failure::MoveToTemp | Failure::RemoveParent | Failure::MoveToParent => Category::Operation,
    }
}

impl Failure {
    /// The kind of this failure.
    pub fn category(&self) -> (r: Category)
        ensures
            r == category_of(*self),
    {
        match self {
            Failure::ParentUnlisted | Failure::NoBaseName | Failure::GrandparentUnlisted => Category::Resolution,
            Failure::Invariant(_) => Category::Invariant,
            Failure::ExtraEntries => Category::Precondition,
            Failure::MoveToTemp | Failure::RemoveParent | Failure::MoveToParent => Category::Operation,
        }
    }
}

/// Where a promotion stands: in the first five phases the caller has one
/// thing to do and report back; the last three are final.
#[derive(Debug, Clone, Copy, PartialEq, Eq, Structural)]
pub enum Phase {
    /// List the parent directory and hand over the names.
    ListParent,
    /// List the grandparent directory and hand over the names.
    ListGrandparent,
    /// Rename the child to the temporary name in the grandparent.
    MoveChildToTemp,
    /// Remove the (now empty) parent directory.
    RemoveParent,
    /// Rename the temporary name to the parent's name.
    MoveTempToParent,
    /// Dry run: the check passed; report the move that would be made.
    DryRun,
    /// The child now stands where the parent was.
    Promoted,
    /// Stopped; see the failure.
    Failed(Failure),
}

/// A phase in which the caller changes the filesystem.
pub open spec fn mutates(p: Phase) -> bool {
    p is MoveChildToTemp || p is RemoveParent || p is MoveTempToParent
}

/// A phase after which nothing more is done.
pub open spec fn is_final(p: Phase) -> bool {
    p is DryRun || p is Promoted || p is Failed
}

/// A promotion as its contracts see it: the names involved, whether it is a
/// dry run, and its phase.
pub struct PromotionView {
    pub child: Seq<char>,
    pub parent: Seq<char>,
    pub temp: Seq<char>,
    pub dry_run: bool,
    pub phase: Phase,
}

/// One promotion of the directory named `child` inside the directory named
/// `parent`, which sits in a grandparent directory.
pub struct Promotion {
    child: String,
    parent: String,
    temp: String,
    dry_run: bool,
    phase: Phase,
}

impl View for Promotion {
    type V = PromotionView;

    closed spec fn view(&self) -> PromotionView {
        PromotionView {
            child: self.child@,
            parent: self.parent@,
            temp: self.temp@,
            dry_run: self.dry_run,
            phase: self.phase,
        }
    }
}

/// A promotion that has done nothing yet.
pub open spec fn start(child: Seq<char>, parent: Seq<char>, dry_run: bool) -> PromotionView {
    PromotionView { child, parent, temp: Seq::empty(), dry_run, phase: Phase::ListParent }
}

/// The promotion after the caller hands over the listing `names` of the
/// directory that the phase asked for. In other phases nothing changes.
pub open spec fn after_listing(s: PromotionView, names: Seq<Seq<char>>) -> PromotionView {
    match s.phase {
        Phase::ListParent => match entry_check(names, s.child) {
            Err(v) => PromotionView { phase: Phase::Failed(Failure::Invariant(v)), ..s },
            Ok(false) => PromotionView { phase: Phase::Failed(Failure::ExtraEntries), ..s },
            Ok(true) => if s.dry_run {
                PromotionView { phase: Phase::DryRun, ..s }
            } else {
                PromotionView { phase: Phase::ListGrandparent, ..s }
            },
        },
        Phase::ListGrandparent => if s.parent.len() == 0 {
            PromotionView { phase: Phase::Failed(Failure::NoBaseName), ..s }
        } else {
            PromotionView {
                temp: temp_name(names, s.parent),
                phase: Phase::MoveChildToTemp,
                ..s
            }
        },
        _ => s,
    }
}

/// The promotion after the caller reports whether the phase's work
/// succeeded. A listing reported without names has failed; in a final phase
/// nothing changes.
pub open spec fn after_outcome(s: PromotionView, ok: bool) -> PromotionView {
    match s.phase {
        Phase::ListParent => if ok {
            s
        } else {
            PromotionView { phase: Phase::Failed(Failure::ParentUnlisted), ..s }
        },
        Phase::ListGrandparent => if ok {
            s
        } else {
            PromotionView { phase: Phase::Failed(Failure::GrandparentUnlisted), ..s }
        },
        Phase::MoveChildToTemp => if ok {
            PromotionView { phase: Phase::RemoveParent, ..s }
        } else {
            PromotionView { phase: Phase::Failed(Failure::MoveToTemp), ..s }
        },
        Phase::RemoveParent => if ok {
            PromotionView { phase: Phase::MoveTempToParent, ..s }
        } else {
            PromotionView { phase: Phase::Failed(Failure::RemoveParent), ..s }
        },
        Phase::MoveTempToParent => if ok {
            PromotionView { phase: Phase::Promoted, ..s }
        } else {
            PromotionView { phase: Phase::Failed(Failure::MoveToParent), ..s }
        },
        _ => s,
    }
}

impl Promotion {
    /// Starts the promotion of `child`, an entry of the directory `parent`;
    /// with `dry_run` it stops once the check has passed.
    pub fn new(child: String, parent: String, dry_run: bool) -> (r: Promotion)
        ensures
            r@ == start(child@, parent@, dry_run),
    {
        Promotion { child, parent, temp: String::new(), dry_run, phase: Phase::ListParent }
    }

    /// Where the promotion stands.
    pub fn phase(&self) -> (r: Phase)
        ensures
            r == self@.phase,
    {
        self.phase
    }

    /// Whether nothing more is to be done.
    pub fn is_finished(&self) -> (r: bool)
        ensures
            r == is_final(self@.phase),
    {
        match self.phase {
            Phase::DryRun | Phase::Promoted | Phase::Failed(_) => true,
            _ => false,
        }
    }

    /// The name of the directory being promoted.
    pub fn child(&self) -> (r: &String)
        ensures
            r@ == self@.child,
    {
        &self.child
    }

    /// The name of the directory that the child replaces.
    pub fn parent(&self) -> (r: &String)
        ensures
            r@ == self@.parent,
    {
        &self.parent
    }

    /// The temporary name in the grandparent; empty until it is chosen.
    pub fn temp(&self) -> (r: &String)
        ensures
            r@ == self@.temp,
    {
        &self.temp
    }

    /// Whether this is a dry run.
    pub fn is_dry_run(&self) -> (r: bool)
        ensures
            r == self@.dry_run,
    {
        self.dry_run
    }

    /// Takes the listing of the directory that the phase asked for.
    pub fn on_listing(&mut self, names: &Vec<String>)
        ensures
            final(self)@ == after_listing(old(self)@, names.deep_view()),
    {
        match self.phase {
            Phase::ListParent => {
                match has_one_entry(names, &self.child) {
                    Err(v) => self.phase = Phase::Failed(Failure::Invariant(v)),
                    Ok(false) => self.phase = Phase::Failed(Failure::ExtraEntries),
                    Ok(true) => {
                        if self.dry_run {
                            self.phase = Phase::DryRun;
                        } else {
                            self.phase = Phase::ListGrandparent;
                        }
                    },
                }
            },
            Phase::ListGrandparent => {
                match get_unique_temporary_name(names, &self.parent) {
                    Err(_) => self.phase = Phase::Failed(Failure::NoBaseName),
                    Ok(t) => {
                        self.temp = t;
                        self.phase = Phase::MoveChildToTemp;
                    },
                }
            },
            _ => {},
        }
    }

    /// Takes whether the phase's work succeeded.
    pub fn on_outcome(&mut self, ok: bool)
        ensures
            final(self)@ == after_outcome(old(self)@, ok),
    {
        match self.phase {
            Phase::ListParent => {
                if !ok {
                    self.phase = Phase::Failed(Failure::ParentUnlisted);
                }
            },
            Phase::ListGrandparent => {
                if !ok {
                    self.phase = Phase::Failed(Failure::GrandparentUnlisted);
                }
            },
            Phase::MoveChildToTemp => {
                self.phase = if ok {
                    Phase::RemoveParent
                } else {
                    Phase::Failed(Failure::MoveToTemp)
                };
            },
            Phase::RemoveParent => {
                self.phase = if ok {
                    Phase::MoveTempToParent
                } else {
                    Phase::Failed(Failure::RemoveParent)
                };
            },
            Phase::MoveTempToParent => {
                self.phase = if ok {
                    Phase::Promoted
                } else {
                    Phase::Failed(Failure::MoveToParent)
                };
            },
            _ => {},
        }
    }
}

} // verus!
