use vstd::prelude::*;

verus! {

/// The listing of a parent directory contradicts how it was found: it was
/// reached through its child, so it must list that child.
#[derive(Debug, Clone, Copy, PartialEq, Eq, Structural)]
pub enum InvariantViolation {
    /// The parent lists no entries at all.
    EmptyParent,
    /// The parent lists one entry, and it is not the child.
    ChildMismatch,
}

/// What the check on a parent's listing decides: `Ok(true)` when the listing
/// is exactly the child, `Ok(false)` when there are other entries besides.
pub open spec fn entry_check(entries: Seq<Seq<char>>, child: Seq<char>) -> Result<
    bool,
    InvariantViolation,
> {
    if entries.len() == 0 {
        Err(InvariantViolation::EmptyParent)
    } else if entries.len() == 1 {
        if entries[0] == child {
            Ok(true)
        } else {
            Err(InvariantViolation::ChildMismatch)
        }
    } else {
        Ok(false)
    }
}

/// Decides, from one listing of the parent directory, whether its only entry
/// is `child`.
pub fn has_one_entry(entries: &Vec<String>, child: &String) -> (r: Result<bool, InvariantViolation>)
    ensures
        r == entry_check(entries.deep_view(), child@),
{
    let n = entries.len();
    if n == 0 {
        Err(InvariantViolation::EmptyParent)
    } else if n == 1 {
        if entries[0] == *child {
            Ok(true)
        } else {
            Err(InvariantViolation::ChildMismatch)
        }
    } else {
        Ok(false)
    }
}

} // verus!
