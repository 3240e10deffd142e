//! The monotonic claim: a proposed value is granted iff it strictly exceeds the
//! value that was granted last on the same dimension. A dimension on which
//! nothing was granted yet grants its first claim.

use vstd::prelude::*;

verus! {

/// The level at which a dimension starts that counts from zero: zero is the
/// lowest value that exceeds it.
pub const NO_GRANT: i64 = -1;

/// Whether `proposed` may be granted on a dimension whose last granted value
/// is `last_granted`.
pub open spec fn exceeds(last_granted: int, proposed: int) -> bool {
    proposed > last_granted
}

/// The level of a dimension after `proposed` was put to it at level
/// `last_granted`: the proposed value if it was granted, the old level if not.
pub open spec fn level_after(last_granted: int, proposed: int) -> int {
    if exceeds(last_granted, proposed) {
        proposed
    } else {
        last_granted
    }
}

/// Whether `proposed` may be granted on a dimension that keeps "nothing
/// granted yet" apart from every value: the first claim is granted whatever
/// it proposes, every later one iff it exceeds the last granted value.
pub open spec fn first_or_exceeds(last_granted: Option<int>, proposed: int) -> bool {
    match last_granted {
        Some(last) => exceeds(last, proposed),
        None => true,
    }
}

/// The last granted value of such a dimension after `proposed` was put to it.
pub open spec fn granted_after(last_granted: Option<int>, proposed: int) -> Option<int> {
    if first_or_exceeds(last_granted, proposed) {
        Some(proposed)
    } else {
        last_granted
    }
}

/// The pure decision of a claim. On `true` the caller commits
/// `current := proposed` in the same atomic step.
pub fn try_grant(current: i64, proposed: i64) -> (granted: bool)
    ensures
        granted == exceeds(current as int, proposed as int),
{
    proposed > current
}

/// The pure decision of a claim on a dimension that keeps "nothing granted
/// yet" apart from every value. On `true` the caller commits
/// `current := Some(proposed)` in the same atomic step.
pub fn try_first_grant(current: Option<i64>, proposed: i64) -> (granted: bool)
    ensures
        granted == match current {
            Some(last) => exceeds(last as int, proposed as int),
            None => true,
        },
{
    match current {
        Some(last) => proposed > last,
        None => true,
    }
}

} // verus!
