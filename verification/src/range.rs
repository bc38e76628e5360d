//! The shared numeric core: the two legal domains and overflow-safe,
//! range-checked shifting of a value by a delta. Every coordinate width
//! funnels through these helpers after widening to `i128`.

use vstd::prelude::*;

verus! {

/// The closed legal domain of a latitude value.
pub open spec fn in_lat_range(v: int) -> bool {
    -90 <= v && v <= 90
}

/// The closed legal domain of a longitude value.
pub open spec fn in_lng_range(v: int) -> bool {
    -180 <= v && v <= 180
}

/// Does `v` lie in the closed interval [-max, max]?
pub(crate) fn in_bounds(v: i128, max: i128) -> (r: bool)
    requires
        0 < max <= 180,
    ensures
        r == (-max <= v && v <= max),
{
    -max <= v && v <= max
}

/// Mathematical sum `a + b`, kept only when it lies in [-max, max].
/// The computation never overflows silently: a sum that cannot be
/// represented is necessarily far outside the (tiny) domain.
pub(crate) fn checked_shift_add(a: i128, b: i128, max: i128) -> (r: Option<i128>)
    requires
        0 < max <= 180,
    ensures
        r matches Some(s) ==> s == a + b && -max <= a + b <= max,
        r is None ==> !(-max <= a + b <= max),
{
    match a.checked_add(b) {
        Some(s) => {
            if -max <= s && s <= max {
                Some(s)
            } else {
                None
            }
        },
        None => None,
    }
}

/// Mathematical difference `a - b`, kept only when it lies in [-max, max].
pub(crate) fn checked_shift_sub(a: i128, b: i128, max: i128) -> (r: Option<i128>)
    requires
        0 < max <= 180,
    ensures
        r matches Some(s) ==> s == a - b && -max <= a - b <= max,
        r is None ==> !(-max <= a - b <= max),
{
    match a.checked_sub(b) {
        Some(s) => {
            if -max <= s && s <= max {
                Some(s)
            } else {
                None
            }
        },
        None => None,
    }
}

} // verus!
