//! Monitor census: how many displays are attached.
//!
//! The platform layer enumerates displays where the operating system offers
//! an enumeration primitive; where it does not, the census falls back to a
//! fixed single-monitor sentinel. The census is observability only: no
//! enforcement action is taken on it here.

use vstd::prelude::*;

verus! {

/// Display count reported where the platform cannot enumerate displays.
pub const SINGLE_MONITOR_SENTINEL: i32 = 1;

/// The count the census reports: the enumerated count where the platform
/// supplied one, otherwise the single-monitor sentinel.
pub open spec fn spec_census(enumerated: Option<i32>) -> int {
    match enumerated {
        Some(n) => n as int,
        None => SINGLE_MONITOR_SENTINEL as int,
    }
}

/// Monitor census. `enumerated` carries the display count handed back by the
/// platform's enumeration, or `None` on a platform without one.
pub fn census(enumerated: Option<i32>) -> (count: i32)
    ensures
        count as int == spec_census(enumerated),
{
    match enumerated {
        Some(n) => n,
        None => SINGLE_MONITOR_SENTINEL,
    }
}

/// Whether more than one display is attached, given the census count.
pub fn multiple_monitors(count: i32) -> (r: bool)
    ensures
        r == (count > 1),
{
    count > 1
}

} // verus!
