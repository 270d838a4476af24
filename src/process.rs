//! Process scheduling priority.
use vstd::prelude::*;

use crate::io::{Errno, Result};

verus! {

/// The lowest niceness, the highest priority.
pub const NICE_MIN: i32 = -20;

/// The highest niceness, the lowest priority.
pub const NICE_MAX: i32 = 19;

/// `x` clamped to the range of niceness.
pub open spec fn clamp_nice(x: int) -> int {
    if x < NICE_MIN {
        NICE_MIN as int
    } else if x > NICE_MAX {
        NICE_MAX as int
    } else {
        x
    }
}

/// The niceness that adding `inc` to the current niceness gives, clamped to
/// `-20..=19`. The current niceness is asked of `getpriority` only where
/// `inc` could leave it short of either end (`-40 < inc < 40`); an error it
/// returns is returned. The caller then sets the niceness returned.
pub fn nice<F: FnOnce() -> Result<i32>>(inc: i32, getpriority: F) -> (r: Result<i32>)
    requires
        -40 < inc < 40 ==> getpriority.requires(()),
    ensures
        !(-40 < inc < 40) ==> r == Ok::<i32, Errno>(clamp_nice(inc as int) as i32),
        -40 < inc < 40 ==> match r {
            Ok(p) => exists|cur: i32|
                #[trigger] getpriority.ensures((), Ok::<i32, Errno>(cur)) && p == clamp_nice(
                    inc + cur,
                ),
            Err(e) => getpriority.ensures((), Err::<i32, Errno>(e)),
        },
{
    let wanted: i64 = if inc > -40 && inc < 40 {
        match getpriority() {
            Ok(cur) => inc as i64 + cur as i64,
            Err(e) => return Err(e),
        }
    } else {
        inc as i64
    };
    let clamped: i64 = if wanted < NICE_MIN as i64 {
        NICE_MIN as i64
    } else if wanted > NICE_MAX as i64 {
        NICE_MAX as i64
    } else {
        wanted
    };
    Ok(clamped as i32)
}

} // verus!
