//! Timestamps and timer values, and the conversions that let 32-bit targets
//! fall back to the older, narrower kernel calls.
use vstd::prelude::*;

use crate::io::{Errno, Result};

verus! {

/// `struct timespec` with 64-bit fields: seconds and nanoseconds.
#[derive(Clone, Copy, Debug, PartialEq, Eq, Structural)]
pub struct Timespec {
    /// Seconds.
    pub tv_sec: i64,
    /// Nanoseconds, in `0..1_000_000_000` for a valid time.
    pub tv_nsec: i64,
}

/// `struct itimerspec`: a timer's interval and its next expiration.
#[derive(Clone, Copy, Debug, PartialEq, Eq, Structural)]
pub struct Itimerspec {
    /// The period of the timer; zero for a one-shot timer.
    pub it_interval: Timespec,
    /// The time until the next expiration; zero for a disarmed timer.
    pub it_value: Timespec,
}

/// `struct timespec` of the older calls on 32-bit targets, whose fields are
/// 32 bits wide.
#[derive(Clone, Copy, Debug, PartialEq, Eq, Structural)]
pub struct OldTimespec {
    /// Seconds.
    pub tv_sec: i32,
    /// Nanoseconds.
    pub tv_nsec: i32,
}

/// Whether `x` fits in 32 bits.
pub open spec fn fits_i32(x: i64) -> bool {
    i32::MIN <= x <= i32::MAX
}

/// Narrows a time for the older calls; `EINVAL` where a field does not fit in
/// 32 bits, rather than wrapping.
pub fn to_old_timespec(ts: &Timespec) -> (r: Result<OldTimespec>)
    ensures
        fits_i32(ts.tv_sec) && fits_i32(ts.tv_nsec) ==> r == Ok::<OldTimespec, Errno>(
            OldTimespec { tv_sec: ts.tv_sec as i32, tv_nsec: ts.tv_nsec as i32 },
        ),
        !(fits_i32(ts.tv_sec) && fits_i32(ts.tv_nsec)) ==> r == Err::<OldTimespec, Errno>(
            Errno::Inval,
        ),
{
    if ts.tv_sec < i32::MIN as i64 || ts.tv_sec > i32::MAX as i64 {
        return Err(Errno::Inval);
    }
    if ts.tv_nsec < i32::MIN as i64 || ts.tv_nsec > i32::MAX as i64 {
        return Err(Errno::Inval);
    }
    Ok(OldTimespec { tv_sec: ts.tv_sec as i32, tv_nsec: ts.tv_nsec as i32 })
}

/// Widens a time that an older call reported.
pub fn from_old_timespec(old: &OldTimespec) -> (r: Timespec)
    ensures
        r.tv_sec == old.tv_sec,
        r.tv_nsec == old.tv_nsec,
{
    Timespec { tv_sec: old.tv_sec as i64, tv_nsec: old.tv_nsec as i64 }
}

/// Narrows both times of a `utimensat` call for the older call; `EINVAL`
/// where a field of either does not fit in 32 bits.
pub fn to_old_timespecs(times: &[Timespec; 2]) -> (r: Result<[OldTimespec; 2]>)
    ensures
        match r {
            Ok(old) => forall|i: int|
                0 <= i < 2 ==> fits_i32(times@[i].tv_sec) && fits_i32(times@[i].tv_nsec)
                    && old@[i].tv_sec == times@[i].tv_sec && old@[i].tv_nsec == times@[i].tv_nsec,
            Err(e) => e == Errno::Inval && exists|i: int|
                0 <= i < 2 && !(fits_i32(times@[i].tv_sec) && fits_i32(times@[i].tv_nsec)),
        },
{
    let a = match to_old_timespec(&times[0]) {
        Ok(a) => a,
        Err(e) => {
            assert(!(fits_i32(times@[0].tv_sec) && fits_i32(times@[0].tv_nsec)));
            return Err(e);
        },
    };
    let b = match to_old_timespec(&times[1]) {
        Ok(b) => b,
        Err(e) => {
            assert(!(fits_i32(times@[1].tv_sec) && fits_i32(times@[1].tv_nsec)));
            return Err(e);
        },
    };
    let r = [a, b];
    assert forall|i: int| 0 <= i < 2 implies fits_i32(times@[i].tv_sec) && fits_i32(
        times@[i].tv_nsec,
    ) && r@[i].tv_sec == times@[i].tv_sec && r@[i].tv_nsec == times@[i].tv_nsec by {
        assert(i == 0 || i == 1);
    }
    Ok(r)
}

/// What the older call is to be given after the first call failed: `None`
/// where the first call's outcome stands (it did not fail with `ENOSYS`), and
/// otherwise the narrowed request, or `EINVAL` where it does not fit.
pub fn fallback_request(first: Result<()>, req: &Timespec) -> (r: Option<Result<OldTimespec>>)
    ensures
        first != Err::<(), Errno>(Errno::NoSys) ==> r.is_none(),
        first == Err::<(), Errno>(Errno::NoSys) ==> (r matches Some(n) && (fits_i32(req.tv_sec)
            && fits_i32(req.tv_nsec) ==> n == Ok::<OldTimespec, Errno>(
            OldTimespec { tv_sec: req.tv_sec as i32, tv_nsec: req.tv_nsec as i32 },
        )) && (!(fits_i32(req.tv_sec) && fits_i32(req.tv_nsec)) ==> n == Err::<
            OldTimespec,
            Errno,
        >(Errno::Inval))),
{
    match first {
        Err(Errno::NoSys) => Some(to_old_timespec(req)),
        _ => None,
    }
}

/// What the older `utimensat` call is to be given after the first call
/// failed: `None` where the first call's outcome stands (it did not fail with
/// `ENOSYS`), and otherwise both times narrowed, or `EINVAL` where either does
/// not fit.
pub fn fallback_requests(first: Result<()>, times: &[Timespec; 2]) -> (r: Option<
    Result<[OldTimespec; 2]>,
>)
    ensures
        first != Err::<(), Errno>(Errno::NoSys) ==> r.is_none(),
        first == Err::<(), Errno>(Errno::NoSys) ==> (r matches Some(n) && match n {
            Ok(old) => forall|i: int|
                0 <= i < 2 ==> fits_i32(times@[i].tv_sec) && fits_i32(times@[i].tv_nsec)
                    && old@[i].tv_sec == times@[i].tv_sec && old@[i].tv_nsec == times@[i].tv_nsec,
            Err(e) => e == Errno::Inval && exists|i: int|
                0 <= i < 2 && !(fits_i32(times@[i].tv_sec) && fits_i32(times@[i].tv_nsec)),
        }),
{
    match first {
        Err(Errno::NoSys) => Some(to_old_timespecs(times)),
        _ => None,
    }
}

/// The outcome of a relative sleep.
#[derive(Clone, Copy, Debug, PartialEq, Eq, Structural)]
pub enum NanosleepRelativeResult {
    /// The sleep completed.
    Done,
    /// A signal interrupted the sleep; this much time was left.
    Interrupted(Timespec),
    /// The sleep failed.
    Failed(Errno),
}

/// The outcome of a relative sleep whose call returned `res`, with the time
/// that the kernel wrote back as left: an interruption by a signal is no
/// error, but a result that carries the time left.
pub fn nanosleep_result(res: Result<()>, rem: Timespec) -> (r: NanosleepRelativeResult)
    ensures
        r == match res {
            Ok(()) => NanosleepRelativeResult::Done,
            Err(Errno::Intr) => NanosleepRelativeResult::Interrupted(rem),
            Err(e) => NanosleepRelativeResult::Failed(e),
        },
{
    match res {
        Ok(()) => NanosleepRelativeResult::Done,
        Err(Errno::Intr) => NanosleepRelativeResult::Interrupted(rem),
        Err(e) => NanosleepRelativeResult::Failed(e),
    }
}

/// A clock.
#[derive(Clone, Copy, Debug, PartialEq, Eq, Structural)]
pub enum ClockId {
    /// `CLOCK_REALTIME`.
    Realtime,
    /// `CLOCK_MONOTONIC`.
    Monotonic,
    /// `CLOCK_PROCESS_CPUTIME_ID`.
    ProcessCPUTime,
    /// `CLOCK_THREAD_CPUTIME_ID`.
    ThreadCPUTime,
}

impl ClockId {
    /// The kernel's code of the clock.
    pub open spec fn spec_raw(&self) -> i32 {
        match self {
            ClockId::Realtime => 0,
            ClockId::Monotonic => 1,
            ClockId::ProcessCPUTime => 2,
            ClockId::ThreadCPUTime => 3,
        }
    }

    /// The kernel's code of the clock.
    pub fn as_raw(&self) -> (r: i32)
        ensures
            r == self.spec_raw(),
    {
        match self {
            ClockId::Realtime => 0,
            ClockId::Monotonic => 1,
            ClockId::ProcessCPUTime => 2,
            ClockId::ThreadCPUTime => 3,
        }
    }
}

} // verus!
