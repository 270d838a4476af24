use rsix::fs::{accessat_plan, readlink_step, seek_args, ReadlinkStep, SeekFrom, AT_EACCESS};
use rsix::process::nice;
use rsix::time::{
    fallback_request, fallback_requests, from_old_timespec, nanosleep_result, to_old_timespec, to_old_timespecs,
    ClockId, NanosleepRelativeResult, OldTimespec, Timespec,
};
use rsix::Errno;

#[test]
fn narrowing_times() {
    let t = Timespec { tv_sec: 5, tv_nsec: 6 };
    assert_eq!(to_old_timespec(&t), Ok(OldTimespec { tv_sec: 5, tv_nsec: 6 }));
    assert_eq!(from_old_timespec(&OldTimespec { tv_sec: -7, tv_nsec: 8 }), Timespec { tv_sec: -7, tv_nsec: 8 });
    let big = Timespec { tv_sec: i32::MAX as i64 + 1, tv_nsec: 0 };
    assert_eq!(to_old_timespec(&big), Err(Errno::Inval));
    let low = Timespec { tv_sec: i32::MIN as i64, tv_nsec: 0 };
    assert_eq!(to_old_timespec(&low), Ok(OldTimespec { tv_sec: i32::MIN, tv_nsec: 0 }));
    assert_eq!(to_old_timespecs(&[t, big]), Err(Errno::Inval));
    assert_eq!(
        to_old_timespecs(&[t, t]),
        Ok([OldTimespec { tv_sec: 5, tv_nsec: 6 }, OldTimespec { tv_sec: 5, tv_nsec: 6 }])
    );
}

#[test]
fn fallback_only_after_nosys() {
    let t = Timespec { tv_sec: 1, tv_nsec: 2 };
    assert_eq!(fallback_request(Ok(()), &t), None);
    assert_eq!(fallback_request(Err(Errno::Intr), &t), None);
    assert_eq!(fallback_request(Err(Errno::NoSys), &t), Some(Ok(OldTimespec { tv_sec: 1, tv_nsec: 2 })));
    let far = Timespec { tv_sec: 1 << 40, tv_nsec: 0 };
    assert_eq!(fallback_request(Err(Errno::NoSys), &far), Some(Err(Errno::Inval)));
}

#[test]
fn sleep_outcomes() {
    let rem = Timespec { tv_sec: 0, tv_nsec: 500 };
    assert_eq!(nanosleep_result(Ok(()), rem), NanosleepRelativeResult::Done);
    assert_eq!(nanosleep_result(Err(Errno::Intr), rem), NanosleepRelativeResult::Interrupted(rem));
    assert_eq!(nanosleep_result(Err(Errno::Inval), rem), NanosleepRelativeResult::Failed(Errno::Inval));
}

#[test]
fn clock_codes() {
    assert_eq!(ClockId::Realtime.as_raw(), 0);
    assert_eq!(ClockId::Monotonic.as_raw(), 1);
}

#[test]
fn readlink_growth() {
    assert_eq!(readlink_step(256, 10), ReadlinkStep::Done(10));
    assert_eq!(readlink_step(256, 0), ReadlinkStep::Done(0));
    assert_eq!(readlink_step(256, 256), ReadlinkStep::Grow(512));
}

#[test]
fn accessat_flags() {
    assert_eq!(accessat_plan(0, false), Ok(()));
    assert_eq!(accessat_plan(AT_EACCESS, true), Ok(()));
    assert_eq!(accessat_plan(AT_EACCESS, false), Err(Errno::NoSys));
    assert_eq!(accessat_plan(0x100, true), Err(Errno::Inval));
}

#[test]
fn seek_positions() {
    assert_eq!(seek_args(SeekFrom::Start(10)), (0, 10));
    assert_eq!(seek_args(SeekFrom::Start(u64::MAX)), (0, -1));
    assert_eq!(seek_args(SeekFrom::End(-3)), (2, -3));
    assert_eq!(seek_args(SeekFrom::Current(4)), (1, 4));
}

#[test]
fn nice_clamps() {
    assert_eq!(nice(5, || Ok(0)), Ok(5));
    assert_eq!(nice(-30, || Ok(0)), Ok(-20));
    assert_eq!(nice(30, || Ok(-5)), Ok(19));
    assert_eq!(nice(39, || Ok(-20)), Ok(19));
    assert_eq!(nice(100, || -> rsix::Result<i32> { panic!("not asked") }), Ok(19));
    assert_eq!(nice(-100, || -> rsix::Result<i32> { panic!("not asked") }), Ok(-20));
    assert_eq!(nice(1, || Err(Errno::Other(13))), Err(Errno::Other(13)));
}

#[test]
fn errno_codes() {
    assert_eq!(Errno::from_raw_os_error(22), Errno::Inval);
    assert_eq!(Errno::from_raw_os_error(13), Errno::Other(13));
    assert_eq!(Errno::NotSup.raw_os_error(), 95);
    assert_eq!(Errno::Other(13).raw_os_error(), 13);
}

#[test]
fn utimensat_fallback_pair() {
    let t = Timespec { tv_sec: 3, tv_nsec: 4 };
    let far = Timespec { tv_sec: -(1 << 40), tv_nsec: 0 };
    assert_eq!(fallback_requests(Ok(()), &[t, far]), None);
    assert_eq!(fallback_requests(Err(Errno::NoSys), &[t, far]), Some(Err(Errno::Inval)));
    assert_eq!(
        fallback_requests(Err(Errno::NoSys), &[t, t]),
        Some(Ok([OldTimespec { tv_sec: 3, tv_nsec: 4 }, OldTimespec { tv_sec: 3, tv_nsec: 4 }]))
    );
}
