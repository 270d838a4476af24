use rsix::conv::{hi_lo, ret, ret_libc};
use rsix::fd::{file_read_write, is_read_write, O_PATH, O_RDONLY, O_RDWR, O_WRONLY};
use rsix::path::{Arg, DecInt};
use rsix::Errno;

#[test]
fn kernel_return_values() {
    assert_eq!(ret(0), Ok(0));
    assert_eq!(ret(42), Ok(42));
    assert_eq!(ret(-22), Err(Errno::Inval));
    assert_eq!(ret(-13), Err(Errno::Other(13)));
    assert_eq!(ret(-4095), Err(Errno::Other(4095)));
    assert_eq!(ret(-4096), Ok((-4096i64) as u64));
    assert_eq!(ret_libc(-1, 38), Err(Errno::NoSys));
    assert_eq!(ret_libc(7, 0), Ok(7));
}

#[test]
fn register_halves() {
    assert_eq!(hi_lo(0x1234_5678_9abc_def0), (0x1234_5678, 0x9abc_def0));
    assert_eq!(hi_lo(5), (0, 5));
}

#[test]
fn access_modes() {
    assert_eq!(file_read_write(O_RDONLY), (true, false));
    assert_eq!(file_read_write(O_WRONLY), (false, true));
    assert_eq!(file_read_write(O_RDWR | 0o4000), (true, true));
    assert_eq!(file_read_write(O_PATH | O_RDWR), (false, false));
}

#[test]
fn read_write_probes() {
    let never = || -> rsix::Result<usize> { panic!("this probe must not run") };
    assert_eq!(is_read_write(true, true, || Ok(1), || Ok(0)), Ok((true, true)));
    assert_eq!(is_read_write(true, true, || Ok(0), || Err(Errno::Pipe)), Ok((false, false)));
    assert_eq!(is_read_write(true, true, || Err(Errno::Again), || Err(Errno::Again)), Ok((true, true)));
    assert_eq!(is_read_write(true, true, || Err(Errno::NotSock), never), Ok((true, true)));
    assert_eq!(is_read_write(true, false, || Ok(3), never), Ok((true, false)));
    assert_eq!(is_read_write(false, true, never, || Err(Errno::Pipe)), Ok((false, false)));
    assert_eq!(is_read_write(false, false, never, never), Ok((false, false)));
    assert_eq!(is_read_write(true, true, || Err(Errno::Other(9)), never), Err(Errno::Other(9)));
    assert_eq!(is_read_write(true, true, || Ok(1), || Err(Errno::Other(5))), Err(Errno::Other(5)));
}

#[test]
fn decimal_paths() {
    assert_eq!(DecInt::new(0).as_bytes(), b"0");
    assert_eq!(DecInt::new(4242).as_bytes(), b"4242");
    assert_eq!(DecInt::new(-17).as_bytes(), b"-17");
    assert_eq!(DecInt::new(i64::MIN).as_bytes(), b"-9223372036854775808");
    assert_eq!(DecInt::new(i64::MAX).as_bytes(), b"9223372036854775807");
    assert_eq!(DecInt::new(1234).into_with_c_str(|c| Ok(c.to_vec())), Ok(b"1234\0".to_vec()));
    assert_eq!(DecInt::new(99).as_str(), Ok("99"));
}
