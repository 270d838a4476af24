//! The decisions of filesystem calls that do not depend on the kernel: how
//! `readlinkat` grows its buffer, which `accessat` flags can be honoured, and
//! how a seek position is passed.
use vstd::prelude::*;

use crate::io::{Errno, Result};

verus! {

/// The buffer that `readlinkat` starts with.
pub const READLINK_INITIAL_LEN: usize = 256;

/// What to do after `readlinkat` filled part of a buffer.
#[derive(Clone, Copy, Debug, PartialEq, Eq, Structural)]
pub enum ReadlinkStep {
    /// The link's target fit: keep this many bytes.
    Done(usize),
    /// The target may have been cut off: call again with a buffer this long.
    Grow(usize),
}

/// The next step of `readlinkat` after it read `nread` bytes into a buffer of
/// `buf_len`: the target fit where it left room, and otherwise the buffer
/// doubles.
pub fn readlink_step(buf_len: usize, nread: usize) -> (r: ReadlinkStep)
    requires
        nread <= buf_len,
        buf_len <= usize::MAX / 2,
    ensures
        nread < buf_len ==> r == ReadlinkStep::Done(nread),
        nread == buf_len ==> r == ReadlinkStep::Grow((2 * buf_len) as usize),
{
    if nread < buf_len {
        ReadlinkStep::Done(nread)
    } else {
        ReadlinkStep::Grow(buf_len * 2)
    }
}

/// `AT_EACCESS`: check access with the effective ids.
pub const AT_EACCESS: u32 = 0x200;

/// Whether `accessat` can be done with a plain `faccessat`, which takes no
/// flags: where no flag is given, or only `AT_EACCESS` while the real and
/// effective ids agree. Any other flag is `EINVAL`; `AT_EACCESS` with ids that
/// differ is `ENOSYS`, as the call that honours it is not used.
pub fn accessat_plan(flags: u32, ids_agree: bool) -> (r: Result<()>)
    ensures
        flags == 0 || (flags == AT_EACCESS && ids_agree) ==> r == Ok::<(), Errno>(()),
        flags != 0 && flags != AT_EACCESS ==> r == Err::<(), Errno>(Errno::Inval),
        flags == AT_EACCESS && !ids_agree ==> r == Err::<(), Errno>(Errno::NoSys),
{
    if flags == 0 || (flags == AT_EACCESS && ids_agree) {
        return Ok(());
    }
    if flags != AT_EACCESS {
        return Err(Errno::Inval);
    }
    Err(Errno::NoSys)
}

/// `SEEK_SET`.
pub const SEEK_SET: u32 = 0;

/// `SEEK_CUR`.
pub const SEEK_CUR: u32 = 1;

/// `SEEK_END`.
pub const SEEK_END: u32 = 2;

/// A position to seek to.
#[derive(Clone, Copy, Debug, PartialEq, Eq, Structural)]
pub enum SeekFrom {
    /// From the start of the file.
    Start(u64),
    /// From the end of the file.
    End(i64),
    /// From the current position.
    Current(i64),
}

/// The `whence` and the offset that `lseek` is given for `pos`. An offset
/// from the start is passed as its 64 bits, unchanged, so that one too large
/// for `i64` arrives negative and the kernel refuses it with `EINVAL`.
pub fn seek_args(pos: SeekFrom) -> (r: (u32, i64))
    ensures
        match pos {
            SeekFrom::Start(p) => r.0 == SEEK_SET && r.1 == p as i64,
            SeekFrom::End(o) => r.0 == SEEK_END && r.1 == o,
            SeekFrom::Current(o) => r.0 == SEEK_CUR && r.1 == o,
        },
{
    match pos {
        SeekFrom::Start(p) => (SEEK_SET, p as i64),
        SeekFrom::End(o) => (SEEK_END, o),
        SeekFrom::Current(o) => (SEEK_CUR, o),
    }
}

} // verus!
