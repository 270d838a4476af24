//! The error type that every fallible call of this library returns.
use vstd::prelude::*;

verus! {

/// A kernel error code (`errno`).
///
/// The codes that the library itself produces, or decides on, are variants of
/// their own; any other code the kernel reports is carried in `Other`.
#[derive(Clone, Copy, Debug, PartialEq, Eq, Structural)]
pub enum Errno {
    /// `EINTR`: interrupted by a signal.
    Intr,
    /// `EAGAIN`: the operation would block.
    Again,
    /// `EBUSY`: the resource is busy.
    Busy,
    /// `EXDEV`: the operation would cross a mount point.
    Xdev,
    /// `EINVAL`: an invalid argument.
    Inval,
    /// `ENAMETOOLONG`: a name is longer than the kernel accepts.
    NameTooLong,
    /// `ENOSYS`: the call is not implemented by this kernel.
    NoSys,
    /// `EOPNOTSUPP`: the operation or environment is not supported.
    NotSup,
    /// `EAFNOSUPPORT`: the address family is not supported.
    AfNoSupport,
    /// `EPIPE`: the other end of a pipe or socket is shut down.
    Pipe,
    /// `ENOTSOCK`: the descriptor is not a socket.
    NotSock,
    /// Any other code.
    Other(u16),
}

/// The result of a fallible call.
pub type Result<T> = core::result::Result<T, Errno>;

/// The Linux code of each named error.
pub open spec fn named_code(e: Errno) -> u16 {
    match e {
        Errno::Intr => 4,
        Errno::Again => 11,
        Errno::Busy => 16,
        Errno::Xdev => 18,
        Errno::Inval => 22,
        Errno::NameTooLong => 36,
        Errno::NoSys => 38,
        Errno::NotSup => 95,
        Errno::AfNoSupport => 97,
        Errno::Pipe => 32,
        Errno::NotSock => 88,
        Errno::Other(c) => c,
    }
}

/// Whether `c` is the code of one of the named variants.
pub open spec fn is_named_code(c: u16) -> bool {
    c == 4 || c == 11 || c == 16 || c == 18 || c == 22 || c == 36 || c == 38 || c == 95 || c == 97 || c == 32 || c == 88
}

impl Errno {
    /// Each code has one form: `Other` never holds a named code, nor zero.
    pub open spec fn wf(&self) -> bool {
        match self {
            Errno::Other(c) => *c != 0 && !is_named_code(*c),
            _ => true,
        }
    }

    /// The numeric code of this error.
    pub open spec fn raw_code(&self) -> u16 {
        named_code(*self)
    }

    /// The error with the given positive code, as the kernel reported it.
    pub fn from_raw_os_error(raw: u16) -> (r: Errno)
        requires
            raw > 0,
        ensures
            r.wf(),
            r.raw_code() == raw,
    {
        match raw {
            4 => Errno::Intr,
            11 => Errno::Again,
            16 => Errno::Busy,
            18 => Errno::Xdev,
            22 => Errno::Inval,
            36 => Errno::NameTooLong,
            38 => Errno::NoSys,
            95 => Errno::NotSup,
            97 => Errno::AfNoSupport,
            32 => Errno::Pipe,
            88 => Errno::NotSock,
            _ => Errno::Other(raw),
        }
    }

    /// The numeric code of this error.
    pub fn raw_os_error(&self) -> (r: u16)
        ensures
            r == self.raw_code(),
    {
        match self {
            Errno::Intr => 4,
            Errno::Again => 11,
            Errno::Busy => 16,
            Errno::Xdev => 18,
            Errno::Inval => 22,
            Errno::NameTooLong => 36,
            Errno::NoSys => 38,
            Errno::NotSup => 95,
            Errno::AfNoSupport => 97,
            Errno::Pipe => 32,
            Errno::NotSock => 88,
            Errno::Other(c) => *c,
        }
    }
}

/// Two well-formed errors are equal exactly when their codes are.
pub proof fn lemma_code_determines_error(a: Errno, b: Errno)
    requires
        a.wf(),
        b.wf(),
    ensures
        a == b <==> a.raw_code() == b.raw_code(),
{
}

} // verus!
