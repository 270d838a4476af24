//! Queries on file descriptors that combine several calls.
use vstd::prelude::*;

use crate::io::{Errno, Result};

verus! {

/// What a one-byte `recv` with `MSG_PEEK | MSG_DONTWAIT` tells of the read
/// side: `(still readable, not a socket)`. Zero bytes mean the read side is
/// shut down; `EAGAIN` that it is open with nothing to read; `ENOTSOCK` that
/// the descriptor is no socket, which leaves it readable. Any other error is
/// returned.
pub open spec fn peek_outcome(peek: Result<usize>) -> Result<(bool, bool)> {
    match peek {
        Ok(n) => Ok((n != 0, false)),
        Err(Errno::Again) => Ok((true, false)),
        Err(Errno::NotSock) => Ok((true, true)),
        Err(e) => Err(e),
    }
}

/// What a zero-byte `send` with `MSG_DONTWAIT` tells of the write side:
/// `EPIPE` means it is shut down; success, `EAGAIN` and `ENOTSOCK` leave it
/// writable. Any other error is returned.
pub open spec fn send_outcome(send: Result<usize>) -> Result<bool> {
    match send {
        Ok(_) => Ok(true),
        Err(Errno::Again) => Ok(true),
        Err(Errno::NotSock) => Ok(true),
        Err(Errno::Pipe) => Ok(false),
        Err(e) => Err(e),
    }
}

/// The outcome of `is_read_write` for a descriptor opened for `read` and
/// `write`, given what the probe of each side returned. The read side is
/// probed only where it was opened for reading; the write side only where it
/// was opened for writing and is not known to be no socket.
pub open spec fn rw_outcome(read: bool, write: bool, peek: Result<usize>, send: Result<usize>) -> Result<
    (bool, bool),
> {
    let after_read: Result<(bool, bool)> = if read {
        peek_outcome(peek)
    } else {
        Ok((false, false))
    };
    match after_read {
        Err(e) => Err(e),
        Ok((rd, not_socket)) => if write && !not_socket {
            match send_outcome(send) {
                Err(e) => Err(e),
                Ok(wr) => Ok((rd, wr)),
            }
        } else {
            Ok((rd, write))
        },
    }
}

/// Whether the send probe runs: where the descriptor was opened for
/// writing, and the read probe, if it ran, neither failed nor found that the
/// descriptor is no socket.
pub open spec fn send_needed(read: bool, write: bool, peek: Result<usize>) -> bool {
    write && (read ==> (peek_outcome(peek) matches Ok((_, not_socket)) && !not_socket))
}

/// Whether the probes, where they ran, may have returned `pr` and `sr`.
pub open spec fn probes_gave<P: FnOnce() -> Result<usize>, S: FnOnce() -> Result<usize>>(
    read: bool,
    write: bool,
    peek: P,
    send: S,
    pr: Result<usize>,
    sr: Result<usize>,
) -> bool {
    &&& read ==> peek.ensures((), pr)
    &&& send_needed(read, write, pr) ==> send.ensures((), sr)
}

/// Whether the descriptor, opened for `read` and `write` (as `fcntl` tells),
/// can still be read from and written to: for a socket, whether either side
/// was shut down. `peek` does the one-byte `recv` and `send` the zero-byte
/// `send` that `rw_outcome` describes; each runs only where it is needed.
pub fn is_read_write<P: FnOnce() -> Result<usize>, S: FnOnce() -> Result<usize>>(
    read: bool,
    write: bool,
    peek: P,
    send: S,
) -> (r: Result<(bool, bool)>)
    requires
        peek.requires(()),
        send.requires(()),
    ensures
        exists|pr: Result<usize>, sr: Result<usize>|
            #[trigger] probes_gave(read, write, peek, send, pr, sr) && r == rw_outcome(
                read,
                write,
                pr,
                sr,
            ),
{
    let ghost mut pr: Result<usize> = Ok(1);
    let ghost mut sr: Result<usize> = Ok(0);
    let mut readable = read;
    let mut writable = write;
    let mut not_socket = false;
    if read {
        let res = peek();
        proof {
            pr = res;
        }
        match res {
            Ok(0) => readable = false,
            Ok(_) => {},
            Err(Errno::Again) => {},
            Err(Errno::NotSock) => not_socket = true,
            Err(e) => {
                assert(probes_gave(read, write, peek, send, pr, sr));
                return Err(e);
            },
        }
    }
    if write && !not_socket {
        let res = send();
        proof {
            sr = res;
        }
        match res {
            Ok(_) => {},
            Err(Errno::Again) => {},
            Err(Errno::NotSock) => {},
            Err(Errno::Pipe) => writable = false,
            Err(e) => {
                assert(probes_gave(read, write, peek, send, pr, sr));
                return Err(e);
            },
        }
    }
    assert(probes_gave(read, write, peek, send, pr, sr));
    Ok((readable, writable))
}

/// `O_ACCMODE`: the bits of the file status flags that give the access mode.
pub const O_ACCMODE: u32 = 0o3;

/// `O_RDONLY`.
pub const O_RDONLY: u32 = 0o0;

/// `O_WRONLY`.
pub const O_WRONLY: u32 = 0o1;

/// `O_RDWR`.
pub const O_RDWR: u32 = 0o2;

/// `O_PATH`: a handle that names a file without opening it for I/O.
pub const O_PATH: u32 = 0o10000000;

/// Whether a descriptor with the file status flags `flags` (as `F_GETFL`
/// reports them) was opened for reading and for writing: neither for an
/// `O_PATH` handle, and otherwise as its access mode says.
pub fn file_read_write(flags: u32) -> (r: (bool, bool))
    requires
        flags & O_PATH == 0 ==> flags & O_ACCMODE != 3,
    ensures
        flags & O_PATH != 0 ==> r == (false, false),
        flags & O_PATH == 0 && flags & O_ACCMODE == O_RDONLY ==> r == (true, false),
        flags & O_PATH == 0 && flags & O_ACCMODE == O_WRONLY ==> r == (false, true),
        flags & O_PATH == 0 && flags & O_ACCMODE == O_RDWR ==> r == (true, true),
{
    if flags & O_PATH != 0 {
        return (false, false);
    }
    let mode = flags & O_ACCMODE;
    if mode == O_RDONLY {
        (true, false)
    } else if mode == O_WRONLY {
        (false, true)
    } else {
        (true, true)
    }
}

} // verus!
