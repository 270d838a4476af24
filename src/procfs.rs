//! The checks that decide whether a directory handle opened under `/proc`
//! can be trusted: that it is on `procfs`, that nothing is mounted on top of
//! it, and that its ownership, permissions and links look as they should.
//!
//! The checks read values that the kernel reported (`fstat`, `fstatfs`, and
//! whether a `renameat` crossed a mount point) and decide; every failure is
//! `EOPNOTSUPP`, whatever its cause, so as to tell an attacker nothing.
use vstd::prelude::*;

use crate::io::{Errno, Result};

verus! {

/// Linux's procfs always uses inode 1 for its root directory.
pub const PROC_ROOT_INO: u64 = 1;

/// The `f_type` that `fstatfs` reports for procfs.
pub const PROC_SUPER_MAGIC: u64 = 0x9fa0;

/// The bits of `st_mode` that give the file type.
pub const S_IFMT: u32 = 0o170000;

/// The file type of a directory.
pub const S_IFDIR: u32 = 0o040000;

/// The permissions that `/proc` and `/proc/self` may have at most.
pub const PROC_DIR_MODE: u32 = 0o555;

/// The permissions that `/proc/self/fd` may have at most.
pub const PROC_FD_DIR_MODE: u32 = 0o500;

/// The fields of `struct stat` that the checks read.
#[derive(Clone, Copy, Debug, PartialEq, Eq, Structural)]
pub struct Stat {
    /// The device of the filesystem that holds the file.
    pub st_dev: u64,
    /// The inode number.
    pub st_ino: u64,
    /// The file type and permissions.
    pub st_mode: u32,
    /// The number of hard links.
    pub st_nlink: u64,
    /// The owner's user id.
    pub st_uid: u32,
    /// The owner's group id.
    pub st_gid: u32,
}

/// Which entry of `/proc` is checked, which decides what to look for.
#[derive(Clone, Copy, Debug, PartialEq, Eq, Structural)]
pub enum Kind {
    /// `/proc` itself.
    Proc,
    /// `/proc/<pid>`.
    Pid,
    /// `/proc/<pid>/fd`.
    Fd,
}

/// Whether `stat` describes a directory.
pub open spec fn is_dir(stat: Stat) -> bool {
    stat.st_mode & S_IFMT == S_IFDIR
}

/// The major number of the device `dev`, as glibc's `gnu_dev_major` lays it
/// out.
pub open spec fn spec_major(dev: u64) -> u64 {
    ((dev >> 32u64) & 0xffff_f000u64) | ((dev >> 8u64) & 0x0000_0fffu64)
}

/// The major number of the device `dev`.
pub fn major(dev: u64) -> (r: u32)
    ensures
        r == spec_major(dev),
{
    let m = ((dev >> 32) & 0xffff_f000) | ((dev >> 8) & 0x0000_0fff);
    assert(m <= 0xffff_ffffu64) by (bit_vector)
        requires
            m == ((dev >> 32u64) & 0xffff_f000u64) | ((dev >> 8u64) & 0x0000_0fffu64),
    ;
    m as u32
}

/// Whether `f_type` is the magic number of procfs.
pub open spec fn spec_procfs_ok(f_type: u64) -> bool {
    f_type == PROC_SUPER_MAGIC
}

/// `EOPNOTSUPP` unless the filesystem type that `fstatfs` reported is procfs.
pub fn check_procfs(f_type: u64) -> (r: Result<()>)
    ensures
        r == if spec_procfs_ok(f_type) {
            Ok::<(), Errno>(())
        } else {
            Err::<(), Errno>(Errno::NotSup)
        },
{
    if f_type != PROC_SUPER_MAGIC {
        return Err(Errno::NotSup);
    }
    Ok(())
}

/// Whether `/proc` looks like the root of a procfs mount: the root inode, on
/// a device with no major number, and a mount point.
pub open spec fn spec_proc_root_ok(stat: Stat, is_mountpoint: bool) -> bool {
    &&& stat.st_ino == PROC_ROOT_INO
    &&& spec_major(stat.st_dev) == 0
    &&& is_mountpoint
}

/// `EOPNOTSUPP` unless `/proc`, with the given status and mount-point test,
/// looks like the root of a procfs mount.
pub fn check_proc_root(stat: &Stat, is_mountpoint: bool) -> (r: Result<()>)
    requires
        is_dir(*stat),
    ensures
        r == if spec_proc_root_ok(*stat, is_mountpoint) {
            Ok::<(), Errno>(())
        } else {
            Err::<(), Errno>(Errno::NotSup)
        },
{
    // Check the root inode number.
    if stat.st_ino != PROC_ROOT_INO {
        return Err(Errno::NotSup);
    }
    // Proc is a non-device filesystem, so check for major number 0.
    if major(stat.st_dev) != 0 {
        return Err(Errno::NotSup);
    }
    // Check that "/proc" is a mountpoint.
    if !is_mountpoint {
        return Err(Errno::NotSup);
    }
    Ok(())
}

/// Whether a subdirectory of `/proc` is neither linked back to the root nor
/// on another device than `/proc`.
pub open spec fn spec_proc_nonroot_ok(stat: Stat, proc_stat: Stat) -> bool {
    stat.st_ino != PROC_ROOT_INO && stat.st_dev == proc_stat.st_dev
}

/// `EOPNOTSUPP` where a subdirectory of `/proc` is linked back to its root,
/// or lies on another device than `/proc` itself.
pub fn check_proc_nonroot(stat: &Stat, proc_stat: Option<&Stat>) -> (r: Result<()>)
    requires
        proc_stat.is_some(),
    ensures
        r == if spec_proc_nonroot_ok(*stat, *proc_stat.unwrap()) {
            Ok::<(), Errno>(())
        } else {
            Err::<(), Errno>(Errno::NotSup)
        },
{
    // Check that we haven't been linked back to the root of "/proc".
    if stat.st_ino == PROC_ROOT_INO {
        return Err(Errno::NotSup);
    }
    // Check that we're still in procfs.
    let proc_stat = proc_stat.unwrap();
    if stat.st_dev != proc_stat.st_dev {
        return Err(Errno::NotSup);
    }
    Ok(())
}

/// Whether a subdirectory of `/proc` looks normal: as `check_proc_nonroot`
/// asks, and not a mount point.
pub open spec fn spec_proc_subdir_ok(stat: Stat, proc_stat: Stat, is_mountpoint: bool) -> bool {
    spec_proc_nonroot_ok(stat, proc_stat) && !is_mountpoint
}

/// `EOPNOTSUPP` unless a subdirectory of `/proc`, with the given status and
/// mount-point test, looks normal.
pub fn check_proc_subdir(stat: &Stat, proc_stat: Option<&Stat>, is_mountpoint: bool) -> (r: Result<
    (),
>)
    requires
        is_dir(*stat),
        proc_stat.is_some(),
    ensures
        r == if spec_proc_subdir_ok(*stat, *proc_stat.unwrap(), is_mountpoint) {
            Ok::<(), Errno>(())
        } else {
            Err::<(), Errno>(Errno::NotSup)
        },
{
    check_proc_nonroot(stat, proc_stat)?;
    // Check that subdirectories of "/proc" are not mount points.
    if is_mountpoint {
        return Err(Errno::NotSup);
    }
    Ok(())
}

/// The permissions that an entry of the given kind may have at most.
pub open spec fn spec_expected_mode(kind: Kind) -> u32 {
    match kind {
        Kind::Fd => PROC_FD_DIR_MODE,
        _ => PROC_DIR_MODE,
    }
}

/// Whether the entry's own status looks as it should: owned by `uid` and
/// `gid`, with no permission beyond the expected ones, and with the expected
/// links (exactly two for `/proc/<pid>/fd`, which must have no
/// subdirectories; more than two for the others, which must not be empty).
pub open spec fn spec_entry_shape_ok(kind: Kind, stat: Stat, uid: u32, gid: u32) -> bool {
    &&& stat.st_uid == uid
    &&& stat.st_gid == gid
    &&& stat.st_mode & 0o777u32 & !spec_expected_mode(kind) == 0
    &&& match kind {
        Kind::Fd => stat.st_nlink == 2,
        _ => stat.st_nlink > 2,
    }
}

/// Whether an entry of `/proc` passes every check, given what `fstat` and
/// `fstatfs` reported of it, whether it is a mount point, and the status of
/// `/proc` itself.
pub open spec fn spec_proc_entry_ok(
    kind: Kind,
    stat: Stat,
    f_type: u64,
    is_mountpoint: bool,
    proc_stat: Option<Stat>,
    uid: u32,
    gid: u32,
) -> bool {
    &&& spec_procfs_ok(f_type)
    &&& match kind {
        Kind::Proc => spec_proc_root_ok(stat, is_mountpoint),
        _ => spec_proc_subdir_ok(stat, proc_stat.unwrap(), is_mountpoint),
    }
    &&& spec_entry_shape_ok(kind, stat, uid, gid)
}

/// Checks an entry of `/proc` for anomalies, given its status `entry_stat`,
/// the filesystem type `f_type` that `fstatfs` reported of it, whether it is a
/// mount point, the status of `/proc` itself (for `/proc/<pid>` and
/// `/proc/<pid>/fd`), and the owner it should have. Returns the status where
/// every check passes, and `EOPNOTSUPP` otherwise.
///
/// The entries are opened as directories, so a handle on procfs that is not
/// one breaks the kernel's contract; that is left out by `requires`.
pub fn check_proc_entry_with_stat(
    kind: Kind,
    entry_stat: Stat,
    f_type: u64,
    is_mountpoint: bool,
    proc_stat: Option<&Stat>,
    uid: u32,
    gid: u32,
) -> (r: Result<Stat>)
    requires
        spec_procfs_ok(f_type) ==> is_dir(entry_stat),
        spec_procfs_ok(f_type) && kind != Kind::Proc ==> proc_stat.is_some(),
    ensures
        r == if spec_proc_entry_ok(
            kind,
            entry_stat,
            f_type,
            is_mountpoint,
            match proc_stat {
                Some(p) => Some(*p),
                None => None,
            },
            uid,
            gid,
        ) {
            Ok::<Stat, Errno>(entry_stat)
        } else {
            Err::<Stat, Errno>(Errno::NotSup)
        },
{
    // Check the filesystem magic.
    check_procfs(f_type)?;

    match kind {
        Kind::Proc => check_proc_root(&entry_stat, is_mountpoint)?,
        _ => check_proc_subdir(&entry_stat, proc_stat, is_mountpoint)?,
    }

    // Check the ownership of the directory.
    if entry_stat.st_uid != uid || entry_stat.st_gid != gid {
        return Err(Errno::NotSup);
    }

    // "/proc" directories are typically mounted r-xr-xr-x.
    // "/proc/self/fd" is r-x------. Allow them to have fewer permissions, but
    // not more.
    let expected_mode: u32 = match kind {
        Kind::Fd => PROC_FD_DIR_MODE,
        _ => PROC_DIR_MODE,
    };
    if entry_stat.st_mode & 0o777 & !expected_mode != 0 {
        return Err(Errno::NotSup);
    }

    match kind {
        Kind::Fd => {
            // Check that the "/proc/self/fd" directory doesn't have any
            // extraneous links into it (which might include unexpected
            // subdirectories).
            if entry_stat.st_nlink != 2 {
                return Err(Errno::NotSup);
            }
        },
        _ => {
            // Check that the "/proc" and "/proc/self" directories aren't
            // empty.
            if entry_stat.st_nlink <= 2 {
                return Err(Errno::NotSup);
            }
        },
    }
    Ok(entry_stat)
}

/// Whether the directory handle is a mount point, as told by the error of a
/// `renameat("../.", ".")` on it, which fails with `EXDEV` first where it
/// would cross a mount point and with `EBUSY` otherwise. `None` for any other
/// outcome, which breaks the kernel's contract.
pub fn is_mountpoint_from_rename(rename: Result<()>) -> (r: Option<bool>)
    ensures
        r == match rename {
            Err(Errno::Xdev) => Some(true),
            Err(Errno::Busy) => Some(false),
            _ => None::<bool>,
        },
{
    match rename {
        Err(Errno::Xdev) => Some(true),
        Err(Errno::Busy) => Some(false),
        _ => None,
    }
}

} // verus!
