use rsix::procfs::{
    check_proc_entry_with_stat, check_proc_nonroot, check_proc_root, check_proc_subdir,
    check_procfs, is_mountpoint_from_rename, major, Kind, Stat, PROC_SUPER_MAGIC,
};
use rsix::Errno;

fn proc_root() -> Stat {
    Stat { st_dev: 0x16, st_ino: 1, st_mode: 0o040555, st_nlink: 300, st_uid: 0, st_gid: 0 }
}

fn proc_pid() -> Stat {
    Stat { st_dev: 0x16, st_ino: 4242, st_mode: 0o040555, st_nlink: 9, st_uid: 1000, st_gid: 100 }
}

fn proc_fd() -> Stat {
    Stat { st_dev: 0x16, st_ino: 4343, st_mode: 0o040500, st_nlink: 2, st_uid: 1000, st_gid: 100 }
}

#[test]
fn proc_root_passes() {
    let s = proc_root();
    assert_eq!(
        check_proc_entry_with_stat(Kind::Proc, s, PROC_SUPER_MAGIC, true, None, 0, 0),
        Ok(s)
    );
}

#[test]
fn proc_root_failures() {
    let s = proc_root();
    let check = |s: Stat, f_type: u64, mnt: bool| {
        check_proc_entry_with_stat(Kind::Proc, s, f_type, mnt, None, 0, 0)
    };
    assert_eq!(check(s, 0xef53, true), Err(Errno::NotSup));
    assert_eq!(check(s, PROC_SUPER_MAGIC, false), Err(Errno::NotSup));
    assert_eq!(check(Stat { st_ino: 2, ..s }, PROC_SUPER_MAGIC, true), Err(Errno::NotSup));
    assert_eq!(check(Stat { st_dev: 0x801, ..s }, PROC_SUPER_MAGIC, true), Err(Errno::NotSup));
    assert_eq!(check(Stat { st_uid: 5, ..s }, PROC_SUPER_MAGIC, true), Err(Errno::NotSup));
    assert_eq!(check(Stat { st_mode: 0o040557, ..s }, PROC_SUPER_MAGIC, true), Err(Errno::NotSup));
    assert_eq!(check(Stat { st_mode: 0o040500, ..s }, PROC_SUPER_MAGIC, true), Ok(Stat { st_mode: 0o040500, ..s }));
    assert_eq!(check(Stat { st_nlink: 2, ..s }, PROC_SUPER_MAGIC, true), Err(Errno::NotSup));
}

#[test]
fn proc_pid_and_fd() {
    let root = proc_root();
    let pid = proc_pid();
    let fd = proc_fd();
    assert_eq!(
        check_proc_entry_with_stat(Kind::Pid, pid, PROC_SUPER_MAGIC, false, Some(&root), 1000, 100),
        Ok(pid)
    );
    assert_eq!(
        check_proc_entry_with_stat(Kind::Pid, pid, PROC_SUPER_MAGIC, true, Some(&root), 1000, 100),
        Err(Errno::NotSup)
    );
    assert_eq!(
        check_proc_entry_with_stat(Kind::Fd, fd, PROC_SUPER_MAGIC, false, Some(&root), 1000, 100),
        Ok(fd)
    );
    let extra = Stat { st_nlink: 3, ..fd };
    assert_eq!(
        check_proc_entry_with_stat(Kind::Fd, extra, PROC_SUPER_MAGIC, false, Some(&root), 1000, 100),
        Err(Errno::NotSup)
    );
    let too_open = Stat { st_mode: 0o040550, ..fd };
    assert_eq!(
        check_proc_entry_with_stat(Kind::Fd, too_open, PROC_SUPER_MAGIC, false, Some(&root), 1000, 100),
        Err(Errno::NotSup)
    );
    let elsewhere = Stat { st_dev: 0x17, ..pid };
    assert_eq!(
        check_proc_entry_with_stat(Kind::Pid, elsewhere, PROC_SUPER_MAGIC, false, Some(&root), 1000, 100),
        Err(Errno::NotSup)
    );
}

#[test]
fn the_parts() {
    let root = proc_root();
    assert_eq!(check_procfs(PROC_SUPER_MAGIC), Ok(()));
    assert_eq!(check_procfs(0), Err(Errno::NotSup));
    assert_eq!(check_proc_root(&root, true), Ok(()));
    assert_eq!(check_proc_nonroot(&proc_pid(), Some(&root)), Ok(()));
    assert_eq!(check_proc_nonroot(&root, Some(&root)), Err(Errno::NotSup));
    assert_eq!(check_proc_subdir(&proc_pid(), Some(&root), true), Err(Errno::NotSup));
}

#[test]
fn major_numbers() {
    assert_eq!(major(0x0801), 8);
    assert_eq!(major(0x16), 0);
    assert_eq!(major(0x0000_1000_0000_0000), 0x1000);
}

#[test]
fn mountpoint_from_rename() {
    assert_eq!(is_mountpoint_from_rename(Err(Errno::Xdev)), Some(true));
    assert_eq!(is_mountpoint_from_rename(Err(Errno::Busy)), Some(false));
    assert_eq!(is_mountpoint_from_rename(Err(Errno::Inval)), None);
    assert_eq!(is_mountpoint_from_rename(Ok(())), None);
}
