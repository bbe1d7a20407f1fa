use touchhle_core::stat::{
    fstat, fstat_inner, mkdir, stat, timespec, FileKind, FsError, StatError, DIRECTORY_MODE, EBADF,
    EEXIST, EINVAL, ENOENT, REGULAR_FILE_MODE, S_IFDIR, S_IFREG,
};

const NOW: timespec = timespec { tv_sec: 1_700_000_000, tv_nsec: 123 };

#[test]
fn modes_are_type_and_permissions() {
    assert_eq!(REGULAR_FILE_MODE, S_IFREG | 0o644);
    assert_eq!(DIRECTORY_MODE, S_IFDIR | 0o755);
}

#[test]
fn fstat_regular_file() {
    let s = fstat_inner(3, Some(FileKind::Regular(1000)), NOW).unwrap();
    assert_eq!(s.st_mode, S_IFREG | 0o644);
    assert_eq!(s.st_size, 1000);
    assert_eq!(s.st_blocks, 2);
    assert_eq!(s.st_blksize, 4096);
    assert_eq!(s.st_ino, 3);
    assert_eq!(s.st_dev, 1);
    assert_eq!(s.st_nlink, 1);
    assert_eq!((s.st_uid, s.st_gid), (501, 501));
    assert_eq!(s.st_mtimespec, NOW);
    assert_eq!(s.st_birthtimespec, NOW);
}

#[test]
fn fstat_block_counts_round_up() {
    assert_eq!(fstat_inner(3, Some(FileKind::Regular(0)), NOW).unwrap().st_blocks, 0);
    assert_eq!(fstat_inner(3, Some(FileKind::Regular(1)), NOW).unwrap().st_blocks, 1);
    assert_eq!(fstat_inner(3, Some(FileKind::Regular(512)), NOW).unwrap().st_blocks, 1);
    assert_eq!(fstat_inner(3, Some(FileKind::Regular(513)), NOW).unwrap().st_blocks, 2);
}

#[test]
fn fstat_directory() {
    let s = fstat_inner(4, Some(FileKind::Directory), NOW).unwrap();
    assert_eq!(s.st_mode, S_IFDIR | 0o755);
    assert_eq!(s.st_size, 0);
    assert_eq!(s.st_blocks, 0);
    assert_eq!(s.st_blksize, 4096);
}

#[test]
fn fstat_bad_descriptor() {
    assert_eq!(fstat_inner(7, None, NOW).err(), Some(EBADF));
    assert_eq!(fstat_inner(7, Some(FileKind::Unsupported), NOW).err(), Some(EBADF));
}

#[test]
fn stat_path_cases() {
    assert_eq!(stat(0, None, NOW).err(), Some(StatError::Errno(EINVAL)));
    assert_eq!(stat(0x1000, None, NOW).err(), Some(StatError::OpenFailed));
    assert_eq!(
        stat(0x1000, Some((5, Some(FileKind::Unsupported))), NOW).err(),
        Some(StatError::Errno(EBADF))
    );
    let s = stat(0x1000, Some((5, Some(FileKind::Regular(10)))), NOW).unwrap();
    assert_eq!(s.st_size, 10);
    assert_eq!(s.st_ino, 5);
}

#[test]
fn mkdir_results() {
    assert_eq!(mkdir(Ok(())), (0, 0));
    assert_eq!(mkdir(Err(FsError::AlreadyExist)), (-1, EEXIST));
    assert_eq!(mkdir(Err(FsError::NonexistentParentDir)), (-1, ENOENT));
}

#[test]
fn fstat_reports_through_errno() {
    let mut errno = 99;
    let mut buf = fstat_inner(1, Some(FileKind::Directory), NOW).unwrap();
    assert_eq!(fstat(&mut errno, 7, Some(FileKind::Regular(10)), NOW, &mut buf), 0);
    assert_eq!(errno, 0);
    assert_eq!((buf.st_ino, buf.st_size, buf.st_blocks), (7, 10, 1));

    errno = 99;
    assert_eq!(fstat(&mut errno, 8, None, NOW, &mut buf), -1);
    assert_eq!(errno, EBADF);
    assert_eq!(buf.st_ino, 7);
}
