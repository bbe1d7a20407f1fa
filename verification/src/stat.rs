//! POSIX `sys/stat.h`: `mkdir`, `fstat` and `stat` as the runtime answers
//! them for the guest file system.
#![allow(non_camel_case_types)]

use vstd::prelude::*;

verus! {

pub type dev_t = u32;
pub type mode_t = u16;
pub type nlink_t = u16;
pub type ino_t = u64;
pub type uid_t = u32;
pub type gid_t = u32;
pub type blkcnt_t = u64;
pub type blksize_t = u32;
pub type off_t = i64;
pub type FileDescriptor = i32;

// enum values sourced from ```man 2 stat```
pub const S_IFDIR: mode_t = 0o0040000;
pub const S_IFREG: mode_t = 0o0100000;

/// `ENOENT` on Darwin.
pub const ENOENT: i32 = 2;
/// `EBADF` on Darwin.
pub const EBADF: i32 = 9;
/// `EEXIST` on Darwin.
pub const EEXIST: i32 = 17;
/// `EINVAL` on Darwin.
pub const EINVAL: i32 = 22;

/// A point in time: seconds and nanoseconds.
#[derive(Clone, Copy, Debug, PartialEq, Eq, Structural)]
pub struct timespec {
    pub tv_sec: i64,
    pub tv_nsec: i64,
}

/// The guest's `struct stat`, field for field.
#[derive(Clone, Copy, Debug)]
pub struct stat {
    pub st_dev: dev_t,
    pub st_mode: mode_t,
    pub st_nlink: nlink_t,
    pub st_ino: ino_t,
    pub st_uid: uid_t,
    pub st_gid: gid_t,
    pub st_rdev: dev_t,
    pub st_atimespec: timespec,
    pub st_mtimespec: timespec,
    pub st_ctimespec: timespec,
    pub st_birthtimespec: timespec,
    pub st_size: off_t,
    pub st_blocks: blkcnt_t,
    pub st_blksize: blksize_t,
    pub st_flags: u32,
    pub st_gen: u32,
    pub st_lspare: i32,
    pub st_qspare: [i64; 2],
}

/// What an open guest file descriptor refers to.
#[derive(Clone, Copy, Debug, PartialEq, Eq, Structural)]
pub enum FileKind {
    /// A regular file (host file, file inside the app bundle, or resource
    /// file) of the given length in bytes.
    Regular(u64),
    Directory,
    /// Any other kind of open file, which `fstat` does not describe.
    Unsupported,
}

/// File permissions of regular files: `S_IFREG | 0644` (rw-r--r--).
pub const REGULAR_FILE_MODE: mode_t = 0o0100644;
/// File permissions of directories: `S_IFDIR | 0755` (rwxr-xr-x).
pub const DIRECTORY_MODE: mode_t = 0o0040755;

/// The `stat` data of a file: a fake device, the descriptor as inode, one
/// link, the mobile user's ids, 4096-byte blocks, every timestamp `now`.
pub open spec fn spec_stat_data(fd: FileDescriptor, mode: mode_t, size: int, now: timespec) -> stat {
    stat {
        st_dev: 1,
        st_mode: mode,
        st_nlink: 1,
        st_ino: fd as u64,
        st_uid: 501,
        st_gid: 501,
        st_rdev: 0,
        st_atimespec: now,
        st_mtimespec: now,
        st_ctimespec: now,
        st_birthtimespec: now,
        st_size: size as i64,
        st_blocks: ((size + 511) / 512) as u64,
        st_blksize: 4096,
        st_flags: 0,
        st_gen: 0,
        st_lspare: 0,
        st_qspare: [0i64, 0i64],
    }
}

/// What `fstat` answers for descriptor `fd` given what it refers to (None:
/// no such open descriptor) and the current time.
pub open spec fn spec_fstat(fd: FileDescriptor, file: Option<FileKind>, now: timespec) -> Result<
    stat,
    i32,
> {
    match file {
        Some(FileKind::Regular(len)) => Ok(spec_stat_data(fd, REGULAR_FILE_MODE, len as int, now)),
        Some(FileKind::Directory) => Ok(spec_stat_data(fd, DIRECTORY_MODE, 0, now)),
        _ => Err(EBADF),
    }
}

/// Whether the runtime can describe `file` without overflowing `off_t`.
pub open spec fn fstat_describable(file: Option<FileKind>) -> bool {
    file matches Some(FileKind::Regular(len)) ==> len <= i64::MAX - 511
}

/// Fills the `stat` data of descriptor `fd` (helper of `stat` and `fstat`).
/// The error is the errno to set (`EBADF` for an unknown descriptor or a
/// file kind it does not describe).
pub fn fstat_inner(fd: FileDescriptor, file: Option<FileKind>, now: timespec) -> (r: Result<stat, i32>)
    requires
        fstat_describable(file),
    ensures
        r == spec_fstat(fd, file, now),
{
    let Some(kind) = file else {
        return Err(EBADF);
    };
    let (mode, size, blocks): (mode_t, off_t, blkcnt_t) = match kind {
        FileKind::Regular(len) => {
            let size: off_t = len as i64;
            // Block info
            let blocks: blkcnt_t = ((size + 511) / 512) as u64;
            (REGULAR_FILE_MODE, size, blocks)
        },
        // Directories have size 0 on most systems
        FileKind::Directory => (DIRECTORY_MODE, 0, 0),
        FileKind::Unsupported => {
            return Err(EBADF);
        },
    };
    Ok(
        stat {
            st_dev: 1,  // Fake device ID
            st_mode: mode,
            st_nlink: 1,  // Always 1 link
            st_ino: fd as u64,  // Use FD as inode (hack)
            st_uid: 501,  // Fake user ID (mobile user on iOS)
            st_gid: 501,  // Fake group ID
            st_rdev: 0,
            st_atimespec: now,
            st_mtimespec: now,
            st_ctimespec: now,
            st_birthtimespec: now,
            st_size: size,
            st_blocks: blocks,
            st_blksize: 4096,
            st_flags: 0,
            st_gen: 0,
            st_lspare: 0,
            st_qspare: [0, 0],
        },
    )
}

/// `fstat(fd, buf)`: errno is cleared, then either `buf` is filled and 0
/// returned, or errno is set and -1 returned with `buf` untouched.
pub fn fstat(errno: &mut i32, fd: FileDescriptor, file: Option<FileKind>, now: timespec, buf: &mut stat) -> (r: i32)
    requires
        fstat_describable(file),
    ensures
        match spec_fstat(fd, file, now) {
            Ok(s) => r == 0 && *final(errno) == 0 && *final(buf) == s,
            Err(e) => r == -1 && *final(errno) == e && *final(buf) == *old(buf),
        },
        r == 0 && *final(errno) == 0 || r == -1 && *final(errno) == EBADF,
{
    *errno = 0;
    match fstat_inner(fd, file, now) {
        Ok(s) => {
            *buf = s;
            0
        },
        Err(e) => {
            *errno = e;
            -1
        },
    }
}

/// Why `stat` of a path gave no data.
#[derive(Clone, Copy, Debug, PartialEq, Eq, Structural)]
pub enum StatError {
    /// The errno to set.
    Errno(i32),
    /// Opening the path failed; `open` has set errno.
    OpenFailed,
}

/// What `stat` answers for `path` given the result of opening it.
pub open spec fn spec_stat(path: u32, opened: Option<(FileDescriptor, Option<FileKind>)>, now: timespec) -> Result<stat, StatError> {
    if path == 0 {
        Err(StatError::Errno(EINVAL))
    } else {
        match opened {
            None => Err(StatError::OpenFailed),
            Some((fd, file)) => match spec_fstat(fd, file, now) {
                Ok(s) => Ok(s),
                Err(e) => Err(StatError::Errno(e)),
            },
        }
    }
}

/// `stat(path)`, given the result of opening the (non-null) path: the
/// descriptor and what it refers to, or None if opening failed. The runtime
/// closes the descriptor afterwards.
pub fn stat(path: u32, opened: Option<(FileDescriptor, Option<FileKind>)>, now: timespec) -> (r:
    Result<stat, StatError>)
    requires
        path != 0 ==> (opened matches Some((fd, file)) ==> fstat_describable(file)),
    ensures
        r == spec_stat(path, opened, now),
{
    if path == 0 {
        return Err(StatError::Errno(EINVAL));
    }
    match opened {
        None => Err(StatError::OpenFailed),
        Some((fd, file)) => match fstat_inner(fd, file, now) {
            Ok(s) => Ok(s),
            Err(e) => Err(StatError::Errno(e)),
        },
    }
}

/// Why the guest file system refused to create a directory.
#[derive(Clone, Copy, Debug, PartialEq, Eq, Structural)]
pub enum FsError {
    AlreadyExist,
    NonexistentParentDir,
    /// Any other refusal, which `mkdir` has no errno for.
    Other,
}

/// `mkdir(path, mode)` given the file system's answer: the return value and
/// the errno to set.
pub fn mkdir(fs_result: Result<(), FsError>) -> (r: (i32, i32))
    requires
        fs_result != Err::<(), FsError>(FsError::Other),
    ensures
        fs_result is Ok ==> r == (0i32, 0i32),
        fs_result == Err::<(), FsError>(FsError::AlreadyExist) ==> r == (-1i32, EEXIST),
        fs_result == Err::<(), FsError>(FsError::NonexistentParentDir) ==> r == (-1i32, ENOENT),
{
    match fs_result {
        Ok(()) => (0, 0),
        Err(FsError::AlreadyExist) => (-1, EEXIST),
        Err(FsError::NonexistentParentDir) => (-1, ENOENT),
        Err(FsError::Other) => (-1, 0),
    }
}

/// `stat` of a non-null path answers what `fstat` answers for the
/// descriptor that opening the path gave: the same data (so `st_ino` is
/// that descriptor) or, as an errno, the same error.
pub proof fn lemma_stat_is_fstat_of_opened(path: u32, fd: FileDescriptor, file: Option<FileKind>, now: timespec)
    requires
        path != 0,
    ensures
        spec_stat(path, Some((fd, file)), now) == (match spec_fstat(fd, file, now) {
            Ok(s) => Ok(s),
            Err(e) => Err(StatError::Errno(e)),
        }),
        spec_stat(path, Some((fd, file)), now) matches Ok(s) ==> s.st_ino == fd as u64,
{
}

/// The block count `fstat` reports covers the file: `st_blocks` 512-byte
/// blocks hold `st_size` bytes with less than one block to spare.
pub proof fn lemma_blocks_cover_size(fd: FileDescriptor, len: u64, now: timespec)
    requires
        len <= i64::MAX - 511,
    ensures
        spec_fstat(fd, Some(FileKind::Regular(len)), now) matches Ok(s) && s.st_size == len && s.st_blocks
            * 512 >= len && s.st_blocks * 512 < len + 512,
{
}

} // verus!
