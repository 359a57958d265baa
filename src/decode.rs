//! Decoding of kernel requests into typed operations.
use vstd::prelude::*;

use crate::fs::{in_header_of, lock_bytes, parse_in_header, FileLock, InHeader};
use crate::wire::{le32, le64, push_bytes, push_u32, push_u64, read_u32, read_u64, u32_at, u64_at, IN_HEADER_SIZE};
use crate::wire::{lemma_at_subrange, lemma_le32_of_bytes, lemma_le64_of_bytes};

verus! {

pub const FUSE_LOOKUP: u32 = 1;
pub const FUSE_FORGET: u32 = 2;
pub const FUSE_GETATTR: u32 = 3;
pub const FUSE_SETATTR: u32 = 4;
pub const FUSE_READLINK: u32 = 5;
pub const FUSE_UNLINK: u32 = 10;
pub const FUSE_RMDIR: u32 = 11;
pub const FUSE_OPEN: u32 = 14;
pub const FUSE_READ: u32 = 15;
pub const FUSE_STATFS: u32 = 17;
pub const FUSE_INIT: u32 = 26;
pub const FUSE_OPENDIR: u32 = 27;
pub const FUSE_INTERRUPT: u32 = 36;
pub const FUSE_SYMLINK: u32 = 6;
pub const FUSE_MKNOD: u32 = 8;
pub const FUSE_MKDIR: u32 = 9;
pub const FUSE_RENAME: u32 = 12;
pub const FUSE_LINK: u32 = 13;
pub const FUSE_WRITE: u32 = 16;
pub const FUSE_RELEASE: u32 = 18;
pub const FUSE_FSYNC: u32 = 20;
pub const FUSE_SETXATTR: u32 = 21;
pub const FUSE_GETXATTR: u32 = 22;
pub const FUSE_LISTXATTR: u32 = 23;
pub const FUSE_REMOVEXATTR: u32 = 24;
pub const FUSE_FLUSH: u32 = 25;
pub const FUSE_READDIR: u32 = 28;
pub const FUSE_RELEASEDIR: u32 = 29;
pub const FUSE_FSYNCDIR: u32 = 30;
pub const FUSE_GETLK: u32 = 31;
pub const FUSE_SETLK: u32 = 32;
pub const FUSE_SETLKW: u32 = 33;
pub const FUSE_ACCESS: u32 = 34;
pub const FUSE_CREATE: u32 = 35;
pub const FUSE_BMAP: u32 = 37;
pub const FUSE_DESTROY: u32 = 38;
pub const FUSE_NOTIFY_REPLY: u32 = 41;

/// `getattr_flags` bit: the request names an open file handle.
pub const FUSE_GETATTR_FH: u32 = 1;
/// `read_flags` bit: the request carries a lock owner.
pub const FUSE_READ_LOCKOWNER: u32 = 2;
/// `release_flags` bit: the file is flushed as it is released.
pub const FUSE_RELEASE_FLUSH: u32 = 1;
/// `release_flags` bit: the BSD locks of the lock owner are released.
pub const FUSE_RELEASE_FLOCK_UNLOCK: u32 = 2;
/// `fsync_flags` bit: only the contents need to reach the disk.
pub const FUSE_FSYNC_FDATASYNC: u32 = 1;
/// `write_flags` bit: the request carries a lock owner.
pub const FUSE_WRITE_LOCKOWNER: u32 = 2;
/// `lk_flags` bit: the lock request is a BSD `flock`.
pub const FUSE_LK_FLOCK: u32 = 1;
/// POSIX lock types.
pub const F_RDLCK: u32 = 0;
pub const F_WRLCK: u32 = 1;
pub const F_UNLCK: u32 = 2;
/// BSD lock operations.
pub const LOCK_SH: u32 = 1;
pub const LOCK_EX: u32 = 2;
pub const LOCK_NB: u32 = 4;
pub const LOCK_UN: u32 = 8;

pub const FATTR_MODE: u32 = 1;
pub const FATTR_UID: u32 = 2;
pub const FATTR_GID: u32 = 4;
pub const FATTR_SIZE: u32 = 8;
pub const FATTR_ATIME: u32 = 16;
pub const FATTR_MTIME: u32 = 32;
pub const FATTR_FH: u32 = 64;
pub const FATTR_ATIME_NOW: u32 = 128;
pub const FATTR_MTIME_NOW: u32 = 256;
pub const FATTR_LOCKOWNER: u32 = 512;
pub const FATTR_CTIME: u32 = 1024;

pub const GETATTR_IN_SIZE: usize = 16;
pub const SETATTR_IN_SIZE: usize = 88;
pub const OPEN_IN_SIZE: usize = 8;
pub const READ_IN_SIZE: usize = 40;
pub const INIT_IN_SIZE: usize = 16;
pub const FORGET_IN_SIZE: usize = 8;
pub const INTERRUPT_IN_SIZE: usize = 8;
pub const NOTIFY_RETRIEVE_IN_SIZE: usize = 40;
pub const RELEASE_IN_SIZE: usize = 24;
pub const FSYNC_IN_SIZE: usize = 16;
pub const FLUSH_IN_SIZE: usize = 24;
pub const ACCESS_IN_SIZE: usize = 8;
pub const BMAP_IN_SIZE: usize = 16;
pub const GETXATTR_IN_SIZE: usize = 8;
pub const LK_IN_SIZE: usize = 48;
pub const MKDIR_IN_SIZE: usize = 8;
pub const MKNOD_IN_SIZE: usize = 16;
pub const CREATE_IN_SIZE: usize = 16;
pub const LINK_IN_SIZE: usize = 8;
pub const WRITE_IN_SIZE: usize = 40;
pub const SETXATTR_IN_SIZE: usize = 8;
pub const RENAME_IN_SIZE: usize = 8;

/// The kind of FUSE requests received from the kernel.
#[derive(Debug)]
#[allow(inconsistent_fields)]
pub enum Operation {
    /// Look up a directory entry by name.
    Lookup { parent: u64, name: Vec<u8> },
    /// Forget about an inode removed from the kernel's internal caches.
    Forget { ino: u64, nlookup: u64 },
    /// Get file attributes.
    Getattr { ino: u64, fh: Option<u64> },
    /// Set file attributes; each field is present exactly when its bit is set.
    Setattr {
        ino: u64,
        fh: Option<u64>,
        mode: Option<u32>,
        uid: Option<u32>,
        gid: Option<u32>,
        size: Option<u64>,
        atime: Option<(u64, u32, bool)>,
        mtime: Option<(u64, u32, bool)>,
        ctime: Option<(u64, u32)>,
        lock_owner: Option<u64>,
    },
    /// Read a symbolic link.
    Readlink { ino: u64 },
    /// Create a symbolic link named `name` in `parent` that points to `link`.
    Symlink { parent: u64, name: Vec<u8>, link: Vec<u8> },
    /// Remove a file.
    Unlink { parent: u64, name: Vec<u8> },
    /// Remove a directory.
    Rmdir { parent: u64, name: Vec<u8> },
    /// Create a file node.
    Mknod { parent: u64, name: Vec<u8>, mode: u32, rdev: u32, umask: Option<u32> },
    /// Create a directory.
    Mkdir { parent: u64, name: Vec<u8>, mode: u32, umask: Option<u32> },
    /// Rename a file.
    Rename { parent: u64, name: Vec<u8>, newparent: u64, newname: Vec<u8>, flags: u32 },
    /// Create a hard link to `ino` under `newparent`.
    Link { ino: u64, newparent: u64, newname: Vec<u8> },
    /// Open a file.
    Open { ino: u64, flags: u32 },
    /// Open a directory.
    Opendir { ino: u64, flags: u32 },
    /// Read data from an opened file.
    Read { ino: u64, fh: u64, offset: u64, size: u32, flags: u32, lock_owner: Option<u64> },
    /// Write data to an opened file.
    Write {
        ino: u64,
        fh: u64,
        offset: u64,
        data: Vec<u8>,
        size: u32,
        flags: u32,
        lock_owner: Option<u64>,
    },
    /// Get the filesystem statistics.
    Statfs { ino: u64 },
    /// Set an extended attribute.
    Setxattr { ino: u64, name: Vec<u8>, value: Vec<u8>, flags: u32 },
    /// Release an opened file.
    Release {
        ino: u64,
        fh: u64,
        flags: u32,
        lock_owner: Option<u64>,
        flush: bool,
        flock_release: bool,
    },
    /// Synchronize the contents of an opened file; only the data when `datasync`.
    Fsync { ino: u64, fh: u64, datasync: bool },
    /// Get an extended attribute; a zero `size` asks for the value's length.
    Getxattr { ino: u64, name: Vec<u8>, size: u32 },
    /// List extended attribute names; a zero `size` asks for the list's length.
    Listxattr { ino: u64, size: u32 },
    /// Remove an extended attribute.
    Removexattr { ino: u64, name: Vec<u8> },
    /// Close a file descriptor.
    Flush { ino: u64, fh: u64, lock_owner: u64 },
    /// Read contents from an opened directory.
    Readdir { ino: u64, fh: u64, offset: u64, size: u32 },
    /// Release an opened directory.
    Releasedir { ino: u64, fh: u64, flags: u32 },
    /// Synchronize the contents of an opened directory.
    Fsyncdir { ino: u64, fh: u64, datasync: bool },
    /// Test for a POSIX file lock.
    Getlk { ino: u64, fh: u64, owner: u64, lk: FileLock },
    /// Acquire, modify or release a POSIX file lock; `sleep` waits for it.
    Setlk { ino: u64, fh: u64, owner: u64, lk: FileLock, sleep: bool },
    /// Acquire, modify or release a BSD file lock.
    Flock { ino: u64, fh: u64, owner: u64, op: u32 },
    /// Check file access permissions.
    Access { ino: u64, mask: u32 },
    /// Create and open a file.
    Create { parent: u64, name: Vec<u8>, mode: u32, umask: Option<u32>, open_flags: u32 },
    /// Map a block index within a file to one within the device.
    Bmap { ino: u64, block: u64, blocksize: u32 },
    /// The protocol handshake.
    Init { major: u32, minor: u32, max_readahead: u32, flags: u32 },
    /// Cancel the request with the given unique.
    Interrupt { unique: u64 },
    /// The filesystem is being shut down.
    Destroy,
    /// The data that the kernel sends back for an earlier retrieve notification.
    NotifyReply { unique: u64, offset: u64, size: u32, data: Vec<u8> },
    /// An opcode that this engine does not route; it is answered with `ENOSYS`.
    Unknown { opcode: u32 },
}

/// Why a request could not be decoded.
#[derive(Clone, Copy, Debug, PartialEq, Eq)]
pub enum ProtocolError {
    /// The buffer is shorter than a request header.
    ShortHeader,
    /// The header's length is below the header size or beyond the buffer.
    BadLength,
    /// The arguments do not have the layout that the opcode calls for.
    Malformed,
}

/// Whether `p` is a name terminated by its only NUL byte.
pub open spec fn is_name(p: Seq<u8>) -> bool {
    &&& p.len() >= 1
    &&& p.last() == 0
    &&& forall|i: int| 0 <= i < p.len() - 1 ==> p[i] != 0
}

/// The optional field that is present when `bit` is set in `valid`.
pub open spec fn when_set<A>(valid: u32, bit: u32, v: A) -> Option<A> {
    if valid & bit != 0 {
        Some(v)
    } else {
        None
    }
}

/// Whether the opcode's arguments are a single NUL-terminated name.
pub open spec fn is_name_opcode(op: u32) -> bool {
    op == FUSE_LOOKUP || op == FUSE_UNLINK || op == FUSE_RMDIR || op == FUSE_REMOVEXATTR || op
        == FUSE_MKDIR || op == FUSE_LINK || op == FUSE_GETXATTR || op == FUSE_MKNOD || op
        == FUSE_CREATE
}

/// Whether the opcode's arguments end in data or in two names.
pub open spec fn is_data_opcode(op: u32) -> bool {
    op == FUSE_NOTIFY_REPLY || op == FUSE_WRITE || op == FUSE_SETXATTR || op == FUSE_SYMLINK
        || op == FUSE_RENAME
}

/// Whether `q` is two names, each ended by its only NUL.
pub open spec fn two_names(q: Seq<u8>) -> bool {
    exists|i: int|
        0 <= i < q.len() && q[i] == 0 && (forall|j: int| 0 <= j < i ==> q[j] != 0) && is_name(
            #[trigger] q.subrange(i + 1, q.len() as int),
        )
}

/// Whether `q` is the names `a` and `b`, each ended by a NUL that is its only one.
pub open spec fn holds_names(q: Seq<u8>, a: Seq<u8>, b: Seq<u8>) -> bool {
    &&& q == a.push(0) + b.push(0)
    &&& forall|j: int| 0 <= j < a.len() ==> a[j] != 0
    &&& forall|j: int| 0 <= j < b.len() ==> b[j] != 0
}

/// The BSD lock operation that a lock request of type `typ` stands for.
pub open spec fn flock_op(typ: u32, sleep: bool) -> u32 {
    let base = if typ == F_RDLCK {
        LOCK_SH
    } else if typ == F_WRLCK {
        LOCK_EX
    } else {
        LOCK_UN
    };
    if sleep {
        base
    } else {
        base | LOCK_NB
    }
}

/// The size of the fixed record that precedes the name.
pub open spec fn name_offset(op: u32) -> int {
    if op == FUSE_MKDIR || op == FUSE_LINK || op == FUSE_GETXATTR {
        8
    } else if op == FUSE_MKNOD || op == FUSE_CREATE {
        16
    } else {
        0
    }
}

/// The name of a request whose arguments are a fixed record and a name.
pub open spec fn name_of(op: u32, p: Seq<u8>) -> Seq<u8> {
    p.subrange(name_offset(op), p.len() as int)
}

/// Whether the engine decodes the opcode's arguments.
pub open spec fn is_known_opcode(op: u32) -> bool {
    is_name_opcode(op) || op == FUSE_FORGET || op == FUSE_GETATTR || op == FUSE_SETATTR || op
        == FUSE_READLINK || op == FUSE_OPEN || op == FUSE_OPENDIR || op == FUSE_READ || op
        == FUSE_STATFS || op == FUSE_INIT || op == FUSE_INTERRUPT || op == FUSE_DESTROY || op
        == FUSE_NOTIFY_REPLY || op == FUSE_RELEASE || op == FUSE_FSYNC || op == FUSE_LISTXATTR
        || op == FUSE_FLUSH || op == FUSE_READDIR || op == FUSE_RELEASEDIR || op == FUSE_FSYNCDIR
        || op == FUSE_GETLK || op == FUSE_SETLK || op == FUSE_SETLKW || op == FUSE_ACCESS || op
        == FUSE_BMAP || op == FUSE_WRITE || op == FUSE_SETXATTR || op == FUSE_SYMLINK || op
        == FUSE_RENAME
}

/// Whether `p` has the argument layout of the request with header `h`.
pub open spec fn well_formed(h: InHeader, p: Seq<u8>) -> bool {
    if is_name_opcode(h.opcode) {
        p.len() >= name_offset(h.opcode) && is_name(name_of(h.opcode, p))
    } else if h.opcode == FUSE_NOTIFY_REPLY {
        p.len() >= NOTIFY_RETRIEVE_IN_SIZE
    } else if h.opcode == FUSE_WRITE {
        p.len() >= WRITE_IN_SIZE && p.len() - WRITE_IN_SIZE == u32_at(p, 16)
    } else if h.opcode == FUSE_SETXATTR {
        p.len() >= SETXATTR_IN_SIZE && p.len() - SETXATTR_IN_SIZE > u32_at(p, 0) && is_name(
            p.subrange(SETXATTR_IN_SIZE as int, p.len() - u32_at(p, 0)),
        )
    } else if h.opcode == FUSE_SYMLINK {
        two_names(p)
    } else if h.opcode == FUSE_RENAME {
        p.len() >= RENAME_IN_SIZE && two_names(p.subrange(RENAME_IN_SIZE as int, p.len() as int))
    } else {
        op_of(h, p) is Some
    }
}

/// Whether `op` is what the request with header `h` and well-formed argument
/// bytes `p` denotes.
pub open spec fn decodes_to(h: InHeader, p: Seq<u8>, op: Operation) -> bool {
    match op {
        Operation::Lookup { parent, name } => h.opcode == FUSE_LOOKUP && parent == h.nodeid
            && name@ == p.drop_last(),
        Operation::Unlink { parent, name } => h.opcode == FUSE_UNLINK && parent == h.nodeid
            && name@ == p.drop_last(),
        Operation::Rmdir { parent, name } => h.opcode == FUSE_RMDIR && parent == h.nodeid
            && name@ == p.drop_last(),
        Operation::Removexattr { ino, name } => h.opcode == FUSE_REMOVEXATTR && ino == h.nodeid
            && name@ == p.drop_last(),
        Operation::Mkdir { parent, name, mode, umask } => h.opcode == FUSE_MKDIR && parent
            == h.nodeid && mode == u32_at(p, 0) && umask == Some(u32_at(p, 4)) && name@ == name_of(
            h.opcode,
            p,
        ).drop_last(),
        Operation::Link { ino, newparent, newname } => h.opcode == FUSE_LINK && ino == u64_at(p, 0)
            && newparent == h.nodeid && newname@ == name_of(h.opcode, p).drop_last(),
        Operation::Getxattr { ino, name, size } => h.opcode == FUSE_GETXATTR && ino == h.nodeid
            && size == u32_at(p, 0) && name@ == name_of(h.opcode, p).drop_last(),
        Operation::Mknod { parent, name, mode, rdev, umask } => h.opcode == FUSE_MKNOD && parent
            == h.nodeid && mode == u32_at(p, 0) && rdev == u32_at(p, 4) && umask == Some(u32_at(p, 8))
            && name@ == name_of(h.opcode, p).drop_last(),
        Operation::Create { parent, name, mode, umask, open_flags } => h.opcode == FUSE_CREATE
            && parent == h.nodeid && open_flags == u32_at(p, 0) && mode == u32_at(p, 4) && umask
            == Some(u32_at(p, 8)) && name@ == name_of(h.opcode, p).drop_last(),
        Operation::NotifyReply { unique, offset, size, data } => h.opcode == FUSE_NOTIFY_REPLY
            && unique == h.unique && offset == u64_at(p, 8) && size == u32_at(p, 16) && data@
            == p.subrange(NOTIFY_RETRIEVE_IN_SIZE as int, p.len() as int),
        Operation::Write { ino, fh, offset, data, size, flags, lock_owner } => h.opcode
            == FUSE_WRITE && ino == h.nodeid && fh == u64_at(p, 0) && offset == u64_at(p, 8) && size
            == u32_at(p, 16) && flags == u32_at(p, 32) && lock_owner == when_set(
            u32_at(p, 20),
            FUSE_WRITE_LOCKOWNER,
            u64_at(p, 24),
        ) && data@ == p.subrange(WRITE_IN_SIZE as int, p.len() as int),
        Operation::Setxattr { ino, name, value, flags } => h.opcode == FUSE_SETXATTR && ino
            == h.nodeid && flags == u32_at(p, 4) && name@.push(0) + value@ == p.subrange(
            SETXATTR_IN_SIZE as int,
            p.len() as int,
        ) && value@.len() == u32_at(p, 0),
        Operation::Symlink { parent, name, link } => h.opcode == FUSE_SYMLINK && parent
            == h.nodeid && holds_names(p, name@, link@),
        Operation::Rename { parent, name, newparent, newname, flags } => h.opcode == FUSE_RENAME
            && parent == h.nodeid && newparent == u64_at(p, 0) && flags == 0 && holds_names(
            p.subrange(RENAME_IN_SIZE as int, p.len() as int),
            name@,
            newname@,
        ),
        _ => !is_name_opcode(h.opcode) && !is_data_opcode(h.opcode) && op_of(h, p) == Some(op),
    }
}

/// The first minor version with the current layouts of `GETATTR`, `READ` and `WRITE`.
pub const MINOR_WITH_FH_LAYOUTS: u32 = 9;
/// The first minor version whose creating requests carry a umask.
pub const MINOR_WITH_UMASK: u32 = 12;
pub const COMPAT_READ_IN_SIZE: usize = 24;
pub const COMPAT_WRITE_IN_SIZE: usize = 24;
pub const COMPAT_CREATE_IN_SIZE: usize = 8;

/// Whether a kernel speaking minor version `minor` lays out this opcode's
/// arguments in their older form.
pub open spec fn uses_compat_layout(op: u32, minor: u32) -> bool {
    ||| minor < MINOR_WITH_FH_LAYOUTS && (op == FUSE_GETATTR || op == FUSE_READ || op == FUSE_WRITE)
    ||| minor < MINOR_WITH_UMASK && (op == FUSE_MKNOD || op == FUSE_MKDIR || op == FUSE_CREATE)
}

/// Whether `p` has the older argument layout of the request with header `h`.
pub open spec fn well_formed_compat(h: InHeader, p: Seq<u8>) -> bool {
    if h.opcode == FUSE_GETATTR {
        p.len() == 0
    } else if h.opcode == FUSE_READ {
        p.len() == COMPAT_READ_IN_SIZE
    } else if h.opcode == FUSE_WRITE {
        p.len() >= COMPAT_WRITE_IN_SIZE && p.len() - COMPAT_WRITE_IN_SIZE == u32_at(p, 16)
    } else {
        p.len() >= COMPAT_CREATE_IN_SIZE && is_name(
            p.subrange(COMPAT_CREATE_IN_SIZE as int, p.len() as int),
        )
    }
}

/// Whether `op` is what the request with header `h` and arguments `p` in
/// their older layout denotes.
pub open spec fn decodes_to_compat(h: InHeader, p: Seq<u8>, op: Operation) -> bool {
    let name = p.subrange(COMPAT_CREATE_IN_SIZE as int, p.len() as int).drop_last();
    match op {
        Operation::Getattr { ino, fh } => h.opcode == FUSE_GETATTR && ino == h.nodeid && fh is None,
        Operation::Read { ino, fh, offset, size, flags, lock_owner } => h.opcode == FUSE_READ && ino
            == h.nodeid && fh == u64_at(p, 0) && offset == u64_at(p, 8) && size == u32_at(p, 16)
            && flags == 0 && lock_owner is None,
        Operation::Write { ino, fh, offset, data, size, flags, lock_owner } => h.opcode
            == FUSE_WRITE && ino == h.nodeid && fh == u64_at(p, 0) && offset == u64_at(p, 8) && size
            == u32_at(p, 16) && flags == 0 && lock_owner is None && data@ == p.subrange(
            COMPAT_WRITE_IN_SIZE as int,
            p.len() as int,
        ),
        Operation::Mknod { parent, name: n, mode, rdev, umask } => h.opcode == FUSE_MKNOD && parent
            == h.nodeid && mode == u32_at(p, 0) && rdev == u32_at(p, 4) && umask is None && n@
            == name,
        Operation::Mkdir { parent, name: n, mode, umask } => h.opcode == FUSE_MKDIR && parent
            == h.nodeid && mode == u32_at(p, 0) && umask is None && n@ == name,
        Operation::Create { parent, name: n, mode, umask, open_flags } => h.opcode == FUSE_CREATE
            && parent == h.nodeid && open_flags == u32_at(p, 0) && mode == u32_at(p, 4) && umask is None
            && n@ == name,
        _ => false,
    }
}

/// Whether `p` is a valid argument layout for the request with header `h`
/// from a kernel speaking minor version `minor`.
pub open spec fn accepts(h: InHeader, p: Seq<u8>, minor: u32) -> bool {
    if uses_compat_layout(h.opcode, minor) {
        well_formed_compat(h, p)
    } else {
        well_formed(h, p)
    }
}

/// Whether `op` is what the request with header `h` and arguments `p` from
/// a kernel speaking minor version `minor` denotes.
pub open spec fn denotes(h: InHeader, p: Seq<u8>, minor: u32, op: Operation) -> bool {
    if uses_compat_layout(h.opcode, minor) {
        decodes_to_compat(h, p, op)
    } else {
        decodes_to(h, p, op)
    }
}

/// The operation that a request with header `h` and argument bytes `p`
/// denotes, for the opcodes whose arguments are fixed-size records.
pub open spec fn op_of(h: InHeader, p: Seq<u8>) -> Option<Operation> {
    let op = h.opcode;
    if is_name_opcode(op) || is_data_opcode(op) {
        None
    } else if op == FUSE_FORGET {
        if p.len() != FORGET_IN_SIZE {
            None
        } else {
            Some(Operation::Forget { ino: h.nodeid, nlookup: u64_at(p, 0) })
        }
    } else if op == FUSE_GETATTR {
        if p.len() != GETATTR_IN_SIZE {
            None
        } else {
            Some(
                Operation::Getattr {
                    ino: h.nodeid,
                    fh: when_set(u32_at(p, 0), FUSE_GETATTR_FH, u64_at(p, 8)),
                },
            )
        }
    } else if op == FUSE_SETATTR {
        if p.len() != SETATTR_IN_SIZE {
            None
        } else {
            Some(setattr_of(h.nodeid, p))
        }
    } else if op == FUSE_READLINK {
        if p.len() != 0 {
            None
        } else {
            Some(Operation::Readlink { ino: h.nodeid })
        }
    } else if op == FUSE_OPEN || op == FUSE_OPENDIR {
        if p.len() != OPEN_IN_SIZE {
            None
        } else if op == FUSE_OPEN {
            Some(Operation::Open { ino: h.nodeid, flags: u32_at(p, 0) })
        } else {
            Some(Operation::Opendir { ino: h.nodeid, flags: u32_at(p, 0) })
        }
    } else if op == FUSE_READ {
        if p.len() != READ_IN_SIZE {
            None
        } else {
            Some(
                Operation::Read {
                    ino: h.nodeid,
                    fh: u64_at(p, 0),
                    offset: u64_at(p, 8),
                    size: u32_at(p, 16),
                    flags: u32_at(p, 32),
                    lock_owner: when_set(u32_at(p, 20), FUSE_READ_LOCKOWNER, u64_at(p, 24)),
                },
            )
        }
    } else if op == FUSE_RELEASE {
        if p.len() != RELEASE_IN_SIZE {
            None
        } else {
            let rf = u32_at(p, 12);
            Some(
                Operation::Release {
                    ino: h.nodeid,
                    fh: u64_at(p, 0),
                    flags: u32_at(p, 8),
                    lock_owner: when_set(
                        rf,
                        FUSE_RELEASE_FLUSH | FUSE_RELEASE_FLOCK_UNLOCK,
                        u64_at(p, 16),
                    ),
                    flush: rf & FUSE_RELEASE_FLUSH != 0,
                    flock_release: rf & FUSE_RELEASE_FLOCK_UNLOCK != 0,
                },
            )
        }
    } else if op == FUSE_RELEASEDIR {
        if p.len() != RELEASE_IN_SIZE {
            None
        } else {
            Some(Operation::Releasedir { ino: h.nodeid, fh: u64_at(p, 0), flags: u32_at(p, 8) })
        }
    } else if op == FUSE_FSYNC || op == FUSE_FSYNCDIR {
        if p.len() != FSYNC_IN_SIZE {
            None
        } else if op == FUSE_FSYNC {
            Some(
                Operation::Fsync {
                    ino: h.nodeid,
                    fh: u64_at(p, 0),
                    datasync: u32_at(p, 8) & FUSE_FSYNC_FDATASYNC != 0,
                },
            )
        } else {
            Some(
                Operation::Fsyncdir {
                    ino: h.nodeid,
                    fh: u64_at(p, 0),
                    datasync: u32_at(p, 8) & FUSE_FSYNC_FDATASYNC != 0,
                },
            )
        }
    } else if op == FUSE_LISTXATTR {
        if p.len() != GETXATTR_IN_SIZE {
            None
        } else {
            Some(Operation::Listxattr { ino: h.nodeid, size: u32_at(p, 0) })
        }
    } else if op == FUSE_FLUSH {
        if p.len() != FLUSH_IN_SIZE {
            None
        } else {
            Some(Operation::Flush { ino: h.nodeid, fh: u64_at(p, 0), lock_owner: u64_at(p, 16) })
        }
    } else if op == FUSE_READDIR {
        if p.len() != READ_IN_SIZE {
            None
        } else {
            Some(
                Operation::Readdir {
                    ino: h.nodeid,
                    fh: u64_at(p, 0),
                    offset: u64_at(p, 8),
                    size: u32_at(p, 16),
                },
            )
        }
    } else if op == FUSE_GETLK || op == FUSE_SETLK || op == FUSE_SETLKW {
        if p.len() != LK_IN_SIZE {
            None
        } else {
            let lk = FileLock {
                start: u64_at(p, 16),
                end: u64_at(p, 24),
                typ: u32_at(p, 32),
                pid: u32_at(p, 36),
            };
            if op == FUSE_GETLK {
                Some(Operation::Getlk { ino: h.nodeid, fh: u64_at(p, 0), owner: u64_at(p, 8), lk })
            } else if u32_at(p, 40) & FUSE_LK_FLOCK != 0 {
                if lk.typ > F_UNLCK {
                    None
                } else {
                    Some(
                        Operation::Flock {
                            ino: h.nodeid,
                            fh: u64_at(p, 0),
                            owner: u64_at(p, 8),
                            op: flock_op(lk.typ, op == FUSE_SETLKW),
                        },
                    )
                }
            } else {
                Some(
                    Operation::Setlk {
                        ino: h.nodeid,
                        fh: u64_at(p, 0),
                        owner: u64_at(p, 8),
                        lk,
                        sleep: op == FUSE_SETLKW,
                    },
                )
            }
        }
    } else if op == FUSE_ACCESS {
        if p.len() != ACCESS_IN_SIZE {
            None
        } else {
            Some(Operation::Access { ino: h.nodeid, mask: u32_at(p, 0) })
        }
    } else if op == FUSE_BMAP {
        if p.len() != BMAP_IN_SIZE {
            None
        } else {
            Some(Operation::Bmap { ino: h.nodeid, block: u64_at(p, 0), blocksize: u32_at(p, 8) })
        }
    } else if op == FUSE_STATFS {
        if p.len() != 0 {
            None
        } else {
            Some(Operation::Statfs { ino: h.nodeid })
        }
    } else if op == FUSE_INIT {
        if p.len() != INIT_IN_SIZE {
            None
        } else {
            Some(
                Operation::Init {
                    major: u32_at(p, 0),
                    minor: u32_at(p, 4),
                    max_readahead: u32_at(p, 8),
                    flags: u32_at(p, 12),
                },
            )
        }
    } else if op == FUSE_INTERRUPT {
        if p.len() != INTERRUPT_IN_SIZE {
            None
        } else {
            Some(Operation::Interrupt { unique: u64_at(p, 0) })
        }
    } else if op == FUSE_DESTROY {
        if p.len() != 0 {
            None
        } else {
            Some(Operation::Destroy)
        }
    } else {
        Some(Operation::Unknown { opcode: op })
    }
}

/// The `SETATTR` operation on `ino` whose `fuse_setattr_in` is `p`.
pub open spec fn setattr_of(ino: u64, p: Seq<u8>) -> Operation {
    let valid = u32_at(p, 0);
    Operation::Setattr {
        ino,
        fh: when_set(valid, FATTR_FH, u64_at(p, 8)),
        mode: when_set(valid, FATTR_MODE, u32_at(p, 68)),
        uid: when_set(valid, FATTR_UID, u32_at(p, 76)),
        gid: when_set(valid, FATTR_GID, u32_at(p, 80)),
        size: when_set(valid, FATTR_SIZE, u64_at(p, 16)),
        atime: when_set(
            valid,
            FATTR_ATIME,
            (u64_at(p, 32), u32_at(p, 56), valid & FATTR_ATIME_NOW != 0),
        ),
        mtime: when_set(
            valid,
            FATTR_MTIME,
            (u64_at(p, 40), u32_at(p, 60), valid & FATTR_MTIME_NOW != 0),
        ),
        ctime: when_set(valid, FATTR_CTIME, (u64_at(p, 48), u32_at(p, 64))),
        lock_owner: when_set(valid, FATTR_LOCKOWNER, u64_at(p, 24)),
    }
}

/// Whether the header of `buf` is framed correctly.
pub open spec fn header_ok(buf: Seq<u8>) -> bool {
    &&& buf.len() >= IN_HEADER_SIZE
    &&& in_header_of(buf).len >= IN_HEADER_SIZE
    &&& in_header_of(buf).len <= buf.len()
}

/// The argument bytes of the request in `buf`: what follows the header up to
/// its stated length.
pub open spec fn args_of(buf: Seq<u8>) -> Seq<u8> {
    buf.subrange(IN_HEADER_SIZE as int, in_header_of(buf).len as int)
}

fn optional<A>(valid: u32, bit: u32, v: A) -> (r: Option<A>)
    ensures
        r == when_set(valid, bit, v),
{
    if valid & bit != 0 {
        Some(v)
    } else {
        None
    }
}

/// Copies out the name held in `buf[start..end]`, if it ends in its only NUL.
fn decode_name(buf: &[u8], start: usize, end: usize) -> (r: Option<Vec<u8>>)
    requires
        start <= end <= buf@.len(),
    ensures
        match r {
            Some(v) => is_name(buf@.subrange(start as int, end as int)) && v@ == buf@.subrange(
                start as int,
                end as int,
            ).drop_last(),
            None => !is_name(buf@.subrange(start as int, end as int)),
        },
{
    let ghost p = buf@.subrange(start as int, end as int);
    if end == start || buf[end - 1] != 0 {
        return None;
    }
    let mut name: Vec<u8> = Vec::new();
    let mut i: usize = start;
    while i < end - 1
        invariant
            start <= i <= end - 1,
            end <= buf@.len(),
            p == buf@.subrange(start as int, end as int),
            name@ == buf@.subrange(start as int, i as int),
            forall|k: int| 0 <= k < i - start ==> p[k] != 0,
        decreases end - i,
    {
        if buf[i] == 0 {
            assert(p[i - start] == 0);
            return None;
        }
        name.push(buf[i]);
        i = i + 1;
        assert(name@ =~= buf@.subrange(start as int, i as int));
    }
    assert(name@ =~= p.drop_last());
    Some(name)
}

fn decode_setattr(buf: &[u8], start: usize, ino: u64) -> (r: Operation)
    requires
        start + SETATTR_IN_SIZE <= buf@.len(),
    ensures
        r == setattr_of(ino, buf@.subrange(start as int, start + SETATTR_IN_SIZE)),
{
    // Bounds the offsets below by the buffer's length, which fits in a usize.
    let total = buf.len();
    assert(start + SETATTR_IN_SIZE <= total);
    proof {
        let e = start + SETATTR_IN_SIZE;
        lemma_at_subrange(buf@, start as int, e, 0);
        lemma_at_subrange(buf@, start as int, e, 8);
        lemma_at_subrange(buf@, start as int, e, 16);
        lemma_at_subrange(buf@, start as int, e, 24);
        lemma_at_subrange(buf@, start as int, e, 32);
        lemma_at_subrange(buf@, start as int, e, 40);
        lemma_at_subrange(buf@, start as int, e, 48);
        lemma_at_subrange(buf@, start as int, e, 56);
        lemma_at_subrange(buf@, start as int, e, 64);
        lemma_at_subrange(buf@, start as int, e, 72);
        lemma_at_subrange(buf@, start as int, e, 76);
        lemma_at_subrange(buf@, start as int, e, 80);
    }
    let valid = read_u32(buf, start);
    Operation::Setattr {
        ino,
        fh: optional(valid, FATTR_FH, read_u64(buf, start + 8)),
        mode: optional(valid, FATTR_MODE, read_u32(buf, start + 68)),
        uid: optional(valid, FATTR_UID, read_u32(buf, start + 76)),
        gid: optional(valid, FATTR_GID, read_u32(buf, start + 80)),
        size: optional(valid, FATTR_SIZE, read_u64(buf, start + 16)),
        atime: optional(
            valid,
            FATTR_ATIME,
            (read_u64(buf, start + 32), read_u32(buf, start + 56), valid & FATTR_ATIME_NOW != 0),
        ),
        mtime: optional(
            valid,
            FATTR_MTIME,
            (read_u64(buf, start + 40), read_u32(buf, start + 60), valid & FATTR_MTIME_NOW != 0),
        ),
        ctime: optional(valid, FATTR_CTIME, (read_u64(buf, start + 48), read_u32(buf, start + 64))),
        lock_owner: optional(valid, FATTR_LOCKOWNER, read_u64(buf, start + 24)),
    }
}

/// Reads the fixed record held in `buf[start..end]` for the opcodes whose
/// arguments carry no name.
#[verifier::rlimit(100)]
fn decode_fixed(h: InHeader, buf: &[u8], start: usize, end: usize) -> (r: Option<Operation>)
    requires
        start <= end <= buf@.len(),
        !is_name_opcode(h.opcode),
        !is_data_opcode(h.opcode),
    ensures
        r == op_of(h, buf@.subrange(start as int, end as int)),
{
    // Bounds the offsets below by the buffer's length, which fits in a usize.
    let total = buf.len();
    let ghost p = buf@.subrange(start as int, end as int);
    let n = end - start;
    let op = h.opcode;
    if op == FUSE_FORGET {
        if n != FORGET_IN_SIZE {
            None
        } else {
            Some(Operation::Forget { ino: h.nodeid, nlookup: read_u64(buf, start) })
        }
    } else if op == FUSE_GETATTR {
        if n != GETATTR_IN_SIZE {
            None
        } else {
            let flags = read_u32(buf, start);
            Some(
                Operation::Getattr {
                    ino: h.nodeid,
                    fh: optional(flags, FUSE_GETATTR_FH, read_u64(buf, start + 8)),
                },
            )
        }
    } else if op == FUSE_SETATTR {
        if n != SETATTR_IN_SIZE {
            None
        } else {
            Some(decode_setattr(buf, start, h.nodeid))
        }
    } else if op == FUSE_READLINK {
        if n != 0 {
            None
        } else {
            Some(Operation::Readlink { ino: h.nodeid })
        }
    } else if op == FUSE_OPEN || op == FUSE_OPENDIR {
        if n != OPEN_IN_SIZE {
            None
        } else if op == FUSE_OPEN {
            Some(Operation::Open { ino: h.nodeid, flags: read_u32(buf, start) })
        } else {
            Some(Operation::Opendir { ino: h.nodeid, flags: read_u32(buf, start) })
        }
    } else if op == FUSE_READ {
        if n != READ_IN_SIZE {
            None
        } else {
            let read_flags = read_u32(buf, start + 20);
            Some(
                Operation::Read {
                    ino: h.nodeid,
                    fh: read_u64(buf, start),
                    offset: read_u64(buf, start + 8),
                    size: read_u32(buf, start + 16),
                    flags: read_u32(buf, start + 32),
                    lock_owner: optional(read_flags, FUSE_READ_LOCKOWNER, read_u64(buf, start + 24)),
                },
            )
        }
    } else if op == FUSE_RELEASE {
        if n != RELEASE_IN_SIZE {
            None
        } else {
            let rf = read_u32(buf, start + 12);
            Some(
                Operation::Release {
                    ino: h.nodeid,
                    fh: read_u64(buf, start),
                    flags: read_u32(buf, start + 8),
                    lock_owner: optional(
                        rf,
                        FUSE_RELEASE_FLUSH | FUSE_RELEASE_FLOCK_UNLOCK,
                        read_u64(buf, start + 16),
                    ),
                    flush: rf & FUSE_RELEASE_FLUSH != 0,
                    flock_release: rf & FUSE_RELEASE_FLOCK_UNLOCK != 0,
                },
            )
        }
    } else if op == FUSE_RELEASEDIR {
        if n != RELEASE_IN_SIZE {
            None
        } else {
            Some(
                Operation::Releasedir {
                    ino: h.nodeid,
                    fh: read_u64(buf, start),
                    flags: read_u32(buf, start + 8),
                },
            )
        }
    } else if op == FUSE_FSYNC || op == FUSE_FSYNCDIR {
        if n != FSYNC_IN_SIZE {
            None
        } else {
            let fh = read_u64(buf, start);
            let datasync = read_u32(buf, start + 8) & FUSE_FSYNC_FDATASYNC != 0;
            if op == FUSE_FSYNC {
                Some(Operation::Fsync { ino: h.nodeid, fh, datasync })
            } else {
                Some(Operation::Fsyncdir { ino: h.nodeid, fh, datasync })
            }
        }
    } else if op == FUSE_LISTXATTR {
        if n != GETXATTR_IN_SIZE {
            None
        } else {
            Some(Operation::Listxattr { ino: h.nodeid, size: read_u32(buf, start) })
        }
    } else if op == FUSE_FLUSH {
        if n != FLUSH_IN_SIZE {
            None
        } else {
            Some(
                Operation::Flush {
                    ino: h.nodeid,
                    fh: read_u64(buf, start),
                    lock_owner: read_u64(buf, start + 16),
                },
            )
        }
    } else if op == FUSE_READDIR {
        if n != READ_IN_SIZE {
            None
        } else {
            Some(
                Operation::Readdir {
                    ino: h.nodeid,
                    fh: read_u64(buf, start),
                    offset: read_u64(buf, start + 8),
                    size: read_u32(buf, start + 16),
                },
            )
        }
    } else if op == FUSE_GETLK || op == FUSE_SETLK || op == FUSE_SETLKW {
        if n != LK_IN_SIZE {
            None
        } else {
            let lk = FileLock {
                start: read_u64(buf, start + 16),
                end: read_u64(buf, start + 24),
                typ: read_u32(buf, start + 32),
                pid: read_u32(buf, start + 36),
            };
            let fh = read_u64(buf, start);
            let owner = read_u64(buf, start + 8);
            if op == FUSE_GETLK {
                Some(Operation::Getlk { ino: h.nodeid, fh, owner, lk })
            } else if read_u32(buf, start + 40) & FUSE_LK_FLOCK != 0 {
                if lk.typ > F_UNLCK {
                    None
                } else {
                    let base = if lk.typ == F_RDLCK {
                        LOCK_SH
                    } else if lk.typ == F_WRLCK {
                        LOCK_EX
                    } else {
                        LOCK_UN
                    };
                    let flock = if op == FUSE_SETLKW {
                        base
                    } else {
                        base | LOCK_NB
                    };
                    Some(Operation::Flock { ino: h.nodeid, fh, owner, op: flock })
                }
            } else {
                Some(Operation::Setlk { ino: h.nodeid, fh, owner, lk, sleep: op == FUSE_SETLKW })
            }
        }
    } else if op == FUSE_ACCESS {
        if n != ACCESS_IN_SIZE {
            None
        } else {
            Some(Operation::Access { ino: h.nodeid, mask: read_u32(buf, start) })
        }
    } else if op == FUSE_BMAP {
        if n != BMAP_IN_SIZE {
            None
        } else {
            Some(
                Operation::Bmap {
                    ino: h.nodeid,
                    block: read_u64(buf, start),
                    blocksize: read_u32(buf, start + 8),
                },
            )
        }
    } else if op == FUSE_STATFS {
        if n != 0 {
            None
        } else {
            Some(Operation::Statfs { ino: h.nodeid })
        }
    } else if op == FUSE_INIT {
        if n != INIT_IN_SIZE {
            None
        } else {
            Some(
                Operation::Init {
                    major: read_u32(buf, start),
                    minor: read_u32(buf, start + 4),
                    max_readahead: read_u32(buf, start + 8),
                    flags: read_u32(buf, start + 12),
                },
            )
        }
    } else if op == FUSE_INTERRUPT {
        if n != INTERRUPT_IN_SIZE {
            None
        } else {
            Some(Operation::Interrupt { unique: read_u64(buf, start) })
        }
    } else if op == FUSE_DESTROY {
        if n != 0 {
            None
        } else {
            Some(Operation::Destroy)
        }
    } else {
        Some(Operation::Unknown { opcode: op })
    }
}

/// Reads the fixed record and the name held in `buf[start..end]` for the
/// opcodes whose arguments end in a name.
fn decode_named(h: InHeader, buf: &[u8], start: usize, end: usize) -> (r: Option<Operation>)
    requires
        start <= end <= buf@.len(),
        is_name_opcode(h.opcode),
    ensures
        match r {
            Some(op) => well_formed(h, buf@.subrange(start as int, end as int)) && decodes_to(
                h,
                buf@.subrange(start as int, end as int),
                op,
            ),
            None => !well_formed(h, buf@.subrange(start as int, end as int)),
        },
{
    // Bounds the offsets below by the buffer's length, which fits in a usize.
    let total = buf.len();
    let ghost p = buf@.subrange(start as int, end as int);
    let op = h.opcode;
    let k: usize = if op == FUSE_MKDIR || op == FUSE_LINK || op == FUSE_GETXATTR {
        8
    } else if op == FUSE_MKNOD || op == FUSE_CREATE {
        16
    } else {
        0
    };
    assert(k == name_offset(op));
    if end - start < k {
        return None;
    }
    let name = match decode_name(buf, start + k, end) {
        None => {
            assert(name_of(op, p) =~= buf@.subrange(start + k, end as int));
            return None;
        },
        Some(name) => name,
    };
    assert(name_of(op, p) =~= buf@.subrange(start + k, end as int));
    if op == FUSE_LOOKUP {
        assert(p =~= name_of(op, p));
        Some(Operation::Lookup { parent: h.nodeid, name })
    } else if op == FUSE_UNLINK {
        assert(p =~= name_of(op, p));
        Some(Operation::Unlink { parent: h.nodeid, name })
    } else if op == FUSE_RMDIR {
        assert(p =~= name_of(op, p));
        Some(Operation::Rmdir { parent: h.nodeid, name })
    } else if op == FUSE_REMOVEXATTR {
        assert(p =~= name_of(op, p));
        Some(Operation::Removexattr { ino: h.nodeid, name })
    } else if op == FUSE_MKDIR {
        Some(
            Operation::Mkdir {
                parent: h.nodeid,
                name,
                mode: read_u32(buf, start),
                umask: Some(read_u32(buf, start + 4)),
            },
        )
    } else if op == FUSE_LINK {
        Some(Operation::Link { ino: read_u64(buf, start), newparent: h.nodeid, newname: name })
    } else if op == FUSE_GETXATTR {
        Some(Operation::Getxattr { ino: h.nodeid, name, size: read_u32(buf, start) })
    } else if op == FUSE_MKNOD {
        Some(
            Operation::Mknod {
                parent: h.nodeid,
                name,
                mode: read_u32(buf, start),
                rdev: read_u32(buf, start + 4),
                umask: Some(read_u32(buf, start + 8)),
            },
        )
    } else {
        Some(
            Operation::Create {
                parent: h.nodeid,
                name,
                open_flags: read_u32(buf, start),
                mode: read_u32(buf, start + 4),
                umask: Some(read_u32(buf, start + 8)),
            },
        )
    }
}

/// Splits `buf[start..end]` into two names, each ended by its only NUL.
fn decode_two_names(buf: &[u8], start: usize, end: usize) -> (r: Option<(Vec<u8>, Vec<u8>)>)
    requires
        start <= end <= buf@.len(),
    ensures
        match r {
            Some((a, b)) => two_names(buf@.subrange(start as int, end as int)) && holds_names(
                buf@.subrange(start as int, end as int),
                a@,
                b@,
            ),
            None => !two_names(buf@.subrange(start as int, end as int)),
        },
{
    let ghost q = buf@.subrange(start as int, end as int);
    let mut a: Vec<u8> = Vec::new();
    let mut i: usize = start;
    while i < end && buf[i] != 0
        invariant
            start <= i <= end,
            end <= buf@.len(),
            q == buf@.subrange(start as int, end as int),
            a@ == buf@.subrange(start as int, i as int),
            forall|k: int| 0 <= k < i - start ==> q[k] != 0,
        decreases end - i,
    {
        a.push(buf[i]);
        i = i + 1;
        assert(a@ =~= buf@.subrange(start as int, i as int));
    }
    if i == end {
        assert(!two_names(q));
        return None;
    }
    let ghost j = i - start;
    assert(q[j] == 0);
    assert(q.subrange(j + 1, q.len() as int) =~= buf@.subrange(i + 1, end as int));
    match decode_name(buf, i + 1, end) {
        None => {
            assert forall|x: int|
                0 <= x < q.len() && q[x] == 0 && (forall|y: int| 0 <= y < x ==> q[y] != 0)
                    implies !is_name(#[trigger] q.subrange(x + 1, q.len() as int)) by {
                if x < j {
                } else if x > j {
                    assert(q[j] != 0);
                }
            }
            None
        },
        Some(b) => {
            assert(q =~= a@.push(0) + b@.push(0));
            proof {
                let rest = buf@.subrange(i + 1, end as int);
                assert forall|k: int| 0 <= k < b@.len() implies b@[k] != 0 by {
                    assert(b@[k] == rest[k]);
                }
            }
            Some((a, b))
        },
    }
}

/// Reads the requests whose arguments end in data or in two names.
#[verifier::rlimit(100)]
fn decode_data(h: InHeader, buf: &[u8], start: usize, end: usize) -> (r: Option<Operation>)
    requires
        start <= end <= buf@.len(),
        is_data_opcode(h.opcode),
    ensures
        match r {
            Some(op) => well_formed(h, buf@.subrange(start as int, end as int)) && decodes_to(
                h,
                buf@.subrange(start as int, end as int),
                op,
            ),
            None => !well_formed(h, buf@.subrange(start as int, end as int)),
        },
{
    // Bounds the offsets below by the buffer's length, which fits in a usize.
    let total = buf.len();
    let ghost p = buf@.subrange(start as int, end as int);
    let n = end - start;
    let op = h.opcode;
    if op == FUSE_NOTIFY_REPLY {
        if n < NOTIFY_RETRIEVE_IN_SIZE {
            return None;
        }
        let mut data: Vec<u8> = Vec::new();
        push_bytes(&mut data, &buf[start + NOTIFY_RETRIEVE_IN_SIZE..end]);
        assert(data@ =~= p.subrange(NOTIFY_RETRIEVE_IN_SIZE as int, p.len() as int));
        Some(
            Operation::NotifyReply {
                unique: h.unique,
                offset: read_u64(buf, start + 8),
                size: read_u32(buf, start + 16),
                data,
            },
        )
    } else if op == FUSE_WRITE {
        if n < WRITE_IN_SIZE {
            return None;
        }
        let size = read_u32(buf, start + 16);
        if n - WRITE_IN_SIZE != size as usize {
            return None;
        }
        let mut data: Vec<u8> = Vec::new();
        push_bytes(&mut data, &buf[start + WRITE_IN_SIZE..end]);
        assert(data@ =~= p.subrange(WRITE_IN_SIZE as int, p.len() as int));
        let write_flags = read_u32(buf, start + 20);
        Some(
            Operation::Write {
                ino: h.nodeid,
                fh: read_u64(buf, start),
                offset: read_u64(buf, start + 8),
                data,
                size,
                flags: read_u32(buf, start + 32),
                lock_owner: optional(write_flags, FUSE_WRITE_LOCKOWNER, read_u64(buf, start + 24)),
            },
        )
    } else if op == FUSE_SETXATTR {
        if n < SETXATTR_IN_SIZE {
            return None;
        }
        let size = read_u32(buf, start);
        if n - SETXATTR_IN_SIZE <= size as usize {
            return None;
        }
        let split = end - size as usize;
        assert(p.subrange(SETXATTR_IN_SIZE as int, p.len() - size) =~= buf@.subrange(
            start + SETXATTR_IN_SIZE,
            split as int,
        ));
        let name = match decode_name(buf, start + SETXATTR_IN_SIZE, split) {
            None => {
                return None;
            },
            Some(name) => name,
        };
        let mut value: Vec<u8> = Vec::new();
        push_bytes(&mut value, &buf[split..end]);
        assert(name@.push(0) + value@ =~= p.subrange(SETXATTR_IN_SIZE as int, p.len() as int));
        Some(Operation::Setxattr { ino: h.nodeid, name, value, flags: read_u32(buf, start + 4) })
    } else if op == FUSE_SYMLINK {
        match decode_two_names(buf, start, end) {
            None => None,
            Some((name, link)) => Some(Operation::Symlink { parent: h.nodeid, name, link }),
        }
    } else {
        if n < RENAME_IN_SIZE {
            return None;
        }
        assert(p.subrange(RENAME_IN_SIZE as int, p.len() as int) =~= buf@.subrange(
            start + RENAME_IN_SIZE,
            end as int,
        ));
        match decode_two_names(buf, start + RENAME_IN_SIZE, end) {
            None => None,
            Some((name, newname)) => Some(
                Operation::Rename {
                    parent: h.nodeid,
                    name,
                    newparent: read_u64(buf, start),
                    newname,
                    flags: 0,
                },
            ),
        }
    }
}

/// Reads the arguments of a request in their older layout.
fn decode_compat(h: InHeader, buf: &[u8], start: usize, end: usize) -> (r: Option<Operation>)
    requires
        start <= end <= buf@.len(),
        h.opcode == FUSE_GETATTR || h.opcode == FUSE_READ || h.opcode == FUSE_WRITE || h.opcode
            == FUSE_MKNOD || h.opcode == FUSE_MKDIR || h.opcode == FUSE_CREATE,
    ensures
        match r {
            Some(op) => well_formed_compat(h, buf@.subrange(start as int, end as int))
                && decodes_to_compat(h, buf@.subrange(start as int, end as int), op),
            None => !well_formed_compat(h, buf@.subrange(start as int, end as int)),
        },
{
    // Bounds the offsets below by the buffer's length, which fits in a usize.
    let total = buf.len();
    let ghost p = buf@.subrange(start as int, end as int);
    let n = end - start;
    let op = h.opcode;
    if op == FUSE_GETATTR {
        if n != 0 {
            None
        } else {
            Some(Operation::Getattr { ino: h.nodeid, fh: None })
        }
    } else if op == FUSE_READ {
        if n != COMPAT_READ_IN_SIZE {
            None
        } else {
            Some(
                Operation::Read {
                    ino: h.nodeid,
                    fh: read_u64(buf, start),
                    offset: read_u64(buf, start + 8),
                    size: read_u32(buf, start + 16),
                    flags: 0,
                    lock_owner: None,
                },
            )
        }
    } else if op == FUSE_WRITE {
        if n < COMPAT_WRITE_IN_SIZE {
            return None;
        }
        let size = read_u32(buf, start + 16);
        if n - COMPAT_WRITE_IN_SIZE != size as usize {
            return None;
        }
        let mut data: Vec<u8> = Vec::new();
        push_bytes(&mut data, &buf[start + COMPAT_WRITE_IN_SIZE..end]);
        assert(data@ =~= p.subrange(COMPAT_WRITE_IN_SIZE as int, p.len() as int));
        Some(
            Operation::Write {
                ino: h.nodeid,
                fh: read_u64(buf, start),
                offset: read_u64(buf, start + 8),
                data,
                size,
                flags: 0,
                lock_owner: None,
            },
        )
    } else {
        if n < COMPAT_CREATE_IN_SIZE {
            return None;
        }
        assert(p.subrange(COMPAT_CREATE_IN_SIZE as int, p.len() as int) =~= buf@.subrange(
            start + COMPAT_CREATE_IN_SIZE,
            end as int,
        ));
        let name = match decode_name(buf, start + COMPAT_CREATE_IN_SIZE, end) {
            None => {
                return None;
            },
            Some(name) => name,
        };
        let first = read_u32(buf, start);
        let second = read_u32(buf, start + 4);
        if op == FUSE_MKNOD {
            Some(Operation::Mknod { parent: h.nodeid, name, mode: first, rdev: second, umask: None })
        } else if op == FUSE_MKDIR {
            Some(Operation::Mkdir { parent: h.nodeid, name, mode: first, umask: None })
        } else {
            Some(
                Operation::Create {
                    parent: h.nodeid,
                    name,
                    mode: second,
                    umask: None,
                    open_flags: first,
                },
            )
        }
    }
}

/// Decodes the request at the start of `buf`, sent by a kernel speaking
/// minor version `minor`, into its header and operation.
pub fn decode(buf: &[u8], minor: u32) -> (r: Result<(InHeader, Operation), ProtocolError>)
    ensures
        match r {
            Ok((h, op)) => header_ok(buf@) && h == in_header_of(buf@) && accepts(
                h,
                args_of(buf@),
                minor,
            ) && denotes(h, args_of(buf@), minor, op),
            Err(e) => {
                &&& e == ProtocolError::ShortHeader <==> buf@.len() < IN_HEADER_SIZE
                &&& e == ProtocolError::BadLength <==> (buf@.len() >= IN_HEADER_SIZE
                    && !header_ok(buf@))
                &&& e == ProtocolError::Malformed <==> (header_ok(buf@) && !accepts(
                    in_header_of(buf@),
                    args_of(buf@),
                    minor,
                ))
            },
        },
{
    if buf.len() < IN_HEADER_SIZE {
        return Err(ProtocolError::ShortHeader);
    }
    let h = parse_in_header(buf);
    if (h.len as usize) < IN_HEADER_SIZE || (h.len as usize) > buf.len() {
        return Err(ProtocolError::BadLength);
    }
    let start = IN_HEADER_SIZE;
    let end = h.len as usize;
    let op = h.opcode;
    let compat = (minor < MINOR_WITH_FH_LAYOUTS && (op == FUSE_GETATTR || op == FUSE_READ || op
        == FUSE_WRITE)) || (minor < MINOR_WITH_UMASK && (op == FUSE_MKNOD || op == FUSE_MKDIR || op
        == FUSE_CREATE));
    let decoded: Option<Operation> = if compat {
        decode_compat(h, buf, start, end)
    } else if op == FUSE_LOOKUP || op == FUSE_UNLINK || op == FUSE_RMDIR
        || op == FUSE_REMOVEXATTR || op == FUSE_MKDIR || op == FUSE_LINK || op == FUSE_GETXATTR
        || op == FUSE_MKNOD || op == FUSE_CREATE {
        decode_named(h, buf, start, end)
    } else if op == FUSE_NOTIFY_REPLY || op == FUSE_WRITE || op == FUSE_SETXATTR || op
        == FUSE_SYMLINK || op == FUSE_RENAME {
        decode_data(h, buf, start, end)
    } else {
        decode_fixed(h, buf, start, end)
    };
    match decoded {
        Some(o) => Ok((h, o)),
        None => Err(ProtocolError::Malformed),
    }
}

/// The argument bytes that carry `op`, for the operations whose every argument
/// byte is held in the decoded value.
pub open spec fn args_bytes(op: Operation) -> Option<Seq<u8>> {
    match op {
        Operation::Lookup { name, .. } => Some(name@.push(0)),
        Operation::Unlink { name, .. } => Some(name@.push(0)),
        Operation::Rmdir { name, .. } => Some(name@.push(0)),
        Operation::Forget { nlookup, .. } => Some(le64(nlookup)),
        Operation::Interrupt { unique } => Some(le64(unique)),
        Operation::Init { major, minor, max_readahead, flags } => Some(
            le32(major) + le32(minor) + le32(max_readahead) + le32(flags),
        ),
        Operation::Readlink { .. } => Some(Seq::empty()),
        Operation::Statfs { .. } => Some(Seq::empty()),
        Operation::Destroy => Some(Seq::empty()),
        Operation::Removexattr { name, .. } => Some(name@.push(0)),
        Operation::Mkdir { name, mode, umask, .. } => match umask {
            Some(m) => Some(le32(mode) + le32(m) + name@.push(0)),
            None => None,
        },
        Operation::Link { ino, newname, .. } => Some(le64(ino) + newname@.push(0)),
        Operation::Symlink { name, link, .. } => Some(name@.push(0) + link@.push(0)),
        Operation::Rename { newparent, name, newname, .. } => Some(
            le64(newparent) + name@.push(0) + newname@.push(0),
        ),
        Operation::Setxattr { name, value, flags, .. } => if value@.len() <= u32::MAX {
            Some(le32(value@.len() as u32) + le32(flags) + name@.push(0) + value@)
        } else {
            None
        },
        _ => None,
    }
}

/// Encodes the arguments of `op` as the kernel lays them out, for the
/// operations that `args_bytes` covers.
pub fn encode_args(op: &Operation) -> (r: Option<Vec<u8>>)
    ensures
        match args_bytes(*op) {
            Some(b) => r is Some && r.unwrap()@ == b,
            None => r is None,
        },
{
    let mut out: Vec<u8> = Vec::new();
    match op {
        Operation::Lookup { name, .. } | Operation::Unlink { name, .. } | Operation::Rmdir {
            name,
            ..
        } => {
            out = name.clone();
            out.push(0);
        },
        Operation::Forget { nlookup, .. } => push_u64(&mut out, *nlookup),
        Operation::Interrupt { unique } => push_u64(&mut out, *unique),
        Operation::Init { major, minor, max_readahead, flags } => {
            push_u32(&mut out, *major);
            push_u32(&mut out, *minor);
            push_u32(&mut out, *max_readahead);
            push_u32(&mut out, *flags);
            assert(out@ =~= le32(*major) + le32(*minor) + le32(*max_readahead) + le32(*flags));
        },
        Operation::Readlink { .. } | Operation::Statfs { .. } | Operation::Destroy => {
            assert(out@ =~= Seq::<u8>::empty());
        },
        Operation::Removexattr { name, .. } => {
            out = name.clone();
            out.push(0);
        },
        Operation::Mkdir { name, mode, umask, .. } => {
            match umask {
                Some(m) => {
                    push_u32(&mut out, *mode);
                    push_u32(&mut out, *m);
                    push_bytes(&mut out, name.as_slice());
                    out.push(0);
                    assert(out@ =~= le32(*mode) + le32(*m) + name@.push(0));
                },
                None => {
                    return None;
                },
            }
        },
        Operation::Link { ino, newname, .. } => {
            push_u64(&mut out, *ino);
            push_bytes(&mut out, newname.as_slice());
            out.push(0);
            assert(out@ =~= le64(*ino) + newname@.push(0));
        },
        Operation::Symlink { name, link, .. } => {
            push_bytes(&mut out, name.as_slice());
            out.push(0);
            push_bytes(&mut out, link.as_slice());
            out.push(0);
            assert(out@ =~= name@.push(0) + link@.push(0));
        },
        Operation::Rename { newparent, name, newname, .. } => {
            push_u64(&mut out, *newparent);
            push_bytes(&mut out, name.as_slice());
            out.push(0);
            push_bytes(&mut out, newname.as_slice());
            out.push(0);
            assert(out@ =~= le64(*newparent) + name@.push(0) + newname@.push(0));
        },
        Operation::Setxattr { name, value, flags, .. } => {
            if value.len() > u32::MAX as usize {
                return None;
            }
            push_u32(&mut out, value.len() as u32);
            push_u32(&mut out, *flags);
            push_bytes(&mut out, name.as_slice());
            out.push(0);
            push_bytes(&mut out, value.as_slice());
            assert(out@ =~= le32(value@.len() as u32) + le32(*flags) + name@.push(0) + value@);
        },
        _ => {
            return None;
        },
    }
    Some(out)
}

/// Decoding then re-encoding gives back the argument bytes, for every
/// operation whose arguments the decoded value holds in full.
pub proof fn lemma_args_round_trip(h: InHeader, p: Seq<u8>, op: Operation)
    requires
        well_formed(h, p),
        decodes_to(h, p, op),
        args_bytes(op) is Some,
    ensures
        args_bytes(op) == Some(p),
{
    match op {
        Operation::Lookup { name, .. } | Operation::Unlink { name, .. } | Operation::Rmdir {
            name,
            ..
        } => {
            assert(name@.push(0) =~= p);
        },
        Operation::Forget { nlookup, .. } => {
            lemma_le64_of_bytes(p, 0);
            assert(p.subrange(0, 8) =~= p);
        },
        Operation::Interrupt { unique } => {
            lemma_le64_of_bytes(p, 0);
            assert(p.subrange(0, 8) =~= p);
        },
        Operation::Init { major, minor, max_readahead, flags } => {
            lemma_le32_of_bytes(p, 0);
            lemma_le32_of_bytes(p, 4);
            lemma_le32_of_bytes(p, 8);
            lemma_le32_of_bytes(p, 12);
            assert(le32(major) + le32(minor) + le32(max_readahead) + le32(flags) =~= p);
        },
        Operation::Removexattr { name, .. } => {
            assert(name@.push(0) =~= p);
        },
        Operation::Mkdir { name, mode, umask, .. } => {
            lemma_le32_of_bytes(p, 0);
            lemma_le32_of_bytes(p, 4);
            assert(le32(mode) + le32(umask.unwrap()) + name@.push(0) =~= p);
        },
        Operation::Link { ino, newname, .. } => {
            lemma_le64_of_bytes(p, 0);
            assert(le64(ino) + newname@.push(0) =~= p);
        },
        Operation::Symlink { name, link, .. } => {},
        Operation::Rename { newparent, name, newname, .. } => {
            lemma_le64_of_bytes(p, 0);
            let q = p.subrange(8, p.len() as int);
            assert(q == name@.push(0) + newname@.push(0));
            assert(p =~= p.subrange(0, 8) + q);
            assert(le64(newparent) + name@.push(0) + newname@.push(0) =~= p);
        },
        Operation::Setxattr { name, value, flags, .. } => {
            lemma_le32_of_bytes(p, 0);
            lemma_le32_of_bytes(p, 4);
            let q = p.subrange(8, p.len() as int);
            assert(q == name@.push(0) + value@);
            assert(value@.len() as u32 == u32_at(p, 0));
            assert(p =~= p.subrange(0, 4) + p.subrange(4, 8) + q);
            assert(le32(value@.len() as u32) + le32(flags) + name@.push(0) + value@ =~= p);
        },
        Operation::Readlink { .. } | Operation::Statfs { .. } | Operation::Destroy => {
            assert(p =~= Seq::<u8>::empty());
        },
        _ => {},
    }
}

/// A decoded request's re-encoded arguments are the bytes it was decoded from.
pub proof fn lemma_decode_round_trip(buf: Seq<u8>, minor: u32, h: InHeader, op: Operation)
    requires
        header_ok(buf),
        h == in_header_of(buf),
        accepts(h, args_of(buf), minor),
        denotes(h, args_of(buf), minor, op),
        args_bytes(op) is Some,
    ensures
        args_bytes(op) == Some(buf.subrange(IN_HEADER_SIZE as int, h.len as int)),
{
    lemma_args_round_trip(h, args_of(buf), op);
}

/// In a decoded `SETATTR`, each optional field is present exactly when its
/// bit is set in the request's `valid` mask.
pub proof fn lemma_setattr_follows_mask(ino: u64, p: Seq<u8>)
    requires
        p.len() == SETATTR_IN_SIZE,
    ensures
        ({
            let valid = u32_at(p, 0);
            match setattr_of(ino, p) {
                Operation::Setattr { fh, mode, uid, gid, size, atime, mtime, ctime, lock_owner, .. } => {
                    &&& (fh is Some <==> valid & FATTR_FH != 0)
                    &&& (mode is Some <==> valid & FATTR_MODE != 0)
                    &&& (uid is Some <==> valid & FATTR_UID != 0)
                    &&& (gid is Some <==> valid & FATTR_GID != 0)
                    &&& (size is Some <==> valid & FATTR_SIZE != 0)
                    &&& (atime is Some <==> valid & FATTR_ATIME != 0)
                    &&& (mtime is Some <==> valid & FATTR_MTIME != 0)
                    &&& (ctime is Some <==> valid & FATTR_CTIME != 0)
                    &&& (lock_owner is Some <==> valid & FATTR_LOCKOWNER != 0)
                },
                _ => false,
            }
        }),
{
}

} // verus!
