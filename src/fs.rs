//! Request context, reply framing and the attribute records that replies carry.
use vstd::prelude::*;

use crate::wire::{le32, le64, push_bytes, push_u32, push_u64, read_u32, read_u64, u32_at, u64_at};
use crate::wire::{
    lemma_le32_of_bytes, lemma_le64_of_bytes, lemma_u32_round_trip, lemma_u64_round_trip,
    IN_HEADER_SIZE, OUT_HEADER_SIZE,
};

verus! {

/// The fixed prefix of every message from the kernel.
#[derive(Clone, Copy, Debug, PartialEq, Eq)]
pub struct InHeader {
    pub len: u32,
    pub opcode: u32,
    pub unique: u64,
    pub nodeid: u64,
    pub uid: u32,
    pub gid: u32,
    pub pid: u32,
}

/// The header stored in the first forty bytes of `s`.
pub open spec fn in_header_of(s: Seq<u8>) -> InHeader {
    InHeader {
        len: u32_at(s, 0),
        opcode: u32_at(s, 4),
        unique: u64_at(s, 8),
        nodeid: u64_at(s, 16),
        uid: u32_at(s, 24),
        gid: u32_at(s, 28),
        pid: u32_at(s, 32),
    }
}

/// Reads the header at the start of `buf`.
pub fn parse_in_header(buf: &[u8]) -> (r: InHeader)
    requires
        buf@.len() >= IN_HEADER_SIZE,
    ensures
        r == in_header_of(buf@),
{
    InHeader {
        len: read_u32(buf, 0),
        opcode: read_u32(buf, 4),
        unique: read_u64(buf, 8),
        nodeid: read_u64(buf, 16),
        uid: read_u32(buf, 24),
        gid: read_u32(buf, 28),
        pid: read_u32(buf, 32),
    }
}

/// The bytes of an out-header: total length, error and the correlating unique.
pub open spec fn out_header_bytes(len: u32, error: i32, unique: u64) -> Seq<u8> {
    le32(len) + le32(error as u32) + le64(unique)
}

/// The concatenation of a list of byte strings.
pub open spec fn concat(parts: Seq<Seq<u8>>) -> Seq<u8>
    decreases parts.len(),
{
    if parts.len() == 0 {
        Seq::empty()
    } else {
        concat(parts.drop_last()) + parts.last()
    }
}

/// The views of a list of byte vectors.
pub open spec fn views(data: Seq<Vec<u8>>) -> Seq<Seq<u8>> {
    data.map_values(|v: Vec<u8>| v@)
}

/// Whether a payload of `n` bytes fits in one framed message.
pub open spec fn fits_frame(n: nat) -> bool {
    n + OUT_HEADER_SIZE <= u32::MAX
}

/// A complete message: out-header followed by the payload, with the length
/// field covering both.
pub open spec fn message_bytes(unique: u64, error: i32, payload: Seq<u8>) -> Seq<u8> {
    out_header_bytes((payload.len() + OUT_HEADER_SIZE) as u32, error, unique) + payload
}

/// Every framed message states its own length and carries the unique and
/// error code it was framed with, the payload following the sixteen header bytes.
pub proof fn lemma_message_framing(unique: u64, error: i32, payload: Seq<u8>)
    requires
        fits_frame(payload.len()),
    ensures
        ({
            let m = message_bytes(unique, error, payload);
            &&& m.len() == OUT_HEADER_SIZE + payload.len()
            &&& u32_at(m, 0) as nat == m.len()
            &&& u32_at(m, 4) == error as u32
            &&& u64_at(m, 8) == unique
            &&& m.subrange(OUT_HEADER_SIZE as int, m.len() as int) == payload
        }),
{
    let len = (payload.len() + OUT_HEADER_SIZE) as u32;
    let m = message_bytes(unique, error, payload);
    lemma_u32_round_trip(len);
    lemma_u32_round_trip(error as u32);
    lemma_u64_round_trip(unique);
    assert(m.subrange(0, 4) =~= le32(len));
    assert(m.subrange(4, 8) =~= le32(error as u32));
    assert(m.subrange(8, 16) =~= le64(unique));
    assert(u32_at(m, 0) == u32_at(m.subrange(0, 4), 0));
    assert(u32_at(m, 4) == u32_at(m.subrange(4, 8), 0));
    assert(u32_at(m, 8) == u32_at(m.subrange(8, 16), 0));
    assert(u32_at(m, 12) == u32_at(m.subrange(8, 16), 4));
    assert(m.subrange(OUT_HEADER_SIZE as int, m.len() as int) =~= payload);
}

/// Appends an out-header.
pub fn push_out_header(out: &mut Vec<u8>, len: u32, error: i32, unique: u64)
    ensures
        final(out)@ == old(out)@ + out_header_bytes(len, error, unique),
{
    push_u32(out, len);
    push_u32(out, error as u32);
    push_u64(out, unique);
    assert(final(out)@ =~= old(out)@ + out_header_bytes(len, error, unique));
}

/// Frames `payload` as one message.
pub fn frame_message(unique: u64, error: i32, payload: &[u8]) -> (r: Vec<u8>)
    requires
        fits_frame(payload@.len()),
    ensures
        r@ == message_bytes(unique, error, payload@),
{
    let mut out: Vec<u8> = Vec::new();
    push_out_header(&mut out, (payload.len() + OUT_HEADER_SIZE) as u32, error, unique);
    push_bytes(&mut out, payload);
    out
}

/// Why a reply could not be framed.
#[derive(Clone, Copy, Debug, PartialEq, Eq)]
pub enum ReplyError {
    /// Header and payload together exceed what the length field can express.
    TooLong,
}

/// Contextual information about an incoming request.
#[derive(Clone, Copy, Debug)]
pub struct Context {
    header: InHeader,
}

impl Context {
    pub closed spec fn header(&self) -> InHeader {
        self.header
    }

    pub fn new(header: InHeader) -> (r: Self)
        ensures
            r.header() == header,
    {
        Context { header }
    }

    /// Return the user ID of the calling process.
    pub fn uid(&self) -> (r: u32)
        ensures
            r == self.header().uid,
    {
        self.header.uid
    }

    /// Return the group ID of the calling process.
    pub fn gid(&self) -> (r: u32)
        ensures
            r == self.header().gid,
    {
        self.header.gid
    }

    /// Return the process ID of the calling process.
    pub fn pid(&self) -> (r: u32)
        ensures
            r == self.header().pid,
    {
        self.header.pid
    }

    /// Return the unique of the request, which its reply carries.
    pub fn unique(&self) -> (r: u64)
        ensures
            r == self.header().unique,
    {
        self.header.unique
    }

    /// The reply that reports `error` (an errno) to the kernel: a bare header
    /// whose error field is `-error`.
    pub fn reply_err(&self, error: i32) -> (r: Vec<u8>)
        requires
            error >= 0,
        ensures
            r@ == message_bytes(self.header().unique, -error as i32, Seq::empty()),
    {
        let empty: Vec<u8> = Vec::new();
        frame_message(self.header.unique, -error, empty.as_slice())
    }

    /// The reply carrying `data`, concatenated, after a header with the error
    /// code `-error`; refused when the whole message does not fit its length field.
    pub fn send_reply(&self, error: i32, data: &[Vec<u8>]) -> (r: Result<Vec<u8>, ReplyError>)
        requires
            error >= 0,
        ensures
            match r {
                Ok(v) => fits_frame(concat(views(data@)).len()) && v@ == message_bytes(
                    self.header().unique,
                    -error as i32,
                    concat(views(data@)),
                ),
                Err(e) => !fits_frame(concat(views(data@)).len()) && e == ReplyError::TooLong,
            },
    {
        let mut payload: Vec<u8> = Vec::new();
        let mut i: usize = 0;
        let limit: usize = (u32::MAX as usize) - OUT_HEADER_SIZE;
        while i < data.len()
            invariant
                i <= data@.len(),
                limit == u32::MAX - OUT_HEADER_SIZE,
                payload@ == concat(views(data@.subrange(0, i as int))),
                payload@.len() <= limit,
            decreases data@.len() - i,
        {
            let ghost before = payload@;
            if data[i].len() > limit - payload.len() {
                proof {
                    self.lemma_concat_grows(data@, i as int, data@.len() as int);
                    assert(data@.subrange(0, data@.len() as int) =~= data@);
                }
                return Err(ReplyError::TooLong);
            }
            push_bytes(&mut payload, data[i].as_slice());
            assert(views(data@.subrange(0, i + 1)).drop_last() =~= views(
                data@.subrange(0, i as int),
            ));
            i = i + 1;
        }
        assert(data@.subrange(0, i as int) =~= data@);
        Ok(frame_message(self.header.unique, -error, payload.as_slice()))
    }

    proof fn lemma_concat_grows(&self, data: Seq<Vec<u8>>, i: int, j: int)
        requires
            0 <= i < j <= data.len(),
        ensures
            concat(views(data.subrange(0, j))).len() >= concat(views(data.subrange(0, i))).len()
                + data[i]@.len(),
        decreases j - i,
    {
        assert(views(data.subrange(0, j)).drop_last() =~= views(data.subrange(0, j - 1)));
        if j - 1 > i {
            self.lemma_concat_grows(data, i, j - 1);
        }
    }
}

/// The fields of an OS `stat` record that a file attribute is made from.
#[derive(Clone, Copy, Debug, PartialEq, Eq, Default)]
pub struct Stat {
    pub ino: u64,
    pub mode: u32,
    pub nlink: u64,
    pub uid: u32,
    pub gid: u32,
    pub rdev: u64,
    pub size: i64,
    pub blksize: i64,
    pub blocks: i64,
    pub atime: i64,
    pub atime_nsec: i64,
    pub mtime: i64,
    pub mtime_nsec: i64,
    pub ctime: i64,
    pub ctime_nsec: i64,
}

/// Why a `stat` record could not become a file attribute.
#[derive(Clone, Copy, Debug, PartialEq, Eq)]
pub enum AttrError {
    /// A field does not fit the width that the protocol gives it.
    InvalidInput,
}

/// File attributes as the kernel's `fuse_attr` record holds them.
#[derive(Clone, Copy, Debug, PartialEq, Eq, Default)]
pub struct FileAttr {
    pub ino: u64,
    pub size: u64,
    pub blocks: u64,
    pub atime: u64,
    pub mtime: u64,
    pub ctime: u64,
    pub atimensec: u32,
    pub mtimensec: u32,
    pub ctimensec: u32,
    pub mode: u32,
    pub nlink: u32,
    pub uid: u32,
    pub gid: u32,
    pub rdev: u32,
    pub blksize: u32,
}

/// Whether a signed field fits an unsigned 64-bit one.
pub open spec fn fits_u64(v: i64) -> bool {
    v >= 0
}

/// Whether a signed field fits an unsigned 32-bit one.
pub open spec fn fits_u32(v: i64) -> bool {
    0 <= v <= u32::MAX
}

/// Whether every field of `st` fits its place in a file attribute.
pub open spec fn stat_fits(st: Stat) -> bool {
    &&& st.nlink <= u32::MAX
    &&& st.rdev <= u32::MAX
    &&& fits_u64(st.size)
    &&& fits_u64(st.blocks)
    &&& fits_u32(st.blksize)
    &&& fits_u64(st.atime)
    &&& fits_u64(st.mtime)
    &&& fits_u64(st.ctime)
    &&& fits_u32(st.atime_nsec)
    &&& fits_u32(st.mtime_nsec)
    &&& fits_u32(st.ctime_nsec)
}

/// The file attribute that `st` becomes when every field fits.
pub open spec fn attr_of_stat(st: Stat) -> FileAttr {
    FileAttr {
        ino: st.ino,
        size: st.size as u64,
        blocks: st.blocks as u64,
        atime: st.atime as u64,
        mtime: st.mtime as u64,
        ctime: st.ctime as u64,
        atimensec: st.atime_nsec as u32,
        mtimensec: st.mtime_nsec as u32,
        ctimensec: st.ctime_nsec as u32,
        mode: st.mode,
        nlink: st.nlink as u32,
        uid: st.uid,
        gid: st.gid,
        rdev: st.rdev as u32,
        blksize: st.blksize as u32,
    }
}

/// The 88 bytes of a `fuse_attr` record.
pub open spec fn attr_bytes(a: FileAttr) -> Seq<u8> {
    le64(a.ino) + le64(a.size) + le64(a.blocks) + le64(a.atime) + le64(a.mtime) + le64(a.ctime)
        + le32(a.atimensec) + le32(a.mtimensec) + le32(a.ctimensec) + le32(a.mode) + le32(a.nlink)
        + le32(a.uid) + le32(a.gid) + le32(a.rdev) + le32(a.blksize) + le32(0)
}

/// The payload of an entry reply: node id, generation, entry and attribute
/// validity (seconds, then nanoseconds), and the attributes.
pub open spec fn entry_bytes(
    generation: u64,
    entry_valid: u64,
    entry_valid_nsec: u32,
    attr_valid: u64,
    attr_valid_nsec: u32,
    a: FileAttr,
) -> Seq<u8> {
    le64(a.ino) + le64(generation) + le64(entry_valid) + le64(attr_valid) + le32(
        entry_valid_nsec,
    ) + le32(attr_valid_nsec) + attr_bytes(a)
}

/// The payload of an attribute reply: validity and the attributes.
pub open spec fn attr_out_bytes(attr_valid: u64, attr_valid_nsec: u32, a: FileAttr) -> Seq<u8> {
    le64(attr_valid) + le32(attr_valid_nsec) + le32(0) + attr_bytes(a)
}

impl FileAttr {
    /// Converts an OS `stat` record, refusing one with a field that does not fit.
    pub fn try_from(st: Stat) -> (r: Result<FileAttr, AttrError>)
        ensures
            match r {
                Ok(a) => stat_fits(st) && a == attr_of_stat(st),
                Err(e) => !stat_fits(st) && e == AttrError::InvalidInput,
            },
    {
        if st.nlink > u32::MAX as u64 || st.rdev > u32::MAX as u64 || st.size < 0 || st.blocks < 0
            || st.blksize < 0 || st.blksize > u32::MAX as i64 || st.atime < 0 || st.mtime < 0
            || st.ctime < 0 || st.atime_nsec < 0 || st.atime_nsec > u32::MAX as i64
            || st.mtime_nsec < 0 || st.mtime_nsec > u32::MAX as i64 || st.ctime_nsec < 0
            || st.ctime_nsec > u32::MAX as i64 {
            return Err(AttrError::InvalidInput);
        }
        Ok(
            FileAttr {
                ino: st.ino,
                size: st.size as u64,
                blocks: st.blocks as u64,
                atime: st.atime as u64,
                mtime: st.mtime as u64,
                ctime: st.ctime as u64,
                atimensec: st.atime_nsec as u32,
                mtimensec: st.mtime_nsec as u32,
                ctimensec: st.ctime_nsec as u32,
                mode: st.mode,
                nlink: st.nlink as u32,
                uid: st.uid,
                gid: st.gid,
                rdev: st.rdev as u32,
                blksize: st.blksize as u32,
            },
        )
    }

    /// Appends the `fuse_attr` record.
    pub fn push_bytes(&self, out: &mut Vec<u8>)
        ensures
            final(out)@ == old(out)@ + attr_bytes(*self),
    {
        push_u64(out, self.ino);
        push_u64(out, self.size);
        push_u64(out, self.blocks);
        push_u64(out, self.atime);
        push_u64(out, self.mtime);
        push_u64(out, self.ctime);
        push_u32(out, self.atimensec);
        push_u32(out, self.mtimensec);
        push_u32(out, self.ctimensec);
        push_u32(out, self.mode);
        push_u32(out, self.nlink);
        push_u32(out, self.uid);
        push_u32(out, self.gid);
        push_u32(out, self.rdev);
        push_u32(out, self.blksize);
        push_u32(out, 0);
        assert(final(out)@ =~= old(out)@ + attr_bytes(*self));
    }
}

/// The payload of a successful lookup: the entry and its attributes, with
/// their validity periods.
pub fn entry_out(
    attr: &FileAttr,
    generation: u64,
    entry_valid: u64,
    entry_valid_nsec: u32,
    attr_valid: u64,
    attr_valid_nsec: u32,
) -> (r: Vec<u8>)
    ensures
        r@ == entry_bytes(generation, entry_valid, entry_valid_nsec, attr_valid, attr_valid_nsec, *attr),
{
    let mut out: Vec<u8> = Vec::new();
    push_u64(&mut out, attr.ino);
    push_u64(&mut out, generation);
    push_u64(&mut out, entry_valid);
    push_u64(&mut out, attr_valid);
    push_u32(&mut out, entry_valid_nsec);
    push_u32(&mut out, attr_valid_nsec);
    attr.push_bytes(&mut out);
    assert(out@ =~= entry_bytes(generation, entry_valid, entry_valid_nsec, attr_valid, attr_valid_nsec, *attr));
    out
}

/// The payload of an attribute reply.
pub fn attr_out(attr: &FileAttr, attr_valid: u64, attr_valid_nsec: u32) -> (r: Vec<u8>)
    ensures
        r@ == attr_out_bytes(attr_valid, attr_valid_nsec, *attr),
{
    let mut out: Vec<u8> = Vec::new();
    push_u64(&mut out, attr_valid);
    push_u32(&mut out, attr_valid_nsec);
    push_u32(&mut out, 0);
    attr.push_bytes(&mut out);
    assert(out@ =~= attr_out_bytes(attr_valid, attr_valid_nsec, *attr));
    out
}

/// Filesystem statistics as the kernel's `fuse_kstatfs` record holds them.
#[derive(Clone, Copy, Debug, PartialEq, Eq, Default)]
pub struct FsStatistics {
    pub blocks: u64,
    pub bfree: u64,
    pub bavail: u64,
    pub files: u64,
    pub ffree: u64,
    pub bsize: u32,
    pub namelen: u32,
    pub frsize: u32,
}

/// The 80 bytes of a `fuse_kstatfs` record.
pub open spec fn statfs_bytes(st: FsStatistics) -> Seq<u8> {
    le64(st.blocks) + le64(st.bfree) + le64(st.bavail) + le64(st.files) + le64(st.ffree) + le32(
        st.bsize,
    ) + le32(st.namelen) + le32(st.frsize) + Seq::new(28, |i: int| 0u8)
}

impl FsStatistics {
    /// The payload of a statfs reply.
    pub fn to_bytes(&self) -> (r: Vec<u8>)
        ensures
            r@ == statfs_bytes(*self),
    {
        let mut out: Vec<u8> = Vec::new();
        push_u64(&mut out, self.blocks);
        push_u64(&mut out, self.bfree);
        push_u64(&mut out, self.bavail);
        push_u64(&mut out, self.files);
        push_u64(&mut out, self.ffree);
        push_u32(&mut out, self.bsize);
        push_u32(&mut out, self.namelen);
        push_u32(&mut out, self.frsize);
        let ghost head = out@;
        let mut i: usize = 0;
        while i < 28
            invariant
                i <= 28,
                out@ == head + Seq::new(i as nat, |k: int| 0u8),
            decreases 28 - i,
        {
            out.push(0);
            i = i + 1;
            assert(out@ =~= head + Seq::new(i as nat, |k: int| 0u8));
        }
        assert(out@ =~= statfs_bytes(*self));
        out
    }
}

/// A POSIX file lock as the kernel's `fuse_file_lock` record holds it.
#[derive(Clone, Copy, Debug, PartialEq, Eq, Default)]
pub struct FileLock {
    pub start: u64,
    pub end: u64,
    pub typ: u32,
    pub pid: u32,
}

/// The 24 bytes of a `fuse_file_lock` record.
pub open spec fn lock_bytes(lk: FileLock) -> Seq<u8> {
    le64(lk.start) + le64(lk.end) + le32(lk.typ) + le32(lk.pid)
}

impl FileLock {
    /// Reads the `fuse_file_lock` record at `off`.
    pub fn new(buf: &[u8], off: usize) -> (r: FileLock)
        requires
            off + 24 <= buf@.len(),
        ensures
            lock_bytes(r) == buf@.subrange(off as int, off + 24),
    {
        // Bounds the offsets below by the buffer's length, which fits in a usize.
        let total = buf.len();
        assert(off + 24 <= total);
        let r = FileLock {
            start: read_u64(buf, off),
            end: read_u64(buf, off + 8),
            typ: read_u32(buf, off + 16),
            pid: read_u32(buf, off + 20),
        };
        proof {
            lemma_le64_of_bytes(buf@, off as int);
            lemma_le64_of_bytes(buf@, off + 8);
            lemma_le32_of_bytes(buf@, off + 16);
            lemma_le32_of_bytes(buf@, off + 20);
            assert(lock_bytes(r) =~= buf@.subrange(off as int, off + 24));
        }
        r
    }

    /// The payload of a lock reply.
    pub fn to_bytes(&self) -> (r: Vec<u8>)
        ensures
            r@ == lock_bytes(*self),
    {
        let mut out: Vec<u8> = Vec::new();
        push_u64(&mut out, self.start);
        push_u64(&mut out, self.end);
        push_u32(&mut out, self.typ);
        push_u32(&mut out, self.pid);
        assert(out@ =~= lock_bytes(*self));
        out
    }
}

} // verus!
