//! Payloads of the replies that carry data: directory entries, extended
//! attributes and the small fixed records.
use vstd::prelude::*;

use crate::fs::concat;
use crate::wire::{le32, le64, push_bytes, push_u32, push_u64};

verus! {

pub const ERANGE: i32 = 34;
/// Size of the fixed part of a directory entry.
pub const DIRENT_HEADER_SIZE: usize = 24;

/// One entry of a directory listing.
#[derive(Clone, Debug)]
pub struct DirEntry {
    pub ino: u64,
    /// Cookie that the kernel passes back as the next listing's offset.
    pub off: u64,
    /// File type, as the `d_type` of `readdir(3)`.
    pub typ: u32,
    pub name: Vec<u8>,
}

/// How many zero bytes bring `n` to a multiple of eight.
pub open spec fn pad8(n: nat) -> nat {
    ((8 - (n % 8)) % 8) as nat
}

/// The packed bytes of an entry: inode, cookie, name length, type, name and
/// padding to eight bytes.
pub open spec fn dirent_bytes(e: DirEntry) -> Seq<u8> {
    le64(e.ino) + le64(e.off) + le32(e.name@.len() as u32) + le32(e.typ) + e.name@ + Seq::new(
        pad8(e.name@.len()),
        |i: int| 0u8,
    )
}

/// The packed bytes of each entry.
pub open spec fn dirents(es: Seq<DirEntry>) -> Seq<Seq<u8>> {
    es.map_values(|e: DirEntry| dirent_bytes(e))
}

/// Whether every entry's name length fits its 32-bit field.
pub open spec fn names_fit(es: Seq<DirEntry>) -> bool {
    forall|i: int| 0 <= i < es.len() ==> #[trigger] es[i].name@.len() <= u32::MAX
}

impl DirEntry {
    /// Appends the packed entry.
    pub fn push_bytes(&self, out: &mut Vec<u8>)
        requires
            self.name@.len() <= u32::MAX,
        ensures
            final(out)@ == old(out)@ + dirent_bytes(*self),
    {
        push_u64(out, self.ino);
        push_u64(out, self.off);
        push_u32(out, self.name.len() as u32);
        push_u32(out, self.typ);
        push_bytes(out, self.name.as_slice());
        let ghost head = out@;
        let pad: usize = (8 - self.name.len() % 8) % 8;
        let mut i: usize = 0;
        while i < pad
            invariant
                i <= pad,
                pad == pad8(self.name@.len()),
                out@ == head + Seq::new(i as nat, |k: int| 0u8),
            decreases pad - i,
        {
            out.push(0);
            i = i + 1;
            assert(out@ =~= head + Seq::new(i as nat, |k: int| 0u8));
        }
        assert(final(out)@ =~= old(out)@ + dirent_bytes(*self));
    }
}

/// Packs the longest run of leading entries that fits in `size` bytes, as a
/// directory listing of that size carries them.
pub fn pack_dirents(entries: &[DirEntry], size: u32) -> (r: Vec<u8>)
    requires
        names_fit(entries@),
    ensures
        exists|k: int|
            0 <= k <= entries@.len() && r@ == concat(dirents(entries@.subrange(0, k))) && r@.len()
                <= size && (k == entries@.len() || r@.len() + dirent_bytes(entries@[k]).len()
                > size),
{
    let mut out: Vec<u8> = Vec::new();
    let mut i: usize = 0;
    while i < entries.len()
        invariant
            i <= entries@.len(),
            names_fit(entries@),
            out@ == concat(dirents(entries@.subrange(0, i as int))),
            out@.len() <= size,
        decreases entries@.len() - i,
    {
        let e = &entries[i];
        assert(e.name@.len() <= u32::MAX);
        let need: u64 = 24 + e.name.len() as u64 + ((8 - e.name.len() % 8) % 8) as u64;
        assert(need == dirent_bytes(*e).len());
        if need > (size as u64) - (out.len() as u64) {
            return out;
        }
        e.push_bytes(&mut out);
        assert(dirents(entries@.subrange(0, i + 1)).drop_last() =~= dirents(
            entries@.subrange(0, i as int),
        ));
        i = i + 1;
    }
    assert(entries@.subrange(0, i as int) =~= entries@);
    out
}

/// The outcome of an extended-attribute reply.
#[derive(Clone, Debug, PartialEq, Eq)]
pub enum XattrReply {
    /// Reply with these bytes.
    Data(Vec<u8>),
    /// Reply with this error code.
    Error(i32),
}

/// The payload that reports the length of a value when the request's size is zero.
pub open spec fn xattr_size_bytes(n: u32) -> Seq<u8> {
    le32(n) + le32(0)
}

/// Answers a get or list of extended attributes whose value is `value`: a zero
/// `size` asks for the value's length only; a value longer than `size` is `ERANGE`.
pub fn reply_xattr(size: u32, value: &[u8]) -> (r: XattrReply)
    ensures
        size == 0 && value@.len() <= u32::MAX ==> (r matches XattrReply::Data(v) && v@
            == xattr_size_bytes(value@.len() as u32)),
        size == 0 && value@.len() > u32::MAX ==> r == XattrReply::Error(ERANGE),
        size != 0 && value@.len() <= size ==> (r matches XattrReply::Data(v) && v@ == value@),
        size != 0 && value@.len() > size ==> r == XattrReply::Error(ERANGE),
{
    if size == 0 {
        if value.len() > u32::MAX as usize {
            return XattrReply::Error(ERANGE);
        }
        let mut out: Vec<u8> = Vec::new();
        push_u32(&mut out, value.len() as u32);
        push_u32(&mut out, 0);
        assert(out@ =~= xattr_size_bytes(value@.len() as u32));
        XattrReply::Data(out)
    } else if value.len() > size as usize {
        XattrReply::Error(ERANGE)
    } else {
        let mut out: Vec<u8> = Vec::new();
        push_bytes(&mut out, value);
        assert(out@ =~= value@);
        XattrReply::Data(out)
    }
}

/// The `fuse_open_out` record: file handle, open flags and padding.
pub open spec fn open_out_bytes(fh: u64, open_flags: u32) -> Seq<u8> {
    le64(fh) + le32(open_flags) + le32(0)
}

/// The payload of an open reply.
pub fn open_out(fh: u64, open_flags: u32) -> (r: Vec<u8>)
    ensures
        r@ == open_out_bytes(fh, open_flags),
{
    let mut out: Vec<u8> = Vec::new();
    push_u64(&mut out, fh);
    push_u32(&mut out, open_flags);
    push_u32(&mut out, 0);
    assert(out@ =~= open_out_bytes(fh, open_flags));
    out
}

/// The payload of a write reply: how many bytes were written, and padding.
pub fn write_out(size: u32) -> (r: Vec<u8>)
    ensures
        r@ == le32(size) + le32(0),
{
    let mut out: Vec<u8> = Vec::new();
    push_u32(&mut out, size);
    push_u32(&mut out, 0);
    assert(out@ =~= le32(size) + le32(0));
    out
}

/// The payload of a bmap reply: the block index on the device.
pub fn bmap_out(block: u64) -> (r: Vec<u8>)
    ensures
        r@ == le64(block),
{
    let mut out: Vec<u8> = Vec::new();
    push_u64(&mut out, block);
    assert(out@ =~= le64(block));
    out
}

} // verus!
