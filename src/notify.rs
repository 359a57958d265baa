//! Unsolicited messages from the daemon to the kernel.
use vstd::prelude::*;

use crate::fs::{fits_frame, frame_message, lemma_message_framing, message_bytes, ReplyError};
use crate::wire::{le32, le64, push_bytes, push_u32, push_u64, u64_at, OUT_HEADER_SIZE};

verus! {

/// Error codes that mark a message as a notification of the given kind.
pub const NOTIFY_POLL: i32 = -1;
pub const NOTIFY_INVAL_INODE: i32 = -2;
pub const NOTIFY_INVAL_ENTRY: i32 = -3;
pub const NOTIFY_STORE: i32 = -4;
pub const NOTIFY_RETRIEVE: i32 = -5;
pub const NOTIFY_DELETE: i32 = -6;

/// A notification: a message with unique zero whose error field is its code.
pub open spec fn notification(code: i32, payload: Seq<u8>) -> Seq<u8> {
    message_bytes(0, code, payload)
}

/// Every notification carries unique zero and its code in the error field.
pub proof fn lemma_notification_unique_zero(code: i32, payload: Seq<u8>)
    requires
        fits_frame(payload.len()),
    ensures
        u64_at(notification(code, payload), 8) == 0,
        crate::wire::u32_at(notification(code, payload), 4) == code as u32,
{
    lemma_message_framing(0, code, payload);
}

/// The payload of an entry invalidation: parent, name length, padding, the
/// name and its NUL.
pub open spec fn inval_entry_payload(parent: u64, name: Seq<u8>) -> Seq<u8> {
    le64(parent) + le32(name.len() as u32) + le32(0) + name.push(0)
}

/// The payload of an entry deletion: parent, child, name length, padding, the
/// name and its NUL.
pub open spec fn delete_payload(parent: u64, child: u64, name: Seq<u8>) -> Seq<u8> {
    le64(parent) + le64(child) + le32(name.len() as u32) + le32(0) + name.push(0)
}

/// The payload of a store: inode, offset, size, padding and the data.
pub open spec fn store_payload(ino: u64, offset: u64, data: Seq<u8>) -> Seq<u8> {
    le64(ino) + le64(offset) + le32(data.len() as u32) + le32(0) + data
}

/// The payload of a retrieve request.
pub open spec fn retrieve_payload(notify_unique: u64, ino: u64, offset: u64, size: u32) -> Seq<u8> {
    le64(notify_unique) + le64(ino) + le64(offset) + le32(size) + le32(0)
}

/// Wakes the poll waiters for handle `kh`.
pub fn notify_poll_wakeup(kh: u64) -> (r: Vec<u8>)
    ensures
        r@ == notification(NOTIFY_POLL, le64(kh)),
{
    let mut p: Vec<u8> = Vec::new();
    push_u64(&mut p, kh);
    assert(p@ =~= le64(kh));
    frame_message(0, NOTIFY_POLL, p.as_slice())
}

/// Invalidates the cached data of `ino` from `off` for `len` bytes (all of it
/// where `len` is negative).
pub fn notify_inval_inode(ino: u64, off: i64, len: i64) -> (r: Vec<u8>)
    ensures
        r@ == notification(NOTIFY_INVAL_INODE, le64(ino) + le64(off as u64) + le64(len as u64)),
{
    let mut p: Vec<u8> = Vec::new();
    push_u64(&mut p, ino);
    push_u64(&mut p, off as u64);
    push_u64(&mut p, len as u64);
    assert(p@ =~= le64(ino) + le64(off as u64) + le64(len as u64));
    frame_message(0, NOTIFY_INVAL_INODE, p.as_slice())
}

/// Invalidates the entry `name` of directory `parent`; refused when the
/// message would not fit its length field.
pub fn notify_inval_entry(parent: u64, name: &[u8]) -> (r: Result<Vec<u8>, ReplyError>)
    ensures
        match r {
            Ok(v) => fits_frame(name@.len() + 17) && v@ == notification(
                NOTIFY_INVAL_ENTRY,
                inval_entry_payload(parent, name@),
            ),
            Err(e) => !fits_frame(name@.len() + 17) && e == ReplyError::TooLong,
        },
{
    if name.len() > (u32::MAX as usize) - OUT_HEADER_SIZE - 17 {
        return Err(ReplyError::TooLong);
    }
    let mut p: Vec<u8> = Vec::new();
    push_u64(&mut p, parent);
    push_u32(&mut p, name.len() as u32);
    push_u32(&mut p, 0);
    push_bytes(&mut p, name);
    p.push(0);
    assert(p@ =~= inval_entry_payload(parent, name@));
    Ok(frame_message(0, NOTIFY_INVAL_ENTRY, p.as_slice()))
}

/// Invalidates the entry `name` of directory `parent` and the inode `child`
/// it names; refused when the message would not fit its length field.
pub fn notify_delete(parent: u64, child: u64, name: &[u8]) -> (r: Result<Vec<u8>, ReplyError>)
    ensures
        match r {
            Ok(v) => fits_frame(name@.len() + 25) && v@ == notification(
                NOTIFY_DELETE,
                delete_payload(parent, child, name@),
            ),
            Err(e) => !fits_frame(name@.len() + 25) && e == ReplyError::TooLong,
        },
{
    if name.len() > (u32::MAX as usize) - OUT_HEADER_SIZE - 25 {
        return Err(ReplyError::TooLong);
    }
    let mut p: Vec<u8> = Vec::new();
    push_u64(&mut p, parent);
    push_u64(&mut p, child);
    push_u32(&mut p, name.len() as u32);
    push_u32(&mut p, 0);
    push_bytes(&mut p, name);
    p.push(0);
    assert(p@ =~= delete_payload(parent, child, name@));
    Ok(frame_message(0, NOTIFY_DELETE, p.as_slice()))
}

/// Injects `data` into the kernel's cache of `ino` at `offset`; refused when
/// the message would not fit its length field.
pub fn notify_store(ino: u64, offset: u64, data: &[u8]) -> (r: Result<Vec<u8>, ReplyError>)
    ensures
        match r {
            Ok(v) => fits_frame(data@.len() + 24) && v@ == notification(
                NOTIFY_STORE,
                store_payload(ino, offset, data@),
            ),
            Err(e) => !fits_frame(data@.len() + 24) && e == ReplyError::TooLong,
        },
{
    if data.len() > (u32::MAX as usize) - OUT_HEADER_SIZE - 24 {
        return Err(ReplyError::TooLong);
    }
    let mut p: Vec<u8> = Vec::new();
    push_u64(&mut p, ino);
    push_u64(&mut p, offset);
    push_u32(&mut p, data.len() as u32);
    push_u32(&mut p, 0);
    push_bytes(&mut p, data);
    assert(p@ =~= store_payload(ino, offset, data@));
    Ok(frame_message(0, NOTIFY_STORE, p.as_slice()))
}

/// Asks the kernel to send back `size` bytes of `ino` from `offset`, under the
/// correlation unique `notify_unique`.
pub fn notify_retrieve(notify_unique: u64, ino: u64, offset: u64, size: u32) -> (r: Vec<u8>)
    ensures
        r@ == notification(NOTIFY_RETRIEVE, retrieve_payload(notify_unique, ino, offset, size)),
{
    let mut p: Vec<u8> = Vec::new();
    push_u64(&mut p, notify_unique);
    push_u64(&mut p, ino);
    push_u64(&mut p, offset);
    push_u32(&mut p, size);
    push_u32(&mut p, 0);
    assert(p@ =~= retrieve_payload(notify_unique, ino, offset, size));
    frame_message(0, NOTIFY_RETRIEVE, p.as_slice())
}

} // verus!
