use polyfuse::decode::{decode, encode_args, Operation, ProtocolError};
use polyfuse::fs::{entry_out, Context, FileAttr, InHeader, ReplyError, Stat, AttrError};
use polyfuse::init::{InitOutcome, SessionInitializer, FUSE_ASYNC_READ, FUSE_BIG_WRITES, SUPPORTED_FLAGS};
use polyfuse::notify::{notify_inval_entry, notify_inval_inode, notify_poll_wakeup, notify_store};
use polyfuse::session::{Action, Session};

fn request(opcode: u32, unique: u64, nodeid: u64, args: &[u8]) -> Vec<u8> {
    let mut b = Vec::new();
    b.extend_from_slice(&((40 + args.len()) as u32).to_le_bytes());
    b.extend_from_slice(&opcode.to_le_bytes());
    b.extend_from_slice(&unique.to_le_bytes());
    b.extend_from_slice(&nodeid.to_le_bytes());
    b.extend_from_slice(&1000u32.to_le_bytes());
    b.extend_from_slice(&1001u32.to_le_bytes());
    b.extend_from_slice(&42u32.to_le_bytes());
    b.extend_from_slice(&0u32.to_le_bytes());
    b.extend_from_slice(args);
    b
}

fn u32_at(b: &[u8], i: usize) -> u32 {
    u32::from_le_bytes([b[i], b[i + 1], b[i + 2], b[i + 3]])
}

fn i32_at(b: &[u8], i: usize) -> i32 {
    u32_at(b, i) as i32
}

fn u64_at(b: &[u8], i: usize) -> u64 {
    let mut a = [0u8; 8];
    a.copy_from_slice(&b[i..i + 8]);
    u64::from_le_bytes(a)
}

fn init_args(major: u32, minor: u32, readahead: u32, flags: u32) -> Vec<u8> {
    let mut a = Vec::new();
    for v in [major, minor, readahead, flags] {
        a.extend_from_slice(&v.to_le_bytes());
    }
    a
}

fn name_args(name: &str) -> Vec<u8> {
    let mut a = name.as_bytes().to_vec();
    a.push(0);
    a
}

fn read_args(fh: u64, offset: u64, size: u32) -> Vec<u8> {
    let mut a = Vec::new();
    a.extend_from_slice(&fh.to_le_bytes());
    a.extend_from_slice(&offset.to_le_bytes());
    a.extend_from_slice(&size.to_le_bytes());
    a.extend_from_slice(&0u32.to_le_bytes());
    a.extend_from_slice(&0u64.to_le_bytes());
    a.extend_from_slice(&0u32.to_le_bytes());
    a.extend_from_slice(&0u32.to_le_bytes());
    a
}

fn initialized() -> Session {
    let mut s = Session::new(SessionInitializer::new());
    let r = s.handle(&request(26, 1, 0, &init_args(7, 31, 131072, FUSE_ASYNC_READ | FUSE_BIG_WRITES)));
    assert!(matches!(r, Action::Reply(_)));
    assert!(s.connection_info().is_some());
    s
}

fn reply_bytes(a: Action) -> Vec<u8> {
    match a {
        Action::Reply(v) => v,
        other => panic!("expected a reply, got {:?}", other),
    }
}

#[test]
fn handshake_negotiates_version_and_flags() {
    let mut s = Session::new(SessionInitializer::new());
    let flags = FUSE_ASYNC_READ | FUSE_BIG_WRITES;
    let r = reply_bytes(s.handle(&request(26, 7, 0, &init_args(7, 31, 131072, flags))));
    assert_eq!(u32_at(&r, 0) as usize, r.len());
    assert_eq!(r.len(), 16 + 64);
    assert_eq!(i32_at(&r, 4), 0);
    assert_eq!(u64_at(&r, 8), 7);
    assert_eq!(u32_at(&r, 16), 7);
    assert!(u32_at(&r, 20) <= 31);
    assert_eq!(u32_at(&r, 24), 131072);
    let granted = u32_at(&r, 28);
    assert_eq!(granted & !(flags & SUPPORTED_FLAGS), 0);
    assert_eq!(granted, flags);
    assert_eq!(r[32..34], 12u16.to_le_bytes());
    assert_eq!(r[34..36], 9u16.to_le_bytes());
    assert!(u32_at(&r, 36) >= 4096);
    let c = s.connection_info().unwrap();
    assert_eq!(c.proto_major, 7);
    assert_eq!(c.proto_minor, 29);
    assert_eq!(c.max_write, 131072);
}

#[test]
fn handshake_with_old_major_is_refused() {
    let mut s = Session::new(SessionInitializer::new());
    let r = reply_bytes(s.handle(&request(26, 3, 0, &init_args(6, 0, 0, 0))));
    assert_eq!(r.len(), 16);
    assert_eq!(i32_at(&r, 4), -71);
    assert!(s.connection_info().is_none());
}

#[test]
fn handshake_with_newer_major_proposes_own_version() {
    let init = SessionInitializer::new();
    assert_eq!(init.negotiate(8, 0, 0, 0), InitOutcome::Propose);
    let mut s = Session::new(init);
    let r = reply_bytes(s.handle(&request(26, 3, 0, &init_args(8, 0, 0, 0))));
    assert_eq!(i32_at(&r, 4), 0);
    assert_eq!(u32_at(&r, 16), 7);
    assert_eq!(u32_at(&r, 20), 29);
    assert!(s.connection_info().is_none());
}

#[test]
fn old_minor_gets_short_init_reply() {
    let mut s = Session::new(SessionInitializer::new());
    let r = reply_bytes(s.handle(&request(26, 3, 0, &init_args(7, 19, 4096, 0))));
    assert_eq!(r.len(), 16 + 24);
    assert_eq!(u32_at(&r, 0), 40);
    assert_eq!(u32_at(&r, 20), 19);
}

#[test]
fn request_before_handshake_gets_eproto() {
    let mut s = Session::new(SessionInitializer::new());
    let r = reply_bytes(s.handle(&request(1, 9, 1, &name_args("a"))));
    assert_eq!(i32_at(&r, 4), -71);
    assert_eq!(u64_at(&r, 8), 9);
}

#[test]
fn lookup_miss_replies_enoent() {
    let mut s = initialized();
    match s.handle(&request(1, 10, 1, &name_args("nope"))) {
        Action::Dispatch(h, Operation::Lookup { parent, name }) => {
            assert_eq!(h.unique, 10);
            assert_eq!(parent, 1);
            assert_eq!(name, b"nope".to_vec());
        }
        other => panic!("unexpected {:?}", other),
    }
    let r = s.complete(10, 2, &[]).unwrap();
    assert_eq!(r.len(), 16);
    assert_eq!(u32_at(&r, 0), 16);
    assert_eq!(i32_at(&r, 4), -2);
    assert_eq!(u64_at(&r, 8), 10);
    assert!(s.complete(10, 2, &[]).is_none());
}

#[test]
fn lookup_hit_then_entry_invalidation() {
    let mut s = initialized();
    let name = "Time_is_12h_00m_00s";
    assert!(matches!(s.handle(&request(1, 11, 1, &name_args(name))), Action::Dispatch(..)));
    let attr = FileAttr { ino: 2, mode: 0o100444, nlink: 1, ..FileAttr::default() };
    let payload = entry_out(&attr, 0, 1, 0, 1, 0);
    assert_eq!(payload.len(), 40 + 88);
    let r = s.complete(11, 0, &payload).unwrap();
    assert_eq!(u32_at(&r, 0) as usize, 16 + 128);
    assert_eq!(u64_at(&r, 16), 2);
    assert_eq!(u64_at(&r, 32), 1);
    assert_eq!(u64_at(&r, 40), 1);
    assert_eq!(u64_at(&r, 56), 2);

    let n = notify_inval_entry(1, name.as_bytes()).unwrap();
    assert_eq!(u64_at(&n, 8), 0);
    assert_eq!(i32_at(&n, 4), -3);
    assert_eq!(u64_at(&n, 16), 1);
    assert_eq!(u32_at(&n, 24) as usize, name.len());
    assert_eq!(&n[32..32 + name.len()], name.as_bytes());
    assert_eq!(n[32 + name.len()], 0);
    assert_eq!(n.len(), 16 + 16 + 20);
    assert_eq!(u32_at(&n, 0) as usize, n.len());
}

#[test]
fn read_of_empty_file_replies_bare_header() {
    let mut s = initialized();
    match s.handle(&request(15, 12, 2, &read_args(0, 0, 4096))) {
        Action::Dispatch(_, Operation::Read { ino, fh, offset, size, lock_owner, .. }) => {
            assert_eq!((ino, fh, offset, size, lock_owner), (2, 0, 0, 4096, None));
        }
        other => panic!("unexpected {:?}", other),
    }
    let r = s.reply_read(12, 4096, &[]).unwrap();
    assert_eq!(r.len(), 16);
    assert_eq!(u32_at(&r, 0), 16);
    assert_eq!(i32_at(&r, 4), 0);
}

#[test]
fn read_reply_is_cut_to_requested_size() {
    let mut s = initialized();
    assert!(matches!(s.handle(&request(15, 13, 2, &read_args(0, 0, 4))), Action::Dispatch(..)));
    let r = s.reply_read(13, 4, b"abcdefgh").unwrap();
    assert_eq!(r.len(), 20);
    assert_eq!(u32_at(&r, 0), 20);
    assert_eq!(&r[16..], b"abcd");
}

#[test]
fn interrupt_of_in_flight_read() {
    let mut s = initialized();
    assert!(matches!(s.handle(&request(15, 100, 2, &read_args(0, 0, 4096))), Action::Dispatch(..)));
    assert!(s.is_in_flight(100));
    let r = s.handle(&request(36, 101, 0, &100u64.to_le_bytes()));
    assert!(matches!(r, Action::Interrupt(100)));
    let reply = s.complete(100, 4, &[]).unwrap();
    assert_eq!(u64_at(&reply, 8), 100);
    assert_eq!(i32_at(&reply, 4), -4);
    assert!(s.complete(100, 4, &[]).is_none());
    assert!(!s.is_in_flight(100));
}

#[test]
fn interrupt_of_unknown_unique_is_ignored() {
    let mut s = initialized();
    let r = s.handle(&request(36, 102, 0, &555u64.to_le_bytes()));
    assert!(matches!(r, Action::Ignore));
    assert!(!s.is_in_flight(555));
}

#[test]
fn forget_after_two_lookups() {
    let mut s = initialized();
    let mut nlookup: u64 = 0;
    for unique in [20u64, 21] {
        assert!(matches!(s.handle(&request(1, unique, 1, &name_args("f"))), Action::Dispatch(..)));
        let attr = FileAttr { ino: 5, ..FileAttr::default() };
        assert!(s.complete(unique, 0, &entry_out(&attr, 0, 1, 0, 1, 0)).is_some());
        nlookup += 1;
    }
    match s.handle(&request(2, 22, 5, &2u64.to_le_bytes())) {
        Action::Forget { ino, nlookup: n } => {
            assert_eq!(ino, 5);
            nlookup -= n;
        }
        other => panic!("unexpected {:?}", other),
    }
    assert_eq!(nlookup, 0);
    assert!(!s.is_in_flight(22));
}

#[test]
fn forget_never_replies() {
    let mut before = Session::new(SessionInitializer::new());
    assert!(matches!(before.handle(&request(2, 1, 5, &1u64.to_le_bytes())), Action::Ignore));
    let mut s = initialized();
    assert!(matches!(s.handle(&request(2, 2, 5, &[1, 2, 3])), Action::Ignore));
    assert!(matches!(s.handle(&request(42, 3, 0, &[0; 16])), Action::Ignore));
}

#[test]
fn unknown_opcode_replies_enosys() {
    let mut s = initialized();
    let r = reply_bytes(s.handle(&request(40, 30, 1, &[0; 24])));
    assert_eq!(i32_at(&r, 4), -38);
    assert_eq!(u64_at(&r, 8), 30);
}

#[test]
fn malformed_request_replies_eio() {
    let mut s = initialized();
    let r = reply_bytes(s.handle(&request(3, 31, 1, &[0; 3])));
    assert_eq!(r.len(), 16);
    assert_eq!(i32_at(&r, 4), -5);
    assert_eq!(u64_at(&r, 8), 31);
}

#[test]
fn decode_errors() {
    assert_eq!(decode(&[0u8; 10], 29).unwrap_err(), ProtocolError::ShortHeader);
    let mut b = request(17, 1, 1, &[]);
    b[0] = 39;
    assert_eq!(decode(&b, 29).unwrap_err(), ProtocolError::BadLength);
    b[0] = 41;
    assert_eq!(decode(&b, 29).unwrap_err(), ProtocolError::BadLength);
    let bad_name = request(1, 1, 1, b"ab");
    assert_eq!(decode(&bad_name, 29).unwrap_err(), ProtocolError::Malformed);
    let inner_nul = request(1, 1, 1, b"a\0b\0");
    assert_eq!(decode(&inner_nul, 29).unwrap_err(), ProtocolError::Malformed);
    let mut trailing = request(17, 1, 1, &[]);
    trailing.extend_from_slice(&[9, 9]);
    assert!(matches!(decode(&trailing, 29), Ok((_, Operation::Statfs { ino: 1 }))));
}

#[test]
fn setattr_fields_follow_mask() {
    let mut a = vec![0u8; 88];
    let valid: u32 = 1 | 8;
    a[0..4].copy_from_slice(&valid.to_le_bytes());
    a[16..24].copy_from_slice(&1234u64.to_le_bytes());
    a[68..72].copy_from_slice(&0o644u32.to_le_bytes());
    a[76..80].copy_from_slice(&77u32.to_le_bytes());
    match decode(&request(4, 5, 9, &a), 29).unwrap().1 {
        Operation::Setattr { ino, fh, mode, uid, gid, size, atime, mtime, ctime, lock_owner } => {
            assert_eq!(ino, 9);
            assert_eq!(mode, Some(0o644));
            assert_eq!(size, Some(1234));
            assert_eq!((fh, uid, gid, lock_owner), (None, None, None, None));
            assert!(atime.is_none() && mtime.is_none() && ctime.is_none());
        }
        other => panic!("unexpected {:?}", other),
    }
    let all: u32 = 0x7ff;
    a[0..4].copy_from_slice(&all.to_le_bytes());
    match decode(&request(4, 5, 9, &a), 29).unwrap().1 {
        Operation::Setattr { fh, uid, gid, atime, mtime, ctime, lock_owner, .. } => {
            assert_eq!(uid, Some(77));
            assert!(fh.is_some() && gid.is_some() && ctime.is_some() && lock_owner.is_some());
            assert_eq!(atime.map(|t| t.2), Some(true));
            assert_eq!(mtime.map(|t| t.2), Some(true));
        }
        other => panic!("unexpected {:?}", other),
    }
}

#[test]
fn decode_then_encode_round_trips() {
    let cases = vec![
        request(26, 1, 0, &init_args(7, 31, 131072, 33)),
        request(2, 1, 7, &9u64.to_le_bytes()),
        request(36, 1, 0, &77u64.to_le_bytes()),
        request(1, 1, 1, &name_args("hello")),
        request(11, 1, 1, &name_args("dir")),
        request(17, 1, 1, &[]),
        request(24, 1, 1, &name_args("user.x")),
        request(9, 1, 1, &[&0o755u32.to_le_bytes()[..], &0o22u32.to_le_bytes(), b"d\0"].concat()),
        request(13, 1, 1, &[&8u64.to_le_bytes()[..], b"l\0"].concat()),
        request(6, 1, 1, b"ln\0/target\0"),
        request(12, 1, 1, &[&3u64.to_le_bytes()[..], b"a\0b\0"].concat()),
        request(21, 1, 1, &[&2u32.to_le_bytes()[..], &0u32.to_le_bytes(), b"n\0", b"v\0"].concat()),
    ];
    for b in cases {
        let (h, op) = decode(&b, 29).unwrap();
        assert_eq!(h.len as usize, b.len());
        assert_eq!(encode_args(&op).unwrap(), b[40..].to_vec());
    }
    let (_, read) = decode(&request(15, 1, 2, &read_args(1, 2, 3)), 29).unwrap();
    assert!(encode_args(&read).is_none());
}

#[test]
fn context_replies_carry_unique_and_length() {
    let h = InHeader { len: 40, opcode: 1, unique: 77, nodeid: 1, uid: 5, gid: 6, pid: 7 };
    let cx = Context::new(h);
    assert_eq!((cx.uid(), cx.gid(), cx.pid(), cx.unique()), (5, 6, 7, 77));
    let e = cx.reply_err(38);
    assert_eq!(e.len(), 16);
    assert_eq!(u32_at(&e, 0), 16);
    assert_eq!(i32_at(&e, 4), -38);
    assert_eq!(u64_at(&e, 8), 77);
    let r = cx.send_reply(0, &[b"ab".to_vec(), Vec::new(), b"cde".to_vec()]).unwrap();
    assert_eq!(u32_at(&r, 0), 21);
    assert_eq!(i32_at(&r, 4), 0);
    assert_eq!(&r[16..], b"abcde");
    let _ = ReplyError::TooLong;
}

#[test]
fn notifications_carry_unique_zero() {
    let p = notify_poll_wakeup(99);
    assert_eq!((u32_at(&p, 0), i32_at(&p, 4), u64_at(&p, 8), u64_at(&p, 16)), (24, -1, 0, 99));
    let i = notify_inval_inode(3, 0, -1);
    assert_eq!((u32_at(&i, 0), i32_at(&i, 4), u64_at(&i, 8)), (40, -2, 0));
    assert_eq!(u64_at(&i, 32), u64::MAX);
    let st = notify_store(3, 10, b"xyz").unwrap();
    assert_eq!((u32_at(&st, 0), i32_at(&st, 4), u64_at(&st, 8)), (43, -4, 0));
    assert_eq!(u32_at(&st, 32), 3);
    assert_eq!(&st[40..], b"xyz");
    let d = polyfuse::notify::notify_delete(1, 2, b"x").unwrap();
    assert_eq!((u32_at(&d, 0), i32_at(&d, 4), u64_at(&d, 8)), (16 + 24 + 2, -6, 0));
}

#[test]
fn retrieve_is_correlated_with_its_reply() {
    let mut s = initialized();
    let (u, msg) = s.notify_retrieve(2, 0, 8).unwrap();
    assert!(u >= 0x8000_0000_0000_0000);
    assert_eq!((i32_at(&msg, 4), u64_at(&msg, 8), u64_at(&msg, 16)), (-5, 0, u));
    let mut args = vec![0u8; 40];
    args[8..16].copy_from_slice(&0u64.to_le_bytes());
    args[16..20].copy_from_slice(&3u32.to_le_bytes());
    args.extend_from_slice(b"abc");
    match s.handle(&request(41, u, 2, &args)) {
        Action::Retrieved { unique, offset, data } => {
            assert_eq!((unique, offset), (u, 0));
            assert_eq!(data, b"abc".to_vec());
        }
        other => panic!("unexpected {:?}", other),
    }
    assert!(matches!(s.handle(&request(41, u, 2, &args)), Action::Ignore));
    let (u2, _) = s.notify_retrieve(2, 0, 8).unwrap();
    assert_eq!(u2, u + 1);
}

#[test]
fn stat_conversion_checks_widths() {
    let st = Stat { ino: 3, mode: 0o40755, nlink: 2, size: 4096, blksize: 512, blocks: 8, ..Stat::default() };
    let a = FileAttr::try_from(st).unwrap();
    assert_eq!((a.ino, a.mode, a.nlink, a.size, a.blksize, a.blocks), (3, 0o40755, 2, 4096, 512, 8));
    let big_nlink = Stat { nlink: 1 << 40, ..st };
    assert_eq!(FileAttr::try_from(big_nlink).unwrap_err(), AttrError::InvalidInput);
    let negative_size = Stat { size: -1, ..st };
    assert_eq!(FileAttr::try_from(negative_size).unwrap_err(), AttrError::InvalidInput);
}

#[test]
fn finish_sends_enosys_or_failure_only_when_unanswered() {
    let mut s = initialized();
    assert!(matches!(s.handle(&request(5, 60, 2, &[])), Action::Dispatch(..)));
    let r = s.finish(60, None).unwrap();
    assert_eq!((u32_at(&r, 0), i32_at(&r, 4), u64_at(&r, 8)), (16, -38, 60));
    assert!(s.finish(60, None).is_none());
    assert!(matches!(s.handle(&request(5, 61, 2, &[])), Action::Dispatch(..)));
    let r = s.finish(61, Some(13)).unwrap();
    assert_eq!(i32_at(&r, 4), -13);
    assert!(matches!(s.handle(&request(5, 62, 2, &[])), Action::Dispatch(..)));
    assert!(s.complete(62, 0, b"target").is_some());
    assert!(s.finish(62, Some(5)).is_none());
}

#[test]
fn session_reads_requests_with_negotiated_minor() {
    let mut s = Session::new(SessionInitializer::new());
    let r = reply_bytes(s.handle(&request(26, 1, 0, &init_args(7, 8, 4096, 0))));
    assert_eq!(u32_at(&r, 20), 8);
    let old_read = [&0u64.to_le_bytes()[..], &0u64.to_le_bytes(), &16u32.to_le_bytes(), &[0; 4]].concat();
    match s.handle(&request(15, 2, 2, &old_read)) {
        Action::Dispatch(_, Operation::Read { size, lock_owner, .. }) => assert_eq!((size, lock_owner), (16, None)),
        other => panic!("unexpected {:?}", other),
    }
}
