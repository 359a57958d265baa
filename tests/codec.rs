use polyfuse::decode::{decode, Operation, ProtocolError};
use polyfuse::fs::{FileLock, FsStatistics};
use polyfuse::reply::{bmap_out, open_out, pack_dirents, reply_xattr, write_out, DirEntry, XattrReply};

fn req(opcode: u32, nodeid: u64, args: &[u8]) -> Vec<u8> {
    let mut b = Vec::new();
    b.extend_from_slice(&((40 + args.len()) as u32).to_le_bytes());
    b.extend_from_slice(&opcode.to_le_bytes());
    b.extend_from_slice(&5u64.to_le_bytes());
    b.extend_from_slice(&nodeid.to_le_bytes());
    b.extend_from_slice(&[0u8; 16]);
    b.extend_from_slice(args);
    b
}

fn words(parts: &[&[u8]]) -> Vec<u8> {
    parts.concat()
}

fn op(b: &[u8]) -> Operation {
    decode(b, 29).unwrap().1
}

#[test]
fn decodes_write_with_its_data() {
    let args = words(&[
        &7u64.to_le_bytes(),
        &100u64.to_le_bytes(),
        &3u32.to_le_bytes(),
        &2u32.to_le_bytes(),
        &9u64.to_le_bytes(),
        &1u32.to_le_bytes(),
        &0u32.to_le_bytes(),
        b"xyz",
    ]);
    match op(&req(16, 4, &args)) {
        Operation::Write { ino, fh, offset, data, size, flags, lock_owner } => {
            assert_eq!((ino, fh, offset, size, flags, lock_owner), (4, 7, 100, 3, 1, Some(9)));
            assert_eq!(data, b"xyz".to_vec());
        }
        other => panic!("unexpected {:?}", other),
    }
    let short = words(&[&args[..40], b"xy"]);
    assert_eq!(decode(&req(16, 4, &short), 29).unwrap_err(), ProtocolError::Malformed);
}

#[test]
fn decodes_setxattr_name_and_value() {
    let args = words(&[&4u32.to_le_bytes(), &1u32.to_le_bytes(), b"user.a\0", b"v\0lu"]);
    match op(&req(21, 3, &args)) {
        Operation::Setxattr { ino, name, value, flags } => {
            assert_eq!((ino, flags), (3, 1));
            assert_eq!(name, b"user.a".to_vec());
            assert_eq!(value, b"v\0lu".to_vec());
        }
        other => panic!("unexpected {:?}", other),
    }
}

#[test]
fn decodes_symlink_and_rename_names() {
    match op(&req(6, 1, b"link\0/target\0")) {
        Operation::Symlink { parent, name, link } => {
            assert_eq!(parent, 1);
            assert_eq!(name, b"link".to_vec());
            assert_eq!(link, b"/target".to_vec());
        }
        other => panic!("unexpected {:?}", other),
    }
    let args = words(&[&9u64.to_le_bytes(), b"old\0new\0"]);
    match op(&req(12, 1, &args)) {
        Operation::Rename { parent, name, newparent, newname, flags } => {
            assert_eq!((parent, newparent, flags), (1, 9, 0));
            assert_eq!((name, newname), (b"old".to_vec(), b"new".to_vec()));
        }
        other => panic!("unexpected {:?}", other),
    }
    assert_eq!(decode(&req(6, 1, b"only\0"), 29).unwrap_err(), ProtocolError::Malformed);
    assert_eq!(decode(&req(6, 1, b"a\0b\0c\0"), 29).unwrap_err(), ProtocolError::Malformed);
}

#[test]
fn decodes_named_creations() {
    let mkdir = words(&[&0o755u32.to_le_bytes(), &0o22u32.to_le_bytes(), b"d\0"]);
    match op(&req(9, 1, &mkdir)) {
        Operation::Mkdir { parent, name, mode, umask } => {
            assert_eq!((parent, mode, umask), (1, 0o755, Some(0o22)));
            assert_eq!(name, b"d".to_vec());
        }
        other => panic!("unexpected {:?}", other),
    }
    let create = words(&[&2u32.to_le_bytes(), &0o644u32.to_le_bytes(), &0o22u32.to_le_bytes(), &[0; 4], b"f\0"]);
    match op(&req(35, 1, &create)) {
        Operation::Create { open_flags, mode, umask, name, .. } => {
            assert_eq!((open_flags, mode, umask), (2, 0o644, Some(0o22)));
            assert_eq!(name, b"f".to_vec());
        }
        other => panic!("unexpected {:?}", other),
    }
    let link = words(&[&8u64.to_le_bytes(), b"l\0"]);
    assert!(matches!(op(&req(13, 1, &link)), Operation::Link { ino: 8, newparent: 1, .. }));
    assert_eq!(decode(&req(9, 1, &[0u8; 5]), 29).unwrap_err(), ProtocolError::Malformed);
}

#[test]
fn decodes_fixed_records() {
    let release = words(&[&3u64.to_le_bytes(), &1u32.to_le_bytes(), &1u32.to_le_bytes(), &6u64.to_le_bytes()]);
    match op(&req(18, 2, &release)) {
        Operation::Release { fh, flags, lock_owner, flush, flock_release, .. } => {
            assert_eq!((fh, flags, lock_owner, flush, flock_release), (3, 1, Some(6), true, false));
        }
        other => panic!("unexpected {:?}", other),
    }
    let fsync = words(&[&3u64.to_le_bytes(), &1u32.to_le_bytes(), &[0; 4]]);
    assert!(matches!(op(&req(20, 2, &fsync)), Operation::Fsync { fh: 3, datasync: true, .. }));
    assert!(matches!(op(&req(30, 2, &fsync)), Operation::Fsyncdir { fh: 3, datasync: true, .. }));
    let access = words(&[&4u32.to_le_bytes(), &[0; 4]]);
    assert!(matches!(op(&req(34, 2, &access)), Operation::Access { ino: 2, mask: 4 }));
    let bmap = words(&[&11u64.to_le_bytes(), &512u32.to_le_bytes(), &[0; 4]]);
    assert!(matches!(op(&req(37, 2, &bmap)), Operation::Bmap { block: 11, blocksize: 512, .. }));
    let xsize = words(&[&0u32.to_le_bytes(), &[0; 4]]);
    assert!(matches!(op(&req(23, 2, &xsize)), Operation::Listxattr { size: 0, .. }));
    let flush = words(&[&3u64.to_le_bytes(), &[0; 8], &77u64.to_le_bytes()]);
    assert!(matches!(op(&req(25, 2, &flush)), Operation::Flush { fh: 3, lock_owner: 77, .. }));
}

#[test]
fn decodes_locks_and_flock() {
    let lk = |typ: u32, lk_flags: u32| {
        words(&[
            &1u64.to_le_bytes(),
            &2u64.to_le_bytes(),
            &10u64.to_le_bytes(),
            &20u64.to_le_bytes(),
            &typ.to_le_bytes(),
            &99u32.to_le_bytes(),
            &lk_flags.to_le_bytes(),
            &[0; 4],
        ])
    };
    match op(&req(31, 2, &lk(1, 0))) {
        Operation::Getlk { fh, owner, lk, .. } => {
            assert_eq!((fh, owner), (1, 2));
            assert_eq!(lk, FileLock { start: 10, end: 20, typ: 1, pid: 99 });
        }
        other => panic!("unexpected {:?}", other),
    }
    assert!(matches!(op(&req(33, 2, &lk(0, 0))), Operation::Setlk { sleep: true, .. }));
    assert!(matches!(op(&req(32, 2, &lk(0, 1))), Operation::Flock { op: 5, .. }));
    assert!(matches!(op(&req(33, 2, &lk(1, 1))), Operation::Flock { op: 2, .. }));
    assert!(matches!(op(&req(32, 2, &lk(2, 1))), Operation::Flock { op: 12, .. }));
    assert_eq!(decode(&req(32, 2, &lk(7, 1)), 29).unwrap_err(), ProtocolError::Malformed);
}

#[test]
fn packs_directory_entries_within_size() {
    let entries = vec![
        DirEntry { ino: 1, off: 1, typ: 4, name: b".".to_vec() },
        DirEntry { ino: 1, off: 2, typ: 4, name: b"..".to_vec() },
        DirEntry { ino: 2, off: 3, typ: 8, name: b"file.txt".to_vec() },
    ];
    let all = pack_dirents(&entries, 4096);
    assert_eq!(all.len(), 32 + 32 + 32);
    assert_eq!(&all[16..20], &1u32.to_le_bytes());
    assert_eq!(&all[20..24], &4u32.to_le_bytes());
    assert_eq!(all[24], b'.');
    assert_eq!(&all[25..32], &[0u8; 7]);
    let two = pack_dirents(&entries, 95);
    assert_eq!(two.len(), 64);
    assert!(pack_dirents(&entries, 31).is_empty());
}

#[test]
fn xattr_replies_follow_requested_size() {
    assert_eq!(reply_xattr(0, b"hello"), XattrReply::Data(words(&[&5u32.to_le_bytes(), &[0; 4]])));
    assert_eq!(reply_xattr(8, b"hello"), XattrReply::Data(b"hello".to_vec()));
    assert_eq!(reply_xattr(3, b"hello"), XattrReply::Error(34));
}

#[test]
fn small_reply_records() {
    assert_eq!(open_out(7, 2), words(&[&7u64.to_le_bytes(), &2u32.to_le_bytes(), &[0; 4]]));
    assert_eq!(write_out(9), words(&[&9u32.to_le_bytes(), &[0; 4]]));
    assert_eq!(bmap_out(3), 3u64.to_le_bytes().to_vec());
    let st = FsStatistics { blocks: 1, bfree: 2, bavail: 3, files: 4, ffree: 5, bsize: 6, namelen: 7, frsize: 8 };
    let b = st.to_bytes();
    assert_eq!(b.len(), 80);
    assert_eq!(&b[40..44], &6u32.to_le_bytes());
    let lk = FileLock { start: 1, end: 2, typ: 1, pid: 3 };
    let lb = lk.to_bytes();
    assert_eq!(FileLock::new(&lb, 0), lk);
}

#[test]
fn older_kernels_use_older_layouts() {
    let read = words(&[&1u64.to_le_bytes(), &2u64.to_le_bytes(), &3u32.to_le_bytes(), &[0; 4]]);
    match decode(&req(15, 6, &read), 8).unwrap().1 {
        Operation::Read { ino, fh, offset, size, flags, lock_owner } => {
            assert_eq!((ino, fh, offset, size, flags, lock_owner), (6, 1, 2, 3, 0, None));
        }
        other => panic!("unexpected {:?}", other),
    }
    assert_eq!(decode(&req(15, 6, &read), 9).unwrap_err(), ProtocolError::Malformed);
    assert!(matches!(decode(&req(3, 6, &[]), 8).unwrap().1, Operation::Getattr { ino: 6, fh: None }));
    assert_eq!(decode(&req(3, 6, &[]), 9).unwrap_err(), ProtocolError::Malformed);
    let mknod = words(&[&0o644u32.to_le_bytes(), &7u32.to_le_bytes(), b"n\0"]);
    match decode(&req(8, 1, &mknod), 11).unwrap().1 {
        Operation::Mknod { mode, rdev, umask, name, .. } => {
            assert_eq!((mode, rdev, umask), (0o644, 7, None));
            assert_eq!(name, b"n".to_vec());
        }
        other => panic!("unexpected {:?}", other),
    }
    let write = words(&[&1u64.to_le_bytes(), &0u64.to_le_bytes(), &2u32.to_le_bytes(), &[0; 4], b"hi"]);
    match decode(&req(16, 6, &write), 8).unwrap().1 {
        Operation::Write { data, size, lock_owner, .. } => {
            assert_eq!((data, size, lock_owner), (b"hi".to_vec(), 2, None));
        }
        other => panic!("unexpected {:?}", other),
    }
}
