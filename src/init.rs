//! The INIT handshake: version and capability negotiation.
use vstd::prelude::*;

use crate::fs::{frame_message, message_bytes};
use crate::wire::{le16, le32, push_u16, push_u32};

verus! {

/// The major version of the protocol that this engine speaks.
pub const KERNEL_VERSION: u32 = 7;
/// The newest minor version that this engine speaks.
pub const KERNEL_MINOR_VERSION: u32 = 29;
/// The smallest `max_write` that is ever negotiated.
pub const MIN_MAX_WRITE: u32 = 4096;
pub const DEFAULT_MAX_WRITE: u32 = 131072;
pub const DEFAULT_MAX_BACKGROUND: u16 = 12;
pub const DEFAULT_CONGESTION_THRESHOLD: u16 = 9;
/// Minor versions below this one expect the short form of the INIT reply.
pub const INIT_OUT_FULL_MINOR: u32 = 23;
pub const INIT_OUT_SIZE: usize = 64;
pub const INIT_OUT_COMPAT_SIZE: usize = 24;

pub const EPROTO: i32 = 71;

pub const FUSE_ASYNC_READ: u32 = 1;
pub const FUSE_POSIX_LOCKS: u32 = 2;
pub const FUSE_FILE_OPS: u32 = 4;
pub const FUSE_ATOMIC_O_TRUNC: u32 = 8;
pub const FUSE_EXPORT_SUPPORT: u32 = 16;
pub const FUSE_BIG_WRITES: u32 = 32;
pub const FUSE_DONT_MASK: u32 = 64;
pub const FUSE_SPLICE_WRITE: u32 = 128;
pub const FUSE_SPLICE_MOVE: u32 = 256;
pub const FUSE_SPLICE_READ: u32 = 512;
pub const FUSE_FLOCK_LOCKS: u32 = 1024;
pub const FUSE_HAS_IOCTL_DIR: u32 = 2048;
pub const FUSE_AUTO_INVAL_DATA: u32 = 4096;
pub const FUSE_DO_READDIRPLUS: u32 = 8192;
pub const FUSE_READDIRPLUS_AUTO: u32 = 16384;
pub const FUSE_ASYNC_DIO: u32 = 32768;
pub const FUSE_WRITEBACK_CACHE: u32 = 65536;
pub const FUSE_NO_OPEN_SUPPORT: u32 = 131072;
pub const FUSE_PARALLEL_DIROPS: u32 = 262144;
pub const FUSE_HANDLE_KILLPRIV: u32 = 524288;
pub const FUSE_POSIX_ACL: u32 = 1048576;
pub const FUSE_CACHE_SYMLINKS: u32 = 8388608;
pub const FUSE_NO_OPENDIR_SUPPORT: u32 = 16777216;
pub const FUSE_EXPLICIT_INVAL_DATA: u32 = 33554432;

/// Every capability that this engine knows how to honour.
pub const SUPPORTED_FLAGS: u32 = FUSE_ASYNC_READ | FUSE_POSIX_LOCKS | FUSE_FILE_OPS
    | FUSE_ATOMIC_O_TRUNC | FUSE_EXPORT_SUPPORT | FUSE_BIG_WRITES | FUSE_DONT_MASK
    | FUSE_SPLICE_WRITE | FUSE_SPLICE_MOVE | FUSE_SPLICE_READ | FUSE_FLOCK_LOCKS
    | FUSE_HAS_IOCTL_DIR | FUSE_AUTO_INVAL_DATA | FUSE_DO_READDIRPLUS | FUSE_READDIRPLUS_AUTO
    | FUSE_ASYNC_DIO | FUSE_WRITEBACK_CACHE | FUSE_NO_OPEN_SUPPORT | FUSE_PARALLEL_DIROPS
    | FUSE_HANDLE_KILLPRIV | FUSE_POSIX_ACL | FUSE_CACHE_SYMLINKS | FUSE_NO_OPENDIR_SUPPORT
    | FUSE_EXPLICIT_INVAL_DATA;

/// What was agreed with the kernel; fixed once the handshake is done.
#[derive(Clone, Copy, Debug, PartialEq, Eq)]
pub struct ConnectionInfo {
    pub proto_major: u32,
    pub proto_minor: u32,
    pub max_readahead: u32,
    pub max_write: u32,
    pub max_background: u16,
    pub congestion_threshold: u16,
    pub flags: u32,
    pub time_gran: u32,
}

/// The daemon's side of the handshake: what it asks for and allows.
#[derive(Clone, Copy, Debug, PartialEq, Eq)]
pub struct SessionInitializer {
    pub max_readahead: u32,
    pub flags: u32,
    pub max_write: u32,
    pub max_background: u16,
    pub congestion_threshold: u16,
    pub time_gran: u32,
}

/// The result of one INIT request.
#[derive(Clone, Copy, Debug, PartialEq, Eq)]
pub enum InitOutcome {
    /// The kernel is older than this engine supports: reply `EPROTO`.
    Reject,
    /// The kernel is newer: reply with this engine's version so that it retries.
    Propose,
    /// The handshake is done with these parameters.
    Accept(ConnectionInfo),
}

/// The parameters negotiated from the kernel's proposal.
pub open spec fn negotiated(
    cfg: SessionInitializer,
    minor: u32,
    max_readahead: u32,
    flags: u32,
) -> ConnectionInfo {
    ConnectionInfo {
        proto_major: KERNEL_VERSION,
        proto_minor: if minor < KERNEL_MINOR_VERSION {
            minor
        } else {
            KERNEL_MINOR_VERSION
        },
        max_readahead: if max_readahead < cfg.max_readahead {
            max_readahead
        } else {
            cfg.max_readahead
        },
        max_write: if cfg.max_write < MIN_MAX_WRITE {
            MIN_MAX_WRITE
        } else {
            cfg.max_write
        },
        max_background: cfg.max_background,
        congestion_threshold: cfg.congestion_threshold,
        flags: flags & cfg.flags & SUPPORTED_FLAGS,
        time_gran: cfg.time_gran,
    }
}

/// The answer to the kernel's INIT proposal.
pub open spec fn negotiation(
    cfg: SessionInitializer,
    major: u32,
    minor: u32,
    max_readahead: u32,
    flags: u32,
) -> InitOutcome {
    if major < KERNEL_VERSION {
        InitOutcome::Reject
    } else if major > KERNEL_VERSION {
        InitOutcome::Propose
    } else {
        InitOutcome::Accept(negotiated(cfg, minor, max_readahead, flags))
    }
}

impl SessionInitializer {
    /// The default proposal: every supported capability, a 128 KiB write size,
    /// and the default background limits.
    pub fn new() -> (r: Self)
        ensures
            r.max_readahead == u32::MAX,
            r.flags == SUPPORTED_FLAGS,
            r.max_write == DEFAULT_MAX_WRITE,
            r.max_background == DEFAULT_MAX_BACKGROUND,
            r.congestion_threshold == DEFAULT_CONGESTION_THRESHOLD,
            r.time_gran == 1,
    {
        SessionInitializer {
            max_readahead: u32::MAX,
            flags: SUPPORTED_FLAGS,
            max_write: DEFAULT_MAX_WRITE,
            max_background: DEFAULT_MAX_BACKGROUND,
            congestion_threshold: DEFAULT_CONGESTION_THRESHOLD,
            time_gran: 1,
        }
    }

    /// Decides the answer to the kernel's INIT proposal.
    pub fn negotiate(&self, major: u32, minor: u32, max_readahead: u32, flags: u32) -> (r:
        InitOutcome)
        ensures
            r == negotiation(*self, major, minor, max_readahead, flags),
    {
        if major < KERNEL_VERSION {
            InitOutcome::Reject
        } else if major > KERNEL_VERSION {
            InitOutcome::Propose
        } else {
            InitOutcome::Accept(
                ConnectionInfo {
                    proto_major: KERNEL_VERSION,
                    proto_minor: if minor < KERNEL_MINOR_VERSION {
                        minor
                    } else {
                        KERNEL_MINOR_VERSION
                    },
                    max_readahead: if max_readahead < self.max_readahead {
                        max_readahead
                    } else {
                        self.max_readahead
                    },
                    max_write: if self.max_write < MIN_MAX_WRITE {
                        MIN_MAX_WRITE
                    } else {
                        self.max_write
                    },
                    max_background: self.max_background,
                    congestion_threshold: self.congestion_threshold,
                    flags: flags & self.flags & SUPPORTED_FLAGS,
                    time_gran: self.time_gran,
                },
            )
        }
    }
}

/// The full `fuse_init_out` record for `c`.
pub open spec fn init_out_bytes(c: ConnectionInfo) -> Seq<u8> {
    le32(c.proto_major) + le32(c.proto_minor) + le32(c.max_readahead) + le32(c.flags) + le16(
        c.max_background,
    ) + le16(c.congestion_threshold) + le32(c.max_write) + le32(c.time_gran) + Seq::new(
        36,
        |i: int| 0u8,
    )
}

/// The `fuse_init_out` record as a kernel of the negotiated minor version reads it.
pub open spec fn init_payload(c: ConnectionInfo) -> Seq<u8> {
    if c.proto_minor < INIT_OUT_FULL_MINOR {
        init_out_bytes(c).subrange(0, INIT_OUT_COMPAT_SIZE as int)
    } else {
        init_out_bytes(c)
    }
}

/// The version-only reply that asks a newer kernel to retry.
pub open spec fn proposal_info() -> ConnectionInfo {
    ConnectionInfo {
        proto_major: KERNEL_VERSION,
        proto_minor: KERNEL_MINOR_VERSION,
        max_readahead: 0,
        max_write: 0,
        max_background: 0,
        congestion_threshold: 0,
        flags: 0,
        time_gran: 0,
    }
}

/// The reply to an INIT request with the given unique.
pub open spec fn init_reply(unique: u64, outcome: InitOutcome) -> Seq<u8> {
    match outcome {
        InitOutcome::Reject => message_bytes(unique, -EPROTO as i32, Seq::empty()),
        InitOutcome::Propose => message_bytes(unique, 0, init_out_bytes(proposal_info())),
        InitOutcome::Accept(c) => message_bytes(unique, 0, init_payload(c)),
    }
}

fn encode_init_out(c: &ConnectionInfo) -> (r: Vec<u8>)
    ensures
        r@ == init_out_bytes(*c),
{
    let mut out: Vec<u8> = Vec::new();
    push_u32(&mut out, c.proto_major);
    push_u32(&mut out, c.proto_minor);
    push_u32(&mut out, c.max_readahead);
    push_u32(&mut out, c.flags);
    push_u16(&mut out, c.max_background);
    push_u16(&mut out, c.congestion_threshold);
    push_u32(&mut out, c.max_write);
    push_u32(&mut out, c.time_gran);
    let ghost head = out@;
    let mut i: usize = 0;
    while i < 36
        invariant
            i <= 36,
            out@ == head + Seq::new(i as nat, |k: int| 0u8),
        decreases 36 - i,
    {
        out.push(0);
        i = i + 1;
        assert(out@ =~= head + Seq::new(i as nat, |k: int| 0u8));
    }
    assert(out@ =~= init_out_bytes(*c));
    out
}

/// Frames the reply to an INIT request.
pub fn reply_init(unique: u64, outcome: &InitOutcome) -> (r: Vec<u8>)
    ensures
        r@ == init_reply(unique, *outcome),
{
    match outcome {
        InitOutcome::Reject => {
            let empty: Vec<u8> = Vec::new();
            frame_message(unique, -EPROTO, empty.as_slice())
        },
        InitOutcome::Propose => {
            let c = ConnectionInfo {
                proto_major: KERNEL_VERSION,
                proto_minor: KERNEL_MINOR_VERSION,
                max_readahead: 0,
                max_write: 0,
                max_background: 0,
                congestion_threshold: 0,
                flags: 0,
                time_gran: 0,
            };
            let payload = encode_init_out(&c);
            frame_message(unique, 0, payload.as_slice())
        },
        InitOutcome::Accept(c) => {
            let full = encode_init_out(c);
            if c.proto_minor < INIT_OUT_FULL_MINOR {
                frame_message(unique, 0, &full.as_slice()[0..INIT_OUT_COMPAT_SIZE])
            } else {
                frame_message(unique, 0, full.as_slice())
            }
        },
    }
}

/// An accepted handshake never grants a capability that the kernel did not
/// offer or the daemon does not support, never raises the kernel's minor
/// version or read-ahead, and always allows writes of at least 4 KiB.
pub proof fn lemma_negotiation_bounds(
    cfg: SessionInitializer,
    minor: u32,
    max_readahead: u32,
    flags: u32,
)
    ensures
        ({
            let c = negotiated(cfg, minor, max_readahead, flags);
            &&& c.proto_major == KERNEL_VERSION
            &&& c.proto_minor <= minor
            &&& c.max_readahead <= max_readahead
            &&& c.max_write >= MIN_MAX_WRITE
            &&& c.flags & flags == c.flags
            &&& c.flags & SUPPORTED_FLAGS == c.flags
            &&& c.flags & cfg.flags == c.flags
        }),
{
    let f = flags & cfg.flags & SUPPORTED_FLAGS;
    let g = cfg.flags;
    let sup = SUPPORTED_FLAGS;
    assert(f & flags == f && f & sup == f && f & g == f) by (bit_vector)
        requires
            f == flags & g & sup,
    ;
}

} // verus!
