//! The per-request lifecycle: handshake gating, dispatch, interrupts, forgets,
//! retrieve correlation and the guarantee of one reply per request.
use vstd::prelude::*;

use crate::decode::{
    accepts, args_of, decode, denotes, header_ok, is_known_opcode, Operation, ProtocolError,
    FUSE_FORGET, FUSE_INIT, FUSE_INTERRUPT, FUSE_NOTIFY_REPLY,
};
use crate::fs::{
    fits_frame, frame_message, in_header_of, lemma_message_framing, message_bytes, parse_in_header,
    InHeader,
};
use crate::init::{
    init_reply, negotiation, reply_init, ConnectionInfo, InitOutcome, SessionInitializer, EPROTO,
    KERNEL_MINOR_VERSION,
};
use crate::notify::{notification, notify_retrieve, retrieve_payload, NOTIFY_RETRIEVE};
use crate::wire::{u32_at, u64_at, IN_HEADER_SIZE, OUT_HEADER_SIZE};

verus! {

pub const EIO: i32 = 5;
pub const ENOSYS: i32 = 38;
/// Opcode of a batch of forgets, which gets no reply either.
pub const FUSE_BATCH_FORGET: u32 = 42;
/// Correlation uniques of retrieve notifications have the high bit set, so
/// that they never collide with the uniques that the kernel assigns.
pub const NOTIFY_UNIQUE_BASE: u64 = 0x8000_0000_0000_0000;

/// Whether requests with this opcode are never answered.
pub open spec fn is_reply_less(opcode: u32) -> bool {
    opcode == FUSE_FORGET || opcode == FUSE_INTERRUPT || opcode == FUSE_BATCH_FORGET || opcode
        == FUSE_NOTIFY_REPLY
}

/// What the caller has to do with one request from the kernel.
#[derive(Debug)]
pub enum Action {
    /// Write these bytes: the engine answered the request itself.
    Reply(Vec<u8>),
    /// Hand the operation to the filesystem; its unique is now in flight.
    Dispatch(InHeader, Operation),
    /// Apply the forget count to the filesystem; nothing is written.
    Forget { ino: u64, nlookup: u64 },
    /// Signal cancellation to the in-flight request with this unique.
    Interrupt(u64),
    /// Deliver the data that answers the retrieve with this correlation unique.
    Retrieved { unique: u64, offset: u64, data: Vec<u8> },
    /// Nothing is to be done or written.
    Ignore,
}

/// The engine's state as contracts see it.
pub struct EngineState {
    /// The handshake result, once there is one.
    pub conn: Option<ConnectionInfo>,
    /// The uniques of the requests dispatched and not yet answered.
    pub in_flight: Seq<u64>,
    /// The correlation uniques of the retrieves not yet answered.
    pub retrieves: Seq<u64>,
    /// The correlation unique that the next retrieve gets.
    pub next_notify: u64,
}

/// The engine's state across requests.
#[derive(Debug)]
pub struct Session {
    init: SessionInitializer,
    conn: Option<ConnectionInfo>,
    in_flight: Vec<u64>,
    retrieves: Vec<u64>,
    next_notify: u64,
}

/// Takes `u` out of a list without repeats, saying whether it was there.
fn take(v: &mut Vec<u64>, u: u64) -> (found: bool)
    requires
        old(v)@.no_duplicates(),
    ensures
        final(v)@.no_duplicates(),
        found == old(v)@.contains(u),
        !final(v)@.contains(u),
        forall|x: u64| x != u ==> (final(v)@.contains(x) <==> old(v)@.contains(x)),
{
    let mut i: usize = 0;
    while i < v.len()
        invariant
            i <= v@.len(),
            v@ == old(v)@,
            v@.no_duplicates(),
            forall|k: int| 0 <= k < i ==> v@[k] != u,
        decreases v@.len() - i,
    {
        if v[i] == u {
            let ghost before = v@;
            v.remove(i);
            proof {
                assert(before.no_duplicates());
                assert forall|k: int| 0 <= k < v@.len() implies v@[k] != u by {
                    if k >= i {
                        assert(before[k + 1] != before[i as int]);
                    }
                }
                assert forall|x: u64| x != u implies (v@.contains(x) <==> before.contains(x)) by {
                    if before.contains(x) {
                        let k = choose|k: int| 0 <= k < before.len() && before[k] == x;
                        if k < i {
                            assert(v@[k] == x);
                        } else {
                            assert(v@[k - 1] == x);
                        }
                    }
                    if v@.contains(x) {
                        let k = choose|k: int| 0 <= k < v@.len() && v@[k] == x;
                        if k < i {
                            assert(before[k] == x);
                        } else {
                            assert(before[k + 1] == x);
                        }
                    }
                }
                assert forall|a: int, b: int| 0 <= a < b < v@.len() implies v@[a] != v@[b] by {
                    let a2 = if a < i {
                        a
                    } else {
                        a + 1
                    };
                    let b2 = if b < i {
                        b
                    } else {
                        b + 1
                    };
                    assert(before[a2] != before[b2]);
                }
            }
            return true;
        }
        i = i + 1;
    }
    false
}

/// Whether `u` is in the list.
fn contains(v: &Vec<u64>, u: u64) -> (r: bool)
    ensures
        r == v@.contains(u),
{
    let mut i: usize = 0;
    while i < v.len()
        invariant
            i <= v@.len(),
            forall|k: int| 0 <= k < i ==> v@[k] != u,
        decreases v@.len() - i,
    {
        if v[i] == u {
            return true;
        }
        i = i + 1;
    }
    false
}

/// Appends `u`, which the list does not hold, keeping it free of repeats.
fn insert_new(v: &mut Vec<u64>, u: u64)
    requires
        old(v)@.no_duplicates(),
        !old(v)@.contains(u),
    ensures
        final(v)@ == old(v)@.push(u),
        final(v)@.no_duplicates(),
{
    v.push(u);
    proof {
        assert forall|i: int, j: int| 0 <= i < j < v@.len() implies v@[i] != v@[j] by {
            if j == v@.len() - 1 {
                assert(old(v)@.contains(v@[i]));
            }
        }
    }
}

impl Session {
    /// The engine's state.
    pub closed spec fn state(&self) -> EngineState {
        EngineState {
            conn: self.conn,
            in_flight: self.in_flight@,
            retrieves: self.retrieves@,
            next_notify: self.next_notify,
        }
    }

    /// The daemon's side of the handshake.
    pub closed spec fn initializer(&self) -> SessionInitializer {
        self.init
    }

    /// No unique is in flight twice, and every pending retrieve has a
    /// correlation unique with the high bit set, below the next one.
    pub closed spec fn inv(&self) -> bool {
        &&& self.in_flight@.no_duplicates()
        &&& self.retrieves@.no_duplicates()
        &&& NOTIFY_UNIQUE_BASE <= self.next_notify
        &&& forall|u: u64|
            #[trigger] self.retrieves@.contains(u) ==> NOTIFY_UNIQUE_BASE <= u < self.next_notify
    }

    /// A session that awaits the kernel's INIT.
    pub fn new(init: SessionInitializer) -> (r: Self)
        ensures
            r.inv(),
            r.initializer() == init,
            r.state().conn is None,
            r.state().in_flight == Seq::<u64>::empty(),
            r.state().retrieves == Seq::<u64>::empty(),
            r.state().next_notify == NOTIFY_UNIQUE_BASE,
    {
        Session {
            init,
            conn: None,
            in_flight: Vec::new(),
            retrieves: Vec::new(),
            next_notify: NOTIFY_UNIQUE_BASE,
        }
    }

    /// The negotiated parameters, once the handshake is done.
    pub fn connection_info(&self) -> (r: Option<ConnectionInfo>)
        ensures
            r == self.state().conn,
    {
        self.conn
    }

    /// Whether `unique` is in flight.
    pub fn is_in_flight(&self, unique: u64) -> (r: bool)
        ensures
            r == self.state().in_flight.contains(unique),
    {
        contains(&self.in_flight, unique)
    }

    /// Decides what to do with the request in `buf`.
    pub fn handle(&mut self, buf: &[u8]) -> (r: Action)
        requires
            old(self).inv(),
        ensures
            final(self).inv(),
            final(self).initializer() == old(self).initializer(),
            old(self).state().conn is Some ==> final(self).state().conn == old(self).state().conn,
            buf@.len() >= IN_HEADER_SIZE && is_reply_less(in_header_of(buf@).opcode) ==> !(r is Reply)
                && !(r is Dispatch) && final(self).state().in_flight == old(self).state().in_flight,
            ({
                let b = buf@;
                let u = u64_at(args_of(b), 0);
                old(self).state().conn is Some && header_ok(b) && in_header_of(b).opcode
                    == FUSE_INTERRUPT && accepts(in_header_of(b), args_of(b), minor_of(old(self).state())) && !old(
                    self,
                ).state().in_flight.contains(u) ==> r is Ignore && final(self).state() == old(
                    self,
                ).state()
            }),
            ({
                let b = buf@;
                let h = in_header_of(b);
                let p = args_of(b);
                if b.len() < IN_HEADER_SIZE {
                    r is Ignore && final(self).state() == old(self).state()
                } else if !(header_ok(b) && accepts(h, p, minor_of(old(self).state()))) {
                    &&& final(self).state() == old(self).state()
                    &&& if is_reply_less(h.opcode) {
                        r is Ignore
                    } else {
                        is_reply(r, message_bytes(h.unique, -EIO as i32, Seq::empty()))
                    }
                } else {
                    step_spec(old(self).initializer(), old(self).state(), h, p, r, final(self).state())
                }
            }),
    {
        let minor = match self.conn {
            Some(c) => c.proto_minor,
            None => KERNEL_MINOR_VERSION,
        };
        let bad = match decode(buf, minor) {
            Ok((h, op)) => {
                return self.step(h, op, Ghost(args_of(buf@)));
            },
            Err(ProtocolError::ShortHeader) => {
                return Action::Ignore;
            },
            Err(_) => parse_in_header(buf),
        };
        if bad.opcode == FUSE_FORGET || bad.opcode == FUSE_INTERRUPT || bad.opcode
            == FUSE_BATCH_FORGET || bad.opcode == FUSE_NOTIFY_REPLY {
            Action::Ignore
        } else {
            let empty: Vec<u8> = Vec::new();
            Action::Reply(frame_message(bad.unique, -EIO, empty.as_slice()))
        }
    }

    fn step(&mut self, h: InHeader, op: Operation, Ghost(p): Ghost<Seq<u8>>) -> (r: Action)
        requires
            old(self).inv(),
            accepts(h, p, minor_of(old(self).state())),
            denotes(h, p, minor_of(old(self).state()), op),
        ensures
            final(self).inv(),
            final(self).initializer() == old(self).initializer(),
            step_spec(old(self).initializer(), old(self).state(), h, p, r, final(self).state()),
    {
        let empty: Vec<u8> = Vec::new();
        if self.conn.is_none() {
            match op {
                Operation::Init { major, minor, max_readahead, flags } => {
                    let outcome = self.init.negotiate(major, minor, max_readahead, flags);
                    if let InitOutcome::Accept(c) = outcome {
                        self.conn = Some(c);
                    }
                    Action::Reply(reply_init(h.unique, &outcome))
                },
                _ => {
                    if h.opcode == FUSE_FORGET || h.opcode == FUSE_INTERRUPT || h.opcode
                        == FUSE_BATCH_FORGET || h.opcode == FUSE_NOTIFY_REPLY {
                        Action::Ignore
                    } else {
                        Action::Reply(frame_message(h.unique, -EPROTO, empty.as_slice()))
                    }
                },
            }
        } else {
            match op {
                Operation::Forget { ino, nlookup } => Action::Forget { ino, nlookup },
                Operation::Interrupt { unique } => {
                    if contains(&self.in_flight, unique) {
                        Action::Interrupt(unique)
                    } else {
                        Action::Ignore
                    }
                },
                Operation::NotifyReply { unique, offset, data, .. } => {
                    if take(&mut self.retrieves, unique) {
                        Action::Retrieved { unique, offset, data }
                    } else {
                        Action::Ignore
                    }
                },
                Operation::Init { .. } => Action::Reply(
                    frame_message(h.unique, -EIO, empty.as_slice()),
                ),
                Operation::Unknown { .. } => {
                    if h.opcode == FUSE_BATCH_FORGET {
                        Action::Ignore
                    } else {
                        Action::Reply(frame_message(h.unique, -ENOSYS, empty.as_slice()))
                    }
                },
                _ => {
                    if contains(&self.in_flight, h.unique) {
                        Action::Ignore
                    } else {
                        insert_new(&mut self.in_flight, h.unique);
                        Action::Dispatch(h, op)
                    }
                },
            }
        }
    }

    /// Answers the in-flight read `unique` with `data`, cut to the `size`
    /// that the request asked for.
    pub fn reply_read(&mut self, unique: u64, size: u32, data: &[u8]) -> (r: Option<Vec<u8>>)
        requires
            old(self).inv(),
            fits_frame(size as nat),
        ensures
            final(self).inv(),
            final(self).initializer() == old(self).initializer(),
            answered(old(self).state(), final(self).state(), unique),
            old(self).state().in_flight.contains(unique) ==> r is Some && r.unwrap()@
                == message_bytes(unique, 0, data@.subrange(0, read_len(size, data@.len()) as int)),
            !old(self).state().in_flight.contains(unique) ==> r is None,
    {
        let n: usize = if (size as usize) < data.len() {
            size as usize
        } else {
            data.len()
        };
        self.complete(unique, 0, &data[0..n])
    }

    /// Answers the in-flight request `unique` with error code `-error` and
    /// `payload`, and takes it out of flight; a request that is not in flight
    /// (answered already, or never dispatched) gets nothing.
    pub fn complete(&mut self, unique: u64, error: i32, payload: &[u8]) -> (r: Option<Vec<u8>>)
        requires
            old(self).inv(),
            error >= 0,
            fits_frame(payload@.len()),
        ensures
            final(self).inv(),
            final(self).initializer() == old(self).initializer(),
            answered(old(self).state(), final(self).state(), unique),
            old(self).state().in_flight.contains(unique) ==> r is Some && r.unwrap()@
                == message_bytes(unique, -error as i32, payload@),
            !old(self).state().in_flight.contains(unique) ==> r is None,
    {
        if take(&mut self.in_flight, unique) {
            Some(frame_message(unique, -error, payload))
        } else {
            None
        }
    }

    /// Closes the request `unique` once its handler has returned: if the
    /// handler did not reply, the reply is the errno it failed with, or
    /// `ENOSYS` when it succeeded without replying; nothing once it has replied.
    pub fn finish(&mut self, unique: u64, failure: Option<i32>) -> (r: Option<Vec<u8>>)
        requires
            old(self).inv(),
            failure matches Some(e) ==> e >= 0,
        ensures
            final(self).inv(),
            final(self).initializer() == old(self).initializer(),
            answered(old(self).state(), final(self).state(), unique),
            old(self).state().in_flight.contains(unique) ==> r is Some && r.unwrap()@
                == message_bytes(
                unique,
                -(match failure {
                    Some(e) => e,
                    None => ENOSYS,
                }) as i32,
                Seq::empty(),
            ),
            !old(self).state().in_flight.contains(unique) ==> r is None,
    {
        let error = match failure {
            Some(e) => e,
            None => ENOSYS,
        };
        let empty: Vec<u8> = Vec::new();
        self.complete(unique, error, empty.as_slice())
    }

    /// Asks the kernel for `size` bytes of `ino` from `offset` under a fresh
    /// correlation unique, which is returned with the notification; `None`
    /// once the correlation uniques are used up.
    pub fn notify_retrieve(&mut self, ino: u64, offset: u64, size: u32) -> (r: Option<(u64, Vec<u8>)>)
        requires
            old(self).inv(),
        ensures
            final(self).inv(),
            final(self).initializer() == old(self).initializer(),
            final(self).state().conn == old(self).state().conn,
            final(self).state().in_flight == old(self).state().in_flight,
            ({
                let s = old(self).state();
                if s.next_notify == u64::MAX {
                    r is None && final(self).state() == s
                } else {
                    &&& r is Some
                    &&& r.unwrap().0 == s.next_notify
                    &&& r.unwrap().1@ == notification(
                        NOTIFY_RETRIEVE,
                        retrieve_payload(s.next_notify, ino, offset, size),
                    )
                    &&& final(self).state().retrieves == s.retrieves.push(s.next_notify)
                    &&& final(self).state().next_notify == s.next_notify + 1
                }
            }),
    {
        if self.next_notify == u64::MAX {
            return None;
        }
        let u = self.next_notify;
        insert_new(&mut self.retrieves, u);
        self.next_notify = u + 1;
        assert forall|x: u64| #[trigger] self.retrieves@.contains(x) implies NOTIFY_UNIQUE_BASE <= x
            < self.next_notify by {
            if x != u {
                assert(old(self).retrieves@.contains(x));
            }
        }
        Some((u, notify_retrieve(u, ino, offset, size)))
    }
}

/// The request `unique` has been answered: it is no longer in flight, and
/// nothing else changed.
pub open spec fn answered(before: EngineState, after: EngineState, unique: u64) -> bool {
    &&& after.conn == before.conn
    &&& after.retrieves == before.retrieves
    &&& after.next_notify == before.next_notify
    &&& !after.in_flight.contains(unique)
    &&& forall|u: u64|
        u != unique ==> (after.in_flight.contains(u) <==> before.in_flight.contains(u))
}

/// The minor version whose layouts the requests in state `s` are read with:
/// the negotiated one, or this engine's own before the handshake.
pub open spec fn minor_of(s: EngineState) -> u32 {
    match s.conn {
        Some(c) => c.proto_minor,
        None => KERNEL_MINOR_VERSION,
    }
}

/// Whether `r` writes exactly `bytes`.
pub open spec fn is_reply(r: Action, bytes: Seq<u8>) -> bool {
    r matches Action::Reply(v) && v@ == bytes
}

/// The step that a well-formed request with header `h` and arguments `p`
/// takes from state `s`: the action `r` and the state `t` after it.
pub open spec fn step_spec(
    init: SessionInitializer,
    s: EngineState,
    h: InHeader,
    p: Seq<u8>,
    r: Action,
    t: EngineState,
) -> bool {
    &&& t.in_flight.len() <= s.in_flight.len() + 1
    &&& match s.conn {
        None => {
            &&& t.in_flight == s.in_flight
            &&& t.retrieves == s.retrieves
            &&& t.next_notify == s.next_notify
            &&& if h.opcode == FUSE_INIT {
                let outcome = negotiation(
                    init,
                    u32_at(p, 0),
                    u32_at(p, 4),
                    u32_at(p, 8),
                    u32_at(p, 12),
                );
                &&& is_reply(r, init_reply(h.unique, outcome))
                &&& t.conn == match outcome {
                    InitOutcome::Accept(c) => Some(c),
                    _ => None,
                }
            } else if is_reply_less(h.opcode) {
                r is Ignore && t.conn is None
            } else {
                is_reply(r, message_bytes(h.unique, -EPROTO as i32, Seq::empty())) && t.conn is None
            }
        },
        Some(_) => {
            &&& t.conn == s.conn
            &&& t.next_notify == s.next_notify
            &&& if h.opcode == FUSE_FORGET {
                t == s && r == Action::Forget { ino: h.nodeid, nlookup: u64_at(p, 0) }
            } else if h.opcode == FUSE_INTERRUPT {
                let u = u64_at(p, 0);
                t == s && if s.in_flight.contains(u) {
                    r == Action::Interrupt(u)
                } else {
                    r is Ignore
                }
            } else if h.opcode == FUSE_NOTIFY_REPLY {
                &&& t.in_flight == s.in_flight
                &&& !t.retrieves.contains(h.unique)
                &&& forall|u: u64|
                    u != h.unique ==> (t.retrieves.contains(u) <==> s.retrieves.contains(u))
                &&& if s.retrieves.contains(h.unique) {
                    r matches Action::Retrieved { unique, offset, data } && unique == h.unique
                        && offset == u64_at(p, 8) && data@ == p.subrange(40, p.len() as int)
                } else {
                    r is Ignore
                }
            } else if h.opcode == FUSE_INIT {
                t == s && is_reply(r, message_bytes(h.unique, -EIO as i32, Seq::empty()))
            } else if h.opcode == FUSE_BATCH_FORGET {
                t == s && r is Ignore
            } else if !is_known_opcode(h.opcode) {
                t == s && is_reply(r, message_bytes(h.unique, -ENOSYS as i32, Seq::empty()))
            } else if s.in_flight.contains(h.unique) {
                t == s && r is Ignore
            } else {
                &&& t.in_flight == s.in_flight.push(h.unique)
                &&& t.retrieves == s.retrieves
                &&& r matches Action::Dispatch(h2, op)
                &&& h2 == h
                &&& denotes(h, p, minor_of(s), op)
            }
        },
    }
}

/// How many bytes of `available` a read of `size` bytes carries.
pub open spec fn read_len(size: u32, available: nat) -> nat {
    if (size as nat) < available {
        size as nat
    } else {
        available
    }
}

/// A read reply never carries more than the request's size, and its length
/// field counts the header and exactly that payload.
pub proof fn lemma_read_reply_bounded(unique: u64, size: u32, data: Seq<u8>)
    requires
        fits_frame(size as nat),
    ensures
        ({
            let payload = data.subrange(0, read_len(size, data.len()) as int);
            let m = message_bytes(unique, 0, payload);
            &&& payload.len() <= size
            &&& m.len() == OUT_HEADER_SIZE + payload.len()
            &&& u32_at(m, 0) as nat == m.len()
        }),
{
    let payload = data.subrange(0, read_len(size, data.len()) as int);
    lemma_message_framing(unique, 0, payload);
}

} // verus!
