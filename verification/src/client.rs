//! The network session.
//!
//! A [`Client`] owns the local side of the connection to the remote
//! simulation authority. Once per frame the orchestrator calls
//! [`Client::tick`]: the client hands the transport a packet carrying the
//! aggregated movement input and every chat message queued since the last
//! tick, and classifies what the transport produced in return — a batch of
//! server events delivered in order, or exactly one [`Error`] kind.
//!
//! The transport exchange itself (sockets, polling, timeouts) is the host's
//! concern; it is presented to `tick` as a plain [`TransportOutcome`] value,
//! so the classification and sequencing rules here are proved for every
//! possible outcome.

use vstd::prelude::*;

use crate::error::{Error, PostError};
use crate::key_state::DirVec;

verus! {

/// Per-tick input transmitted to the remote authority.
#[derive(Clone, Copy, Debug, PartialEq, Eq, Structural)]
pub struct Input {
    /// The aggregated movement direction.
    pub move_dir: DirVec,
}

/// A server-originated session event, delivered by a successful tick.
#[derive(Debug, PartialEq, Eq)]
pub enum Event {
    /// A chat message to display.
    Chat(String),
}

/// One authoritative message received from the server. The authority
/// stamps every message with a sequence number that must increase
/// strictly; a violation is a protocol fault.
#[derive(Debug, PartialEq, Eq)]
pub struct ServerMsg {
    pub seq: u64,
    pub chat: String,
}

/// What the transport produced for one tick.
#[derive(Debug, PartialEq, Eq)]
pub enum TransportOutcome {
    /// Frames arrived and were decoded, in arrival order.
    Received(Vec<ServerMsg>),
    /// No response within the expected window.
    Timeout,
    /// The remote authority performed an orderly disconnect.
    Shutdown,
    /// The transport itself reported a fault.
    Failed(PostError),
}

/// The packet a tick hands to the transport for transmission.
#[derive(Debug, PartialEq, Eq)]
pub struct Packet {
    /// Movement input for this tick.
    pub move_dir: DirVec,
    /// Every chat message queued since the previous tick, oldest first.
    pub chat: Vec<String>,
    /// Time elapsed since the previous tick, in nanoseconds.
    pub dt: u64,
}

/// Whether the first `n` messages are properly sequenced: the first is
/// newer than `after`, and each later one newer than its predecessor.
pub open spec fn msgs_ordered_to(msgs: Seq<ServerMsg>, after: u64, n: int) -> bool {
    &&& n > 0 ==> msgs[0].seq > after
    &&& forall|j: int| 1 <= j < n ==> #[trigger] msgs[j].seq > msgs[j - 1].seq
}

/// Whether a whole batch respects the protocol's sequencing invariant.
pub open spec fn msgs_ordered(msgs: Seq<ServerMsg>, after: u64) -> bool {
    msgs_ordered_to(msgs, after, msgs.len() as int)
}

/// The session events a batch of server messages gives rise to, in the
/// order the messages arrived.
pub open spec fn events_of(msgs: Seq<ServerMsg>) -> Seq<Event> {
    msgs.map(|i: int, m: ServerMsg| Event::Chat(m.chat))
}

/// The chat payloads of a batch of server messages, in arrival order.
pub open spec fn chats_of(msgs: Seq<ServerMsg>) -> Seq<String> {
    msgs.map(|i: int, m: ServerMsg| m.chat)
}

/// The newest sequence number after accepting a batch: that of its last
/// message, or `after` for an empty batch.
pub open spec fn last_seq(msgs: Seq<ServerMsg>, after: u64) -> u64 {
    if msgs.len() == 0 {
        after
    } else {
        msgs.last().seq
    }
}

/// Checks the protocol's sequencing invariant over a received batch:
/// every sequence number must exceed `after` and its predecessor's.
fn check_ordered(msgs: &Vec<ServerMsg>, after: u64) -> (r: bool)
    ensures
        r == msgs_ordered(msgs@, after),
{
    let mut i: usize = 0;
    let mut prev: u64 = after;
    while i < msgs.len()
        invariant
            i <= msgs@.len(),
            msgs_ordered_to(msgs@, after, i as int),
            prev == (if i == 0 {
                after
            } else {
                msgs@[i as int - 1].seq
            }),
        decreases msgs@.len() - i,
    {
        if msgs[i].seq <= prev {
            proof {
                if i > 0 {
                    assert(msgs@[i as int].seq <= msgs@[i as int - 1].seq);
                }
                assert(!msgs_ordered(msgs@, after));
            }
            return false;
        }
        prev = msgs[i].seq;
        i = i + 1;
    }
    true
}

/// Turns a received batch into session events, one per message, in
/// arrival order.
fn events_from(msgs: &Vec<ServerMsg>) -> (r: Vec<Event>)
    ensures
        r@ == events_of(msgs@),
{
    let mut events: Vec<Event> = Vec::new();
    let mut k: usize = 0;
    while k < msgs.len()
        invariant
            k <= msgs@.len(),
            events@.len() == k,
            forall|j: int| 0 <= j < k ==> events@[j] == Event::Chat(msgs@[j].chat),
        decreases msgs@.len() - k,
    {
        let m = &msgs[k];
        events.push(Event::Chat(m.chat.clone()));
        k = k + 1;
    }
    proof {
        assert(events@ =~= events_of(msgs@));
    }
    events
}

/// The local side of a session with the remote simulation authority.
pub struct Client {
    /// Chat messages queued for the next tick's packet, oldest first.
    pub pending_chat: Vec<String>,
    /// The newest sequence number accepted from the server.
    pub last_server_seq: u64,
    /// The packet handed to the transport by the current tick; a transient
    /// per-tick buffer, flushed by [`Client::cleanup`].
    pub last_sent: Option<Packet>,
}

/// The packet a tick on client `c` records for transmission.
pub open spec fn outgoing_packet(c: Client, input: Input, dt: u64) -> Packet {
    Packet { move_dir: input.move_dir, chat: c.pending_chat, dt }
}

impl Client {
    /// Creates a fresh session: nothing queued, nothing sent, no server
    /// message accepted yet.
    pub fn new() -> (r: Client)
        ensures
            r.pending_chat@ == Seq::<String>::empty(),
            r.last_server_seq == 0,
            r.last_sent is None,
    {
        Client { pending_chat: Vec::new(), last_server_seq: 0, last_sent: None }
    }

    /// Queues a chat message for transmission with the next tick.
    pub fn send_chat(&mut self, msg: String)
        ensures
            final(self).pending_chat@ == old(self).pending_chat@.push(msg),
            final(self).last_server_seq == old(self).last_server_seq,
            final(self).last_sent == old(self).last_sent,
    {
        self.pending_chat.push(msg);
    }

    /// One per-frame synchronization step.
    ///
    /// Records the outgoing packet — the movement input and the whole chat
    /// queue, which is drained — and classifies the transport's outcome:
    /// a transport fault maps to [`Error::Network`] with that fault, a
    /// missed response window to [`Error::ServerTimeout`], an orderly
    /// remote disconnect to [`Error::ServerShutdown`], and a batch whose
    /// sequence numbers do not increase strictly past the last accepted
    /// one to [`Error::ServerWentMad`]. A well-sequenced batch yields its
    /// events in arrival order, none dropped, and advances the accepted
    /// sequence number. No outcome is ever classified as [`Error::Other`].
    pub fn tick(&mut self, input: Input, dt: u64, outcome: TransportOutcome) -> (r: Result<
        Vec<Event>,
        Error,
    >)
        ensures
            final(self).last_sent == Some(outgoing_packet(*old(self), input, dt)),
            final(self).pending_chat@ == Seq::<String>::empty(),
            match outcome {
                TransportOutcome::Failed(e) => {
                    &&& r == Err::<Vec<Event>, Error>(Error::Network(e))
                    &&& final(self).last_server_seq == old(self).last_server_seq
                },
                TransportOutcome::Timeout => {
                    &&& r == Err::<Vec<Event>, Error>(Error::ServerTimeout)
                    &&& final(self).last_server_seq == old(self).last_server_seq
                },
                TransportOutcome::Shutdown => {
                    &&& r == Err::<Vec<Event>, Error>(Error::ServerShutdown)
                    &&& final(self).last_server_seq == old(self).last_server_seq
                },
                TransportOutcome::Received(msgs) => {
                    if msgs_ordered(msgs@, old(self).last_server_seq) {
                        &&& r matches Ok(events) && events@ == events_of(msgs@)
                        &&& final(self).last_server_seq == last_seq(
                            msgs@,
                            old(self).last_server_seq,
                        )
                    } else {
                        &&& r == Err::<Vec<Event>, Error>(Error::ServerWentMad)
                        &&& final(self).last_server_seq == old(self).last_server_seq
                    }
                },
            },
    {
        let mut chat: Vec<String> = Vec::new();
        core::mem::swap(&mut chat, &mut self.pending_chat);
        self.last_sent = Some(Packet { move_dir: input.move_dir, chat, dt });

        match outcome {
            TransportOutcome::Failed(e) => Err(Error::from(e)),
            TransportOutcome::Timeout => Err(Error::ServerTimeout),
            TransportOutcome::Shutdown => Err(Error::ServerShutdown),
            TransportOutcome::Received(msgs) => {
                if !check_ordered(&msgs, self.last_server_seq) {
                    return Err(Error::ServerWentMad);
                }
                let n = msgs.len();
                if n > 0 {
                    self.last_server_seq = msgs[n - 1].seq;
                }
                Ok(events_from(&msgs))
            },
        }
    }

    /// End-of-tick cleanup: flushes the transient per-tick send buffer.
    /// The chat queue and the accepted sequence number are untouched.
    pub fn cleanup(&mut self)
        ensures
            final(self).last_sent is None,
            final(self).pending_chat == old(self).pending_chat,
            final(self).last_server_seq == old(self).last_server_seq,
    {
        self.last_sent = None;
    }

    /// The packet the current tick handed to the transport, if any.
    pub fn last_sent(&self) -> (r: &Option<Packet>)
        ensures
            *r == self.last_sent,
    {
        &self.last_sent
    }
}

} // verus!
