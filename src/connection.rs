//! The connection state: a FIFO backlog of calls, a single in-flight slot and
//! a flush flag, driven through a transport's two-phase send one call at a time.
//!
//! The transport itself lives outside the library. One poll cycle runs:
//! `on_flush` (when a flush is outstanding), `start_send_next` (buffering the
//! frame it returns, and `on_buffer_failed` if that fails), `on_send_ready`
//! (when a call is in flight), then `on_receive` with what the transport read.
use vstd::prelude::*;
use std::collections::VecDeque;
use vstd::arithmetic::div_mod::{lemma_add_mod_noop, lemma_mod_equivalence, lemma_small_mod};
use crate::call::{encode_call, frame_of, CallId, EncodeError, MethodCall};
use crate::envelope::{decode_frame, frame_decodes_to, DecodeError, Message};
use crate::json::json_text_valid;

verus! {

/// A failure the transport reported, as text.
#[derive(Clone, Debug, PartialEq, Eq)]
pub struct TransportError {
    pub message: String,
}

/// What the transport said when asked to confirm a flush.
#[derive(Clone, Debug, PartialEq, Eq)]
pub enum FlushPoll {
    Flushed,
    NotReady,
    Failed(TransportError),
}

/// What the transport said when asked for the next inbound frame.
#[derive(Clone, Debug, PartialEq, Eq)]
pub enum Received {
    Frame(Vec<u8>),
    EndOfStream,
    NotReady,
    Failed(TransportError),
}

/// A failure surfaced as an item of the message sequence.
#[derive(Clone, Debug, PartialEq, Eq)]
pub enum ConnectionError {
    Encode(EncodeError),
    Decode(DecodeError),
    Transport(TransportError),
}

/// The outcome of one poll of the message sequence.
#[derive(Debug, PartialEq, Eq)]
pub enum PollItem {
    /// The sequence yields an item.
    Item(Result<Message, ConnectionError>),
    /// No item yet; poll again later.
    Pending,
    /// The sequence has ended.
    Terminated,
}

/// The number of distinct call ids.
pub open spec fn id_space() -> nat {
    usize::MAX as nat + 1
}

/// A decoding result as an item of the message sequence.
pub open spec fn decoded_item(r: Result<Message, DecodeError>) -> Result<Message, ConnectionError> {
    match r {
        Ok(m) => Ok(m),
        Err(e) => Err(ConnectionError::Decode(e)),
    }
}

/// Each call's id is its position in submission order, wrapped into the id space.
pub open spec fn ids_follow_positions(calls: Seq<MethodCall>) -> bool {
    forall|i: int| 0 <= i < calls.len() ==> (#[trigger] calls[i]).id.0 as int == i % id_space() as int
}

/// Strictly increasing positions, all below `bound`.
pub open spec fn positions_ordered(ps: Seq<int>, bound: int) -> bool {
    &&& forall|i: int, j: int| 0 <= i < j < ps.len() ==> #[trigger] ps[i] < #[trigger] ps[j]
    &&& forall|i: int| 0 <= i < ps.len() ==> 0 <= #[trigger] ps[i] < bound
}

pub struct Connection {
    /// Calls waiting to be sent, oldest first.
    pending_commands: VecDeque<MethodCall>,
    next_id: usize,
    /// A frame sits in the transport's buffer and its flush is not confirmed.
    needs_flush: bool,
    /// The call whose frame was handed to the transport, awaiting send readiness.
    pending_flush: Option<MethodCall>,
    /// The transport reported the end of its stream; the sequence has ended.
    terminated: bool,
    /// Every call submitted so far, in order.
    submitted: Ghost<Seq<MethodCall>>,
    /// The positions in `submitted` of the calls whose frames were handed to
    /// the transport, in the order they were handed over.
    sent: Ghost<Seq<int>>,
}

impl Connection {
    pub closed spec fn backlog(&self) -> Seq<MethodCall> {
        self.pending_commands@
    }

    pub closed spec fn submitted(&self) -> Seq<MethodCall> {
        self.submitted@
    }

    pub closed spec fn sent(&self) -> Seq<int> {
        self.sent@
    }

    pub closed spec fn in_flight(&self) -> Option<MethodCall> {
        self.pending_flush
    }

    pub closed spec fn is_terminated(&self) -> bool {
        self.terminated
    }

    pub closed spec fn flush_pending(&self) -> bool {
        self.needs_flush
    }

    pub closed spec fn next_id_value(&self) -> nat {
        self.next_id as nat
    }

    /// How many submitted calls have left the backlog.
    pub open spec fn taken(&self) -> int {
        self.submitted().len() - self.backlog().len()
    }

    /// Frames handed to the transport whose flush is not yet confirmed.
    pub open spec fn unflushed(&self) -> nat {
        (if self.in_flight() is Some { 1nat } else { 0nat }) + (if self.flush_pending() { 1nat } else { 0nat })
    }

    pub closed spec fn wf(&self) -> bool {
        &&& self.backlog().len() <= self.submitted().len()
        &&& self.backlog() == self.submitted().subrange(self.taken(), self.submitted().len() as int)
        &&& ids_follow_positions(self.submitted())
        &&& self.next_id as int == self.submitted().len() as int % id_space() as int
        &&& !(self.needs_flush && self.pending_flush is Some)
        &&& self.pending_flush is Some ==> {
            &&& self.sent().len() > 0
            &&& self.pending_flush == Some(self.submitted()[self.sent().last()])
        }
        &&& positions_ordered(self.sent(), self.taken())
    }

    /// A connection with nothing submitted, nothing in flight, and ids starting at zero.
    pub fn new() -> (c: Connection)
        ensures
            c.wf(),
            c.submitted() == Seq::<MethodCall>::empty(),
            c.backlog() == Seq::<MethodCall>::empty(),
            c.sent() == Seq::<int>::empty(),
            c.in_flight() is None,
            !c.flush_pending(),
            !c.is_terminated(),
            c.next_id_value() == 0,
    {
        let c = Connection {
            pending_commands: VecDeque::new(),
            next_id: 0,
            needs_flush: false,
            terminated: false,
            pending_flush: None,
            submitted: Ghost(Seq::empty()),
            sent: Ghost(Seq::empty()),
        };
        proof {
            lemma_small_mod(0, id_space());
            assert(c.backlog() =~= c.submitted().subrange(0, 0));
        }
        c
    }

    /// Takes the next id; the counter wraps from its largest value to zero.
    fn next_call_id(&mut self) -> (r: CallId)
        ensures
            r.0 == old(self).next_id,
            final(self).next_id == if old(self).next_id == usize::MAX { 0 } else { old(self).next_id + 1 },
            final(self).pending_commands == old(self).pending_commands,
            final(self).needs_flush == old(self).needs_flush,
            final(self).pending_flush == old(self).pending_flush,
            final(self).terminated == old(self).terminated,
            final(self).submitted == old(self).submitted,
            final(self).sent == old(self).sent,
    {
        let id = CallId::new(self.next_id);
        self.next_id = self.next_id.wrapping_add(1);
        id
    }

    /// Queues a call for sending and returns its id. Nothing is sent here.
    pub fn submit_command(&mut self, method: String, session_id: Option<String>, params: String) -> (r: CallId)
        requires
            old(self).wf(),
        ensures
            final(self).wf(),
            r.0 as nat == old(self).next_id_value(),
            r.0 as int == old(self).submitted().len() as int % id_space() as int,
            final(self).next_id_value() == if old(self).next_id_value() == usize::MAX as nat { 0 } else {
                old(self).next_id_value() + 1
            },
            final(self).submitted() == old(self).submitted().push(
                (MethodCall { id: r, method, session_id, params }),
            ),
            final(self).backlog() == old(self).backlog().push(
                (MethodCall { id: r, method, session_id, params }),
            ),
            final(self).sent() == old(self).sent(),
            final(self).in_flight() == old(self).in_flight(),
            final(self).flush_pending() == old(self).flush_pending(),
            final(self).is_terminated() == old(self).is_terminated(),
    {
        let ghost n = self.submitted@.len();
        proof {
            lemma_mod_succ(n as int, id_space() as int);
        }
        let id = self.next_call_id();
        let call = MethodCall { id, method, session_id, params };
        let ghost g = call;
        self.pending_commands.push_back(call);
        proof {
            self.submitted@ = self.submitted@.push(g);
            assert(self.backlog() =~= self.submitted().subrange(self.taken(), self.submitted().len() as int));
        }
        id
    }

    /// Whether a buffered frame awaits flush confirmation.
    pub fn flush_outstanding(&self) -> (r: bool)
        ensures
            r == self.flush_pending(),
    {
        self.needs_flush
    }

    /// Whether a call's frame waits for the transport to become ready.
    pub fn has_in_flight(&self) -> (r: bool)
        ensures
            r == self.in_flight() is Some,
    {
        self.pending_flush.is_some()
    }

    /// Takes the transport's answer to a flush: a confirmed flush clears the
    /// flag, a failure is surfaced, and anything else leaves it set.
    pub fn on_flush(&mut self, outcome: FlushPoll) -> (r: Result<(), ConnectionError>)
        requires
            old(self).wf(),
            old(self).flush_pending(),
        ensures
            final(self).wf(),
            final(self).flush_pending() == !(outcome is Flushed),
            r == match outcome {
                FlushPoll::Failed(e) => Err(ConnectionError::Transport(e)),
                _ => Ok(()),
            },
            final(self).backlog() == old(self).backlog(),
            final(self).submitted() == old(self).submitted(),
            final(self).sent() == old(self).sent(),
            final(self).in_flight() == old(self).in_flight(),
            final(self).next_id_value() == old(self).next_id_value(),
            final(self).is_terminated() == old(self).is_terminated(),
    {
        match outcome {
            FlushPoll::Flushed => {
                self.needs_flush = false;
                Ok(())
            },
            FlushPoll::NotReady => Ok(()),
            FlushPoll::Failed(e) => Err(ConnectionError::Transport(e)),
        }
    }

    /// When nothing is in flight and no flush is outstanding, takes the oldest
    /// call off the backlog and returns its frame for the transport's send
    /// buffer; the call then stands in flight. A call whose parameters are not
    /// JSON is dropped and the failure returned. Otherwise nothing changes.
    pub fn start_send_next(&mut self) -> (r: Result<Option<String>, ConnectionError>)
        requires
            old(self).wf(),
        ensures
            final(self).wf(),
            final(self).submitted() == old(self).submitted(),
            final(self).flush_pending() == old(self).flush_pending(),
            final(self).next_id_value() == old(self).next_id_value(),
            final(self).is_terminated() == old(self).is_terminated(),
            old(self).unflushed() > 0 || old(self).backlog().len() == 0 ==> {
                &&& r == Ok::<Option<String>, ConnectionError>(None)
                &&& final(self).backlog() == old(self).backlog()
                &&& final(self).sent() == old(self).sent()
                &&& final(self).in_flight() == old(self).in_flight()
            },
            old(self).unflushed() == 0 && old(self).backlog().len() > 0 ==> {
                &&& final(self).backlog() == old(self).backlog().drop_first()
                &&& json_text_valid(old(self).backlog()[0].params@) ==> {
                    &&& r is Ok && r->Ok_0 is Some
                    &&& r->Ok_0->Some_0@ == frame_of(old(self).backlog()[0])
                    &&& final(self).in_flight() == Some(old(self).backlog()[0])
                    &&& final(self).sent() == old(self).sent().push(old(self).taken())
                }
                &&& !json_text_valid(old(self).backlog()[0].params@) ==> {
                    &&& r == Err::<Option<String>, ConnectionError>(
                        ConnectionError::Encode(EncodeError::InvalidParams),
                    )
                    &&& final(self).in_flight() is None
                    &&& final(self).sent() == old(self).sent()
                }
            },
    {
        if self.pending_flush.is_some() || self.needs_flush {
            return Ok(None);
        }
        let ghost t = self.taken();
        let cmd = match self.pending_commands.pop_front() {
            Some(c) => c,
            None => return Ok(None),
        };
        proof {
            assert(self.backlog() =~= self.submitted().subrange(self.taken(), self.submitted().len() as int));
        }
        match encode_call(&cmd) {
            Ok(frame) => {
                self.pending_flush = Some(cmd);
                proof {
                    self.sent@ = self.sent@.push(t);
                }
                Ok(Some(frame))
            },
            Err(e) => Err(ConnectionError::Encode(e)),
        }
    }

    /// The transport refused the frame of the call in flight: the call is
    /// dropped and the failure surfaced.
    pub fn on_buffer_failed(&mut self, e: TransportError) -> (r: ConnectionError)
        requires
            old(self).wf(),
        ensures
            final(self).wf(),
            r == ConnectionError::Transport(e),
            final(self).in_flight() is None,
            final(self).flush_pending() == old(self).flush_pending(),
            final(self).backlog() == old(self).backlog(),
            final(self).submitted() == old(self).submitted(),
            final(self).sent() == old(self).sent(),
            final(self).next_id_value() == old(self).next_id_value(),
            final(self).is_terminated() == old(self).is_terminated(),
    {
        self.pending_flush = None;
        ConnectionError::Transport(e)
    }

    /// Takes whether the transport is ready for another send: if so, the frame
    /// of the call in flight counts as buffered and awaits its flush.
    pub fn on_send_ready(&mut self, ready: bool)
        requires
            old(self).wf(),
        ensures
            final(self).wf(),
            ready && old(self).in_flight() is Some ==> {
                &&& final(self).in_flight() is None
                &&& final(self).flush_pending()
            },
            !(ready && old(self).in_flight() is Some) ==> {
                &&& final(self).in_flight() == old(self).in_flight()
                &&& final(self).flush_pending() == old(self).flush_pending()
            },
            final(self).backlog() == old(self).backlog(),
            final(self).submitted() == old(self).submitted(),
            final(self).sent() == old(self).sent(),
            final(self).next_id_value() == old(self).next_id_value(),
            final(self).is_terminated() == old(self).is_terminated(),
    {
        if ready && self.pending_flush.is_some() {
            self.pending_flush = None;
            self.needs_flush = true;
        }
    }

    /// Whether the sequence has ended.
    pub fn terminated(&self) -> (r: bool)
        ensures
            r == self.is_terminated(),
    {
        self.terminated
    }

    /// Turns what the transport read into the poll's outcome: a frame is
    /// decoded into one item, a read failure is one error item, the end of the
    /// stream ends the sequence for good, and no data means no item yet.
    /// Once the sequence has ended, every poll reports its end.
    pub fn on_receive(&mut self, received: Received) -> (r: PollItem)
        requires
            old(self).wf(),
        ensures
            final(self).wf(),
            final(self).is_terminated() == (old(self).is_terminated() || received is EndOfStream),
            old(self).is_terminated() || received is EndOfStream ==> r is Terminated,
            !old(self).is_terminated() ==> {
                &&& received is NotReady ==> r is Pending
                &&& received matches Received::Failed(e) ==> r == PollItem::Item(
                    Err(ConnectionError::Transport(e)),
                )
                &&& received matches Received::Frame(b) ==> exists|d: Result<Message, DecodeError>|
                    frame_decodes_to(b@, d) && r == PollItem::Item(decoded_item(d))
            },
            final(self).backlog() == old(self).backlog(),
            final(self).submitted() == old(self).submitted(),
            final(self).sent() == old(self).sent(),
            final(self).in_flight() == old(self).in_flight(),
            final(self).flush_pending() == old(self).flush_pending(),
            final(self).next_id_value() == old(self).next_id_value(),
    {
        if self.terminated {
            return PollItem::Terminated;
        }
        match received {
            Received::Frame(b) => {
                let d = decode_frame(b.as_slice());
                let ghost dg = d;
                let item = match d {
                    Ok(m) => Ok(m),
                    Err(e) => Err(ConnectionError::Decode(e)),
                };
                assert(item == decoded_item(dg));
                PollItem::Item(item)
            },
            Received::EndOfStream => {
                self.terminated = true;
                PollItem::Terminated
            },
            Received::NotReady => PollItem::Pending,
            Received::Failed(e) => PollItem::Item(Err(ConnectionError::Transport(e))),
        }
    }
}

/// Ids follow submission order: the call submitted at position `i` has id
/// `i` wrapped into the id space, so ids strictly increase until the counter wraps.
pub proof fn lemma_call_ids_increase(c: &Connection, i: int, j: int)
    requires
        c.wf(),
        0 <= i < j < c.submitted().len(),
        j < id_space(),
    ensures
        c.submitted()[i].id.0 as int == i,
        c.submitted()[j].id.0 as int == j,
        c.submitted()[i].id.0 < c.submitted()[j].id.0,
{
    lemma_small_mod(i as nat, id_space());
    lemma_small_mod(j as nat, id_space());
}

/// Two calls submitted fewer than `usize::MAX + 1` submissions apart have
/// distinct ids.
pub proof fn lemma_call_ids_distinct(c: &Connection, i: int, j: int)
    requires
        c.wf(),
        0 <= i < j < c.submitted().len(),
        j - i < id_space(),
    ensures
        c.submitted()[i].id != c.submitted()[j].id,
{
    let m = id_space() as int;
    lemma_mod_equivalence(j, i, m);
    lemma_small_mod((j - i) as nat, id_space());
}

/// The backlog is what is left of the submitted calls once the oldest ones
/// have been taken; the frames handed to the transport belong to taken calls,
/// in submission order; and at most one frame is buffered but unflushed.
pub proof fn lemma_frames_follow_submission(c: &Connection)
    requires
        c.wf(),
    ensures
        c.backlog() == c.submitted().subrange(c.taken(), c.submitted().len() as int),
        forall|i: int, j: int| 0 <= i < j < c.sent().len() ==> #[trigger] c.sent()[i] < #[trigger] c.sent()[j],
        forall|i: int| 0 <= i < c.sent().len() ==> 0 <= #[trigger] c.sent()[i] < c.taken(),
        c.unflushed() <= 1,
        c.in_flight() is Some ==> c.sent().len() > 0 && c.in_flight() == Some(c.submitted()[c.sent().last()]),
{
}

proof fn lemma_mod_succ(a: int, m: int)
    requires
        a >= 0,
        m > 1,
    ensures
        (a + 1) % m == if a % m + 1 == m { 0 } else { a % m + 1 },
{
    lemma_add_mod_noop(a, 1, m);
    lemma_small_mod(1, m as nat);
    if a % m + 1 < m {
        lemma_small_mod((a % m + 1) as nat, m as nat);
    } else {
        vstd::arithmetic::div_mod::lemma_mod_self_0(m);
    }
}

} // verus!
