//! Incoming and outgoing interkernel messages of one session.

use std::collections::VecDeque;
use vstd::prelude::*;
use crate::frame::append_range;
use crate::frame::first_count;
use crate::frame::first_payload;
use crate::frame::first_tag;
use crate::frame::to_wire;
use crate::frame::wire_bytes;
use crate::satellite::error::Error;
use crate::satellite::error::ErrorView;
use crate::satellite::error::result_view;
use crate::satellite::sliceable::SliceMeta;
use crate::satellite::sliceable::Sliceable;
use crate::satellite::sliceable::SliceableView;

verus! {

/// An interkernel message as the kernel will receive it.
#[derive(Debug)]
pub struct Message {
    pub count: u8,
    pub tag: u8,
    pub data: Vec<u8>,
}

/// The mathematical content of a [`Message`].
pub struct MessageView {
    pub count: u8,
    pub tag: u8,
    pub data: Seq<u8>,
}

impl View for Message {
    type V = MessageView;

    open spec fn view(&self) -> MessageView {
        MessageView { count: self.count, tag: self.tag, data: self.data@ }
    }
}

/// Progress of the one outgoing message.
#[derive(Debug, Clone, Copy, PartialEq, Eq, Structural)]
pub enum OutMessageState {
    NoMessage,
    MessageReady,
    MessageBeingSent,
    MessageSent,
    MessageAcknowledged,
}

/// The mathematical content of a [`MessageManager`].
pub struct MessageManagerView {
    pub out_message: Option<SliceableView>,
    pub out_state: OutMessageState,
    pub in_queue: Seq<MessageView>,
    pub in_buffer: Option<MessageView>,
}

/// What a call on the message manager's outgoing half gave back.
pub enum OutReturn {
    Nothing,
    Flag(bool),
    Slice(Option<SliceMeta>),
}

/// A call on the message manager's outgoing half.
pub enum OutCall {
    AcceptOutgoing { count: u8, encoded: Seq<u8> },
    IsOutgoingReady,
    GetOutgoingSlice { size: nat },
    AckSlice,
    WasMessageAcknowledged,
}

impl MessageManagerView {
    /// A message is held exactly while it is ready or being sent, and its
    /// cursor is within its data.
    pub open spec fn wf(self) -> bool {
        &&& self.out_message is Some <==> (self.out_state == OutMessageState::MessageReady
            || self.out_state == OutMessageState::MessageBeingSent)
        &&& self.out_message matches Some(m) ==> m.wf()
    }

    pub open spec fn empty() -> MessageManagerView {
        MessageManagerView {
            out_message: None,
            out_state: OutMessageState::NoMessage,
            in_queue: Seq::empty(),
            in_buffer: None,
        }
    }

    /// The message under assembly after `frame` has been added to it.
    pub open spec fn assembled(self, frame: Seq<u8>) -> MessageView {
        match self.in_buffer {
            Some(m) => MessageView { count: m.count, tag: m.tag, data: m.data + frame },
            None => MessageView {
                count: first_count(frame),
                tag: first_tag(frame),
                data: first_payload(frame),
            },
        }
    }

    /// A frame from the master arrives: it extends the message under assembly,
    /// or starts one; the last frame moves the message to the tail of the queue.
    pub open spec fn handle_incoming(self, last: bool, frame: Seq<u8>) -> MessageManagerView {
        if last {
            MessageManagerView {
                in_queue: self.in_queue.push(self.assembled(frame)),
                in_buffer: None,
                ..self
            }
        } else {
            MessageManagerView { in_buffer: Some(self.assembled(frame)), ..self }
        }
    }

    pub open spec fn accept_outgoing(self, count: u8, encoded: Seq<u8>) -> MessageManagerView {
        MessageManagerView {
            out_message: Some(SliceableView { cursor: 0, data: wire_bytes(count, encoded) }),
            out_state: OutMessageState::MessageReady,
            ..self
        }
    }

    pub open spec fn is_outgoing_ready(self) -> (MessageManagerView, bool) {
        if self.out_state == OutMessageState::MessageReady {
            (MessageManagerView { out_state: OutMessageState::MessageBeingSent, ..self }, true)
        } else {
            (self, false)
        }
    }

    pub open spec fn was_message_acknowledged(self) -> (MessageManagerView, bool) {
        if self.out_state == OutMessageState::MessageAcknowledged {
            (MessageManagerView { out_state: OutMessageState::NoMessage, ..self }, true)
        } else {
            (self, false)
        }
    }

    /// Whether a call for the next outgoing slice yields one.
    pub open spec fn slice_due(self) -> bool {
        self.out_state == OutMessageState::MessageBeingSent && self.out_message is Some
    }

    pub open spec fn get_outgoing_slice(self, size: nat) -> (
        MessageManagerView,
        Option<SliceMeta>,
    ) {
        if self.slice_due() {
            let message = self.out_message->0;
            let meta = SliceMeta {
                len: message.next_len(size) as u16,
                last: message.next_last(size),
            };
            if meta.last {
                (
                    MessageManagerView {
                        out_message: None,
                        out_state: OutMessageState::MessageSent,
                        ..self
                    },
                    Some(meta),
                )
            } else {
                (
                    MessageManagerView { out_message: Some(message.advance(size)), ..self },
                    Some(meta),
                )
            }
        } else {
            (self, None)
        }
    }

    /// The bytes that a call for the next outgoing slice writes.
    pub open spec fn outgoing_payload(self, size: nat) -> Seq<u8> {
        if self.slice_due() {
            self.out_message->0.next_payload(size)
        } else {
            Seq::empty()
        }
    }

    pub open spec fn ack_slice(self) -> (MessageManagerView, bool) {
        match self.out_state {
            OutMessageState::MessageBeingSent => (self, true),
            OutMessageState::MessageSent => (
                MessageManagerView { out_state: OutMessageState::MessageAcknowledged, ..self },
                false,
            ),
            _ => (self, false),
        }
    }

    /// Whether an acknowledgement is due: a slice is on its way.
    pub open spec fn ack_expected(self) -> bool {
        self.out_state == OutMessageState::MessageBeingSent || self.out_state
            == OutMessageState::MessageSent
    }

    pub open spec fn get_incoming(self) -> (MessageManagerView, Option<MessageView>) {
        if self.in_queue.len() > 0 {
            (
                MessageManagerView {
                    in_queue: self.in_queue.subrange(1, self.in_queue.len() as int),
                    ..self
                },
                Some(self.in_queue[0]),
            )
        } else {
            (self, None)
        }
    }

    /// The effect of any one call on the outgoing half.
    pub open spec fn call(self, call: OutCall) -> (MessageManagerView, OutReturn) {
        match call {
            OutCall::AcceptOutgoing { count, encoded } => (
                self.accept_outgoing(count, encoded),
                OutReturn::Nothing,
            ),
            OutCall::IsOutgoingReady => (
                self.is_outgoing_ready().0,
                OutReturn::Flag(self.is_outgoing_ready().1),
            ),
            OutCall::GetOutgoingSlice { size } => (
                self.get_outgoing_slice(size).0,
                OutReturn::Slice(self.get_outgoing_slice(size).1),
            ),
            OutCall::AckSlice => (self.ack_slice().0, OutReturn::Flag(self.ack_slice().1)),
            OutCall::WasMessageAcknowledged => (
                self.was_message_acknowledged().0,
                OutReturn::Flag(self.was_message_acknowledged().1),
            ),
        }
    }
}

/// Deals with incoming and outgoing interkernel messages.
#[derive(Debug)]
pub struct MessageManager {
    out_message: Option<Sliceable>,
    out_state: OutMessageState,
    in_queue: VecDeque<Message>,
    in_buffer: Option<Message>,
}

impl View for MessageManager {
    type V = MessageManagerView;

    closed spec fn view(&self) -> MessageManagerView {
        MessageManagerView {
            out_message: match self.out_message {
                Some(m) => Some(m@),
                None => None,
            },
            out_state: self.out_state,
            in_queue: self.in_queue@.map_values(|m: Message| m@),
            in_buffer: match self.in_buffer {
                Some(m) => Some(m@),
                None => None,
            },
        }
    }
}

impl MessageManager {
    pub fn new() -> (manager: MessageManager)
        ensures
            manager@ == MessageManagerView::empty(),
            manager@.wf(),
    {
        let manager = MessageManager {
            out_message: None,
            out_state: OutMessageState::NoMessage,
            in_queue: VecDeque::new(),
            in_buffer: None,
        };
        assert(manager.in_queue@.map_values(|m: Message| m@) =~= Seq::<MessageView>::empty());
        manager
    }

    /// Whether a message is under assembly. If none is, the next frame is a
    /// first frame.
    pub fn assembling(&self) -> (b: bool)
        ensures
            b == self@.in_buffer is Some,
    {
        self.in_buffer.is_some()
    }

    /// Takes a frame of `length` bytes that arrived from the master.
    pub fn handle_incoming<const N: usize>(&mut self, last: bool, length: usize, data: &[u8; N])
        requires
            length <= N,
            old(self)@.in_buffer is None ==> length >= 2,
        ensures
            final(self)@ == old(self)@.handle_incoming(last, data@.subrange(0, length as int)),
    {
        let ghost frame = data@.subrange(0, length as int);
        let message = match self.in_buffer.take() {
            Some(message) => {
                let mut message = message;
                append_range(&mut message.data, data, 0, length);
                message
            },
            None => {
                let mut payload: Vec<u8> = Vec::new();
                append_range(&mut payload, data, 2, length);
                assert(payload@ == first_payload(frame));
                Message { count: data[0], tag: data[1], data: payload }
            },
        };
        assert(message@ == old(self)@.assembled(frame));
        if last {
            proof {
                let f = |m: Message| m@;
                assert(self.in_queue@.push(message).map_values(f) =~= self.in_queue@.map_values(
                    f,
                ).push(message@));
            }
            self.in_queue.push_back(message);
        } else {
            self.in_buffer = Some(message);
        }
    }

    /// Asked by the main loop to see whether there is anything to send; a
    /// ready message is being sent from then on.
    pub fn is_outgoing_ready(&mut self) -> (ready: bool)
        ensures
            (final(self)@, ready) == old(self)@.is_outgoing_ready(),
    {
        match self.out_state {
            OutMessageState::MessageReady => {
                self.out_state = OutMessageState::MessageBeingSent;
                true
            },
            _ => false,
        }
    }

    /// Consumes the peer's acknowledgement of the whole message, if it came.
    pub fn was_message_acknowledged(&mut self) -> (acknowledged: bool)
        ensures
            (final(self)@, acknowledged) == old(self)@.was_message_acknowledged(),
    {
        match self.out_state {
            OutMessageState::MessageAcknowledged => {
                self.out_state = OutMessageState::NoMessage;
                true
            },
            _ => false,
        }
    }

    /// Writes the next slice of the message being sent into `data_slice`.
    pub fn get_outgoing_slice<const N: usize>(&mut self, data_slice: &mut [u8; N]) -> (meta:
        Option<SliceMeta>)
        requires
            N <= u16::MAX,
        ensures
            (final(self)@, meta) == old(self)@.get_outgoing_slice(N as nat),
            final(data_slice)@ == old(self)@.outgoing_payload(N as nat) + old(
                data_slice,
            )@.subrange(old(self)@.outgoing_payload(N as nat).len() as int, N as int),
    {
        if self.out_state != OutMessageState::MessageBeingSent {
            return None;
        }
        let mut message = match self.out_message.take() {
            Some(message) => message,
            None => {
                return None;
            },
        };
        let meta = message.get_slice(data_slice);
        if meta.last {
            self.out_state = OutMessageState::MessageSent;
        } else {
            self.out_message = Some(message);
        }
        Some(meta)
    }

    /// Takes the peer's acknowledgement of a slice and says whether more
    /// slices are to be sent.
    pub fn ack_slice(&mut self) -> (more: bool)
        ensures
            (final(self)@, more) == old(self)@.ack_slice(),
    {
        match self.out_state {
            OutMessageState::MessageBeingSent => true,
            OutMessageState::MessageSent => {
                self.out_state = OutMessageState::MessageAcknowledged;
                false
            },
            _ => false,
        }
    }

    /// Whether an acknowledgement is due; one that arrives otherwise is
    /// unsolicited.
    pub fn ack_expected(&self) -> (expected: bool)
        ensures
            expected == self@.ack_expected(),
    {
        match self.out_state {
            OutMessageState::MessageBeingSent | OutMessageState::MessageSent => true,
            _ => false,
        }
    }

    /// Stages a message of the kernel for sending. `encoded` is what the
    /// argument encoder produced for it, or `None` where the encoder failed.
    pub fn accept_outgoing(&mut self, count: u8, encoded: Option<Vec<u8>>) -> (r: Result<
        (),
        Error,
    >)
        requires
            encoded matches Some(bytes) ==> bytes@.len() > 3,
        ensures
            match encoded {
                Some(bytes) => r is Ok && final(self)@ == old(self)@.accept_outgoing(
                    count,
                    bytes@,
                ),
                None => result_view(r) == Err::<(), ErrorView>(ErrorView::SubkernelIoError)
                    && final(self)@ == old(self)@,
            },
    {
        match encoded {
            Some(bytes) => {
                let wire = to_wire(count, bytes);
                self.out_message = Some(Sliceable::new(wire));
                self.out_state = OutMessageState::MessageReady;
                Ok(())
            },
            None => Err(Error::SubkernelIoError),
        }
    }

    /// Takes the oldest complete incoming message, if there is one.
    pub fn get_incoming(&mut self) -> (message: Option<Message>)
        ensures
            final(self)@ == old(self)@.get_incoming().0,
            match message {
                Some(m) => old(self)@.get_incoming().1 == Some(m@),
                None => old(self)@.get_incoming().1 is None,
            },
    {
        proof {
            let f = |m: Message| m@;
            let q = self.in_queue@;
            if q.len() > 0 {
                assert(q.subrange(1, q.len() as int).map_values(f) =~= q.map_values(f).subrange(
                    1,
                    q.len() as int,
                ));
            }
        }
        self.in_queue.pop_front()
    }
}

impl MessageManagerView {
    /// The manager after every remaining slice of the message being sent has
    /// been taken, together with the concatenation of their payloads.
    pub open spec fn send_all(self, size: nat) -> (MessageManagerView, Seq<u8>)
        decreases
            match self.out_message {
                Some(m) => m.data.len() - m.cursor,
                None => 0,
            },
    {
        if self.wf() && size > 0 && self.slice_due() && !(self.out_message->0.next_last(size)) {
            let (rest, payload) = self.get_outgoing_slice(size).0.send_all(size);
            (rest, self.outgoing_payload(size) + payload)
        } else {
            (self.get_outgoing_slice(size).0, self.outgoing_payload(size))
        }
    }
}

/// Every call on the outgoing half keeps a well-formed manager well-formed.
pub proof fn lemma_call_preserves_wf(m: MessageManagerView, call: OutCall)
    requires
        m.wf(),
    ensures
        m.call(call).0.wf(),
{
}

/// The outgoing state moves only along one path. Whenever a call changes it,
/// either a new message was accepted, or the state stepped to its successor
/// by the one call that leads there, which then returned the one value that
/// goes with the step: ready to being sent when the main loop asked and was
/// told yes; being sent to sent when the slice marked last was taken; sent to
/// acknowledged when an acknowledgement came and was answered with "no more";
/// acknowledged to no message when the acknowledgement was consumed.
pub proof fn lemma_outgoing_steps(m: MessageManagerView, call: OutCall)
    requires
        m.wf(),
    ensures
        ({
            let (after, ret) = m.call(call);
            after.out_state != m.out_state ==> {
                ||| call is AcceptOutgoing && after.out_state == OutMessageState::MessageReady
                ||| m.out_state == OutMessageState::MessageReady && call is IsOutgoingReady && ret
                    == OutReturn::Flag(true) && after.out_state
                    == OutMessageState::MessageBeingSent
                ||| m.out_state == OutMessageState::MessageBeingSent && call is GetOutgoingSlice
                    && (ret matches OutReturn::Slice(Some(meta)) && meta.last) && after.out_state
                    == OutMessageState::MessageSent
                ||| m.out_state == OutMessageState::MessageSent && call is AckSlice && ret
                    == OutReturn::Flag(false) && after.out_state
                    == OutMessageState::MessageAcknowledged
                ||| m.out_state == OutMessageState::MessageAcknowledged
                    && call is WasMessageAcknowledged && ret == OutReturn::Flag(true)
                    && after.out_state == OutMessageState::NoMessage
            }
        }),
{
}

/// What the calls on the outgoing half return is decided by the state alone:
/// each says yes in exactly one state.
pub proof fn lemma_outgoing_returns(m: MessageManagerView, size: nat)
    requires
        m.wf(),
    ensures
        m.is_outgoing_ready().1 <==> m.out_state == OutMessageState::MessageReady,
        m.get_outgoing_slice(size).1 is Some <==> m.out_state
            == OutMessageState::MessageBeingSent,
        m.ack_slice().1 <==> m.out_state == OutMessageState::MessageBeingSent,
        m.was_message_acknowledged().1 <==> m.out_state
            == OutMessageState::MessageAcknowledged,
{
}

/// An acknowledgement that no slice asked for is answered with "no more" and
/// changes nothing.
pub proof fn lemma_unsolicited_ack(m: MessageManagerView)
    requires
        !m.ack_expected(),
    ensures
        m.ack_slice() == (m, false),
{
}

/// While a message is being sent, taking all its remaining slices hands out
/// exactly its remaining bytes and leaves the manager in the sent state with
/// no message held.
pub proof fn lemma_send_all(m: MessageManagerView, size: nat)
    requires
        m.wf(),
        size > 0,
        m.out_state == OutMessageState::MessageBeingSent,
    ensures
        m.send_all(size).0 == (MessageManagerView {
            out_message: None,
            out_state: OutMessageState::MessageSent,
            ..m
        }),
        m.send_all(size).1 == m.out_message->0.data.subrange(
            m.out_message->0.cursor as int,
            m.out_message->0.data.len() as int,
        ),
    decreases m.out_message->0.data.len() - m.out_message->0.cursor,
{
    let message = m.out_message->0;
    if !message.next_last(size) {
        let next = m.get_outgoing_slice(size).0;
        lemma_send_all(next, size);
        assert(m.send_all(size).1 =~= message.data.subrange(
            message.cursor as int,
            message.data.len() as int,
        ));
    }
}

/// The one accepting sequence: a message is accepted, found ready, sent slice
/// by slice up to the slice marked last, acknowledged, and the acknowledgement
/// consumed. The slices carry the wire form of the message, and the manager
/// ends with no message, as it was before apart from the state it started in.
pub proof fn lemma_outgoing_cycle(m: MessageManagerView, count: u8, encoded: Seq<u8>, size: nat)
    requires
        m.wf(),
        size > 0,
        encoded.len() > 3,
    ensures
        ({
            let accepted = m.accept_outgoing(count, encoded);
            let (sending, ready) = accepted.is_outgoing_ready();
            let (sent, payload) = sending.send_all(size);
            let (acknowledged, more) = sent.ack_slice();
            let (done, consumed) = acknowledged.was_message_acknowledged();
            &&& ready
            &&& payload == wire_bytes(count, encoded)
            &&& sent.out_state == OutMessageState::MessageSent
            &&& !more
            &&& consumed
            &&& done == (MessageManagerView {
                out_message: None,
                out_state: OutMessageState::NoMessage,
                ..m
            })
        }),
{
    let accepted = m.accept_outgoing(count, encoded);
    let (sending, ready) = accepted.is_outgoing_ready();
    lemma_send_all(sending, size);
    assert(wire_bytes(count, encoded).subrange(0, wire_bytes(count, encoded).len() as int)
        =~= wire_bytes(count, encoded));
}

impl MessageManagerView {
    /// The manager after a sequence of calls on the outgoing half.
    pub open spec fn after_calls(self, calls: Seq<OutCall>) -> MessageManagerView
        decreases calls.len(),
    {
        if calls.len() == 0 {
            self
        } else {
            self.after_calls(calls.drop_last()).call(calls.last()).0
        }
    }

    /// What call number `i` of a sequence of calls gave back.
    pub open spec fn returned(self, calls: Seq<OutCall>, i: int) -> OutReturn {
        self.after_calls(calls.take(i)).call(calls[i]).1
    }

    /// Whether call `j` accepts a message.
    pub open spec fn accepts(calls: Seq<OutCall>, j: int) -> bool {
        calls[j] is AcceptOutgoing
    }

    /// Call `a` accepted a message, and no call after it and before call `n`
    /// accepted another.
    #[verifier::opaque]
    pub open spec fn accepted_at(self, calls: Seq<OutCall>, a: int, n: int) -> bool {
        &&& 0 <= a < n
        &&& Self::accepts(calls, a)
        &&& forall|j: int| a < j < n ==> !#[trigger] Self::accepts(calls, j)
    }

    /// Call `r` asked whether a message is ready and was told yes.
    pub open spec fn found_ready_at(self, calls: Seq<OutCall>, r: int) -> bool {
        calls[r] is IsOutgoingReady && self.returned(calls, r) == OutReturn::Flag(true)
    }

    /// Call `s` took the slice that is marked last.
    pub open spec fn last_slice_at(self, calls: Seq<OutCall>, s: int) -> bool {
        calls[s] is GetOutgoingSlice && (self.returned(calls, s) matches OutReturn::Slice(
            Some(meta),
        ) && meta.last)
    }

    /// Call `k` brought an acknowledgement and was told that no more slices
    /// are to come.
    pub open spec fn acknowledged_at(self, calls: Seq<OutCall>, k: int) -> bool {
        calls[k] is AckSlice && self.returned(calls, k) == OutReturn::Flag(false)
    }

    /// What the first `n` calls must have held for the manager to be in
    /// `state` after them: for each step on the way from no message to
    /// `state`, the call that takes it, in order, after the last call that
    /// accepted a message.
    pub open spec fn climbed(self, calls: Seq<OutCall>, n: int, state: OutMessageState) -> bool {
        match state {
            OutMessageState::NoMessage => true,
            OutMessageState::MessageReady => exists|a: int| self.accepted_at(calls, a, n),
            OutMessageState::MessageBeingSent => exists|a: int, r: int|
                #![trigger self.accepted_at(calls, a, n), self.found_ready_at(calls, r)]
                self.accepted_at(calls, a, n) && a < r < n && self.found_ready_at(calls, r),
            OutMessageState::MessageSent => exists|a: int, r: int, s: int|
                #![trigger self.accepted_at(calls, a, n), self.found_ready_at(calls, r), self.last_slice_at(calls, s)]
                self.accepted_at(calls, a, n) && a < r < s < n && self.found_ready_at(calls, r)
                    && self.last_slice_at(calls, s),
            OutMessageState::MessageAcknowledged => exists|a: int, r: int, s: int, k: int|
                #![trigger self.accepted_at(calls, a, n), self.found_ready_at(calls, r), self.last_slice_at(calls, s), self.acknowledged_at(calls, k)]
                self.accepted_at(calls, a, n) && a < r < s < k < n && self.found_ready_at(
                    calls,
                    r,
                ) && self.last_slice_at(calls, s) && self.acknowledged_at(calls, k),
        }
    }
}

/// A sequence of calls keeps a well-formed manager well-formed.
pub proof fn lemma_calls_preserve_wf(m: MessageManagerView, calls: Seq<OutCall>)
    requires
        m.wf(),
    ensures
        m.after_calls(calls).wf(),
    decreases calls.len(),
{
    if calls.len() > 0 {
        lemma_calls_preserve_wf(m, calls.drop_last());
        lemma_call_preserves_wf(m.after_calls(calls.drop_last()), calls.last());
    }
}

/// A call that accepts a message is the last one to have done so right
/// after it.
proof fn lemma_accepted_now(m: MessageManagerView, calls: Seq<OutCall>, p: int)
    requires
        0 <= p < calls.len(),
        calls[p] is AcceptOutgoing,
    ensures
        m.accepted_at(calls, p, p + 1),
{
    reveal(MessageManagerView::accepted_at);
}

/// The last call to have accepted a message stays the last one over a call
/// that accepts none.
proof fn lemma_accepted_still(m: MessageManagerView, calls: Seq<OutCall>, a: int, p: int)
    requires
        m.accepted_at(calls, a, p),
        !(calls[p] is AcceptOutgoing),
    ensures
        m.accepted_at(calls, a, p + 1),
        0 <= a < p,
{
    reveal(MessageManagerView::accepted_at);
}

/// The manager after one call more.
proof fn lemma_one_more_call(m: MessageManagerView, calls: Seq<OutCall>, p: int)
    requires
        0 <= p < calls.len(),
    ensures
        m.after_calls(calls.take(p + 1)) == m.after_calls(calls.take(p)).call(calls[p]).0,
        m.returned(calls, p) == m.after_calls(calls.take(p)).call(calls[p]).1,
{
    assert(calls.take(p + 1).drop_last() =~= calls.take(p));
    assert(calls.take(p + 1).last() == calls[p]);
}

/// Whatever state a manager that began without a message is in after `n`
/// calls, it got there by the calls that lead there, in their order.
pub proof fn lemma_climbed(m: MessageManagerView, calls: Seq<OutCall>, n: int)
    requires
        m.wf(),
        m.out_state == OutMessageState::NoMessage,
        0 <= n <= calls.len(),
    ensures
        m.climbed(calls, n, m.after_calls(calls.take(n)).out_state),
    decreases n,
{
    if n == 0 {
        assert(calls.take(0) =~= Seq::<OutCall>::empty());
    } else {
        let p = n - 1;
        lemma_climbed(m, calls, p);
        lemma_calls_preserve_wf(m, calls.take(p));
        lemma_one_more_call(m, calls, p);
        lemma_climb_step(m, calls, p, m.after_calls(calls.take(p)));
    }
}

/// One call takes a manager that got where it is by the calls that lead
/// there to a state of which the same holds.
proof fn lemma_climb_step(
    m: MessageManagerView,
    calls: Seq<OutCall>,
    p: int,
    before: MessageManagerView,
)
    requires
        0 <= p < calls.len(),
        before.wf(),
        m.climbed(calls, p, before.out_state),
        m.returned(calls, p) == before.call(calls[p]).1,
    ensures
        m.climbed(calls, p + 1, before.call(calls[p]).0.out_state),
{
    let n = p + 1;
    let call = calls[p];
    let after = before.call(call).0;
    lemma_outgoing_steps(before, call);
    if call is AcceptOutgoing {
        lemma_accepted_now(m, calls, p);
    } else if after.out_state == before.out_state {
        match before.out_state {
            OutMessageState::NoMessage => {},
            OutMessageState::MessageReady => {
                let a = choose|a: int| m.accepted_at(calls, a, p);
                lemma_accepted_still(m, calls, a, p);
            },
            OutMessageState::MessageBeingSent => {
                let (a, r) = choose|a: int, r: int|
                    #![trigger m.accepted_at(calls, a, p), m.found_ready_at(calls, r)]
                    m.accepted_at(calls, a, p) && a < r < p && m.found_ready_at(calls, r);
                lemma_accepted_still(m, calls, a, p);
                assert(m.accepted_at(calls, a, n) && a < r < n && m.found_ready_at(calls, r));
            },
            OutMessageState::MessageSent => {
                let (a, r, s) = choose|a: int, r: int, s: int|
                    #![trigger m.accepted_at(calls, a, p), m.found_ready_at(calls, r), m.last_slice_at(calls, s)]
                    m.accepted_at(calls, a, p) && a < r < s < p && m.found_ready_at(calls, r)
                        && m.last_slice_at(calls, s);
                lemma_accepted_still(m, calls, a, p);
                assert(m.accepted_at(calls, a, n) && a < r < s < n && m.found_ready_at(calls, r)
                    && m.last_slice_at(calls, s));
            },
            OutMessageState::MessageAcknowledged => {
                let (a, r, s, k) = choose|a: int, r: int, s: int, k: int|
                    #![trigger m.accepted_at(calls, a, p), m.found_ready_at(calls, r), m.last_slice_at(calls, s), m.acknowledged_at(calls, k)]
                    m.accepted_at(calls, a, p) && a < r < s < k < p && m.found_ready_at(calls, r)
                        && m.last_slice_at(calls, s) && m.acknowledged_at(calls, k);
                lemma_accepted_still(m, calls, a, p);
                assert(m.accepted_at(calls, a, n) && a < r < s < k < n && m.found_ready_at(
                    calls,
                    r,
                ) && m.last_slice_at(calls, s) && m.acknowledged_at(calls, k));
            },
        }
    } else {
        match after.out_state {
            OutMessageState::NoMessage => {},
            OutMessageState::MessageReady => {},
            OutMessageState::MessageBeingSent => {
                let a = choose|a: int| m.accepted_at(calls, a, p);
                lemma_accepted_still(m, calls, a, p);
                assert(m.accepted_at(calls, a, n) && a < p < n && m.found_ready_at(calls, p));
            },
            OutMessageState::MessageSent => {
                let (a, r) = choose|a: int, r: int|
                    #![trigger m.accepted_at(calls, a, p), m.found_ready_at(calls, r)]
                    m.accepted_at(calls, a, p) && a < r < p && m.found_ready_at(calls, r);
                lemma_accepted_still(m, calls, a, p);
                assert(m.accepted_at(calls, a, n) && a < r < p < n && m.found_ready_at(calls, r)
                    && m.last_slice_at(calls, p));
            },
            OutMessageState::MessageAcknowledged => {
                let (a, r, s) = choose|a: int, r: int, s: int|
                    #![trigger m.accepted_at(calls, a, p), m.found_ready_at(calls, r), m.last_slice_at(calls, s)]
                    m.accepted_at(calls, a, p) && a < r < s < p && m.found_ready_at(calls, r)
                        && m.last_slice_at(calls, s);
                lemma_accepted_still(m, calls, a, p);
                assert(m.accepted_at(calls, a, n) && a < r < s < p < n && m.found_ready_at(
                    calls,
                    r,
                ) && m.last_slice_at(calls, s) && m.acknowledged_at(calls, p));
            },
        }
    }
}

/// There is one accepting sequence only. If, in any sequence of calls on a
/// manager that began without a message, the acknowledgement of a message is
/// found and consumed, then before that a message was accepted; after that
/// it was found ready; after that its slice marked last was taken; after
/// that an acknowledgement was answered with "no more"; and in between no
/// other message was accepted.
pub proof fn lemma_only_accepting_sequence(m: MessageManagerView, calls: Seq<OutCall>, n: int)
    requires
        m.wf(),
        m.out_state == OutMessageState::NoMessage,
        0 <= n < calls.len(),
        calls[n] is WasMessageAcknowledged,
        m.returned(calls, n) == OutReturn::Flag(true),
    ensures
        exists|a: int, r: int, s: int, k: int|
            #![trigger m.accepted_at(calls, a, n), m.found_ready_at(calls, r), m.last_slice_at(calls, s), m.acknowledged_at(calls, k)]
            m.accepted_at(calls, a, n) && a < r < s < k < n && m.found_ready_at(calls, r)
                && m.last_slice_at(calls, s) && m.acknowledged_at(calls, k),
{
    lemma_climbed(m, calls, n);
    lemma_calls_preserve_wf(m, calls.take(n));
    lemma_outgoing_returns(m.after_calls(calls.take(n)), 0);
}

} // verus!
