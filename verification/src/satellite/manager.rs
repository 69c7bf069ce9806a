//! The satellite's subkernel manager: the store of received images and the
//! session state machine, one decision at a time.
//!
//! The manager never touches the mailbox, the reset line, the cache or the
//! clock. Its functions take what was read from them and give back the
//! effects to carry out, in order.

use std::collections::BTreeMap;
use vstd::prelude::*;
use vstd::std_specs::btree::group_btree_axioms;
use crate::satellite::error::Error;
use crate::satellite::error::ErrorView;
use crate::satellite::error::result_view;
use crate::satellite::error::unexpected;
use crate::satellite::kernel_cpu::push_start;
use crate::satellite::kernel_cpu::push_stop;
use crate::satellite::kernel_cpu::start_actions;
use crate::satellite::kernel_cpu::stop_actions;
use crate::satellite::kernel_cpu::Action;
use crate::satellite::kernel_cpu::KernelReply;
use crate::satellite::kernel_cpu::RtioMaster;
use crate::satellite::kernel_cpu::SubkernelStatus;
use crate::satellite::messages::Message;
use crate::satellite::messages::MessageManagerView;
use crate::satellite::messages::MessageView;
use crate::satellite::messages::OutMessageState;
use crate::satellite::requests::hwreq_action;
use crate::satellite::requests::process_kern_hwreq;
use crate::satellite::requests::slice_kernel_exception;
use crate::satellite::requests::KernelRequest;
use crate::satellite::session::KernelState;
use crate::satellite::session::Session;
use crate::satellite::session::SessionView;
use crate::satellite::sliceable::SliceMeta;
use crate::satellite::sliceable::Sliceable;
use crate::satellite::sliceable::SliceableView;
use crate::text::texts;

verus! {

broadcast use group_btree_axioms;

/// Kind of the exception that stands for an error of the manager itself.
pub const SUBKERNEL_ERROR: u32 = 11;

/// The image of a subkernel as far as it has been received.
#[derive(Debug)]
pub struct KernelLibrary {
    pub library: Vec<u8>,
    pub complete: bool,
}

/// The mathematical content of a [`KernelLibrary`].
pub struct KernelLibraryView {
    pub library: Seq<u8>,
    pub complete: bool,
}

impl View for KernelLibrary {
    type V = KernelLibraryView;

    open spec fn view(&self) -> KernelLibraryView {
        KernelLibraryView { library: self.library@, complete: self.complete }
    }
}

/// How a run ended.
#[derive(Debug, Clone, Copy, PartialEq, Eq, Structural)]
pub struct SubkernelFinished {
    pub id: u32,
    pub with_exception: bool,
}

/// Effects of a load or a start, and whether a load request is among them.
/// The reply to a load request is handed to [`Manager::load_reply`].
#[derive(Debug)]
pub struct Launch {
    pub awaits_reply: bool,
    pub actions: Vec<Action>,
}

/// What the manager decided on the reply to a load request.
#[derive(Debug)]
pub struct Loaded {
    pub actions: Vec<Action>,
    pub outcome: Result<(), Error>,
}

/// What servicing the traffic from the master asks for: effects, and a
/// message to stream into the kernel once they are done.
#[derive(Debug)]
pub struct External {
    pub actions: Vec<Action>,
    pub deliver: Option<Message>,
}

/// How a tick begins.
#[derive(Debug)]
pub enum Tick {
    /// No kernel runs: nothing to do.
    Idle,
    /// The kernel waits for something that has not happened yet: nothing more
    /// to do in this tick.
    Waiting,
    /// Carry out the effects, then look into the mailbox.
    Serve(Vec<Action>),
    /// Carry out the effects, stream the message into the kernel, report how
    /// that went, then look into the mailbox.
    Deliver(Vec<Action>, Message),
}

/// What the manager decided on a request of the kernel: effects, lines to
/// log, and whether the run has ended, and how.
#[derive(Debug)]
pub struct Served {
    pub actions: Vec<Action>,
    pub lines: Vec<String>,
    pub outcome: Result<Option<bool>, Error>,
}

/// An exception that the manager raises in the place of the kernel, to be
/// written in the form the host reads.
#[derive(Debug)]
pub struct RuntimeException {
    pub id: u32,
    pub subkernel: u32,
    pub cause: Error,
    pub param: [i64; 3],
    pub stack_pointer: usize,
    pub initial_backtrace_size: usize,
    pub current_backtrace_size: usize,
    pub async_errors: u8,
}

/// What follows from the way a part of a tick ended: effects, and an
/// exception to write and hand to [`Manager::runtime_exception`].
#[derive(Debug)]
pub struct Settled {
    pub actions: Vec<Action>,
    pub exception: Option<RuntimeException>,
}

/// The mathematical content of a [`Manager`].
pub struct ManagerView {
    pub kernels: Map<u32, KernelLibraryView>,
    pub current_id: u32,
    pub session: SessionView,
    pub last_finished: Option<SubkernelFinished>,
}

/// Text of the error for a reply to a load request that is none.
pub open spec fn text_unexpected_load_reply() -> Seq<char> {
    "unexpected kernel CPU reply to load request"@
}

/// Text of the error for a request that the kernel's state does not admit.
pub open spec fn text_unexpected_in_state() -> Seq<char> {
    "unexpected request from kernel CPU in this state"@
}

/// Text of the error for a request that a running kernel may not make.
pub open spec fn text_unexpected_request() -> Seq<char> {
    "unexpected request from kernel CPU"@
}

/// The effects of stopping a run: the kernel CPU is stopped and the cache
/// gets back what the kernel borrowed.
pub open spec fn halt_actions() -> Seq<Action> {
    stop_actions() + seq![Action::UnborrowCache]
}

/// The effects of loading: the old run is stopped, the kernel CPU started,
/// and the load request sent.
pub open spec fn load_actions() -> Seq<Action> {
    halt_actions() + start_actions() + seq![Action::SendLoadRequest]
}

/// The effects of giving the manager up.
pub open spec fn shutdown_actions() -> Seq<Action> {
    seq![Action::SelectArbiter(RtioMaster::Drtio)] + stop_actions()
}

/// The effects of starting a loaded kernel.
pub open spec fn run_actions() -> Seq<Action> {
    seq![Action::SelectArbiter(RtioMaster::Kernel), Action::AcknowledgeMailbox]
}

impl ManagerView {
    pub open spec fn fresh() -> ManagerView {
        ManagerView {
            kernels: Map::empty(),
            current_id: 0,
            session: SessionView::fresh(),
            last_finished: None,
        }
    }

    pub open spec fn running(self) -> bool {
        self.session.kernel_state.running()
    }

    pub open spec fn with_state(self, state: KernelState) -> ManagerView {
        ManagerView { session: SessionView { kernel_state: state, ..self.session }, ..self }
    }

    pub open spec fn with_messages(self, messages: MessageManagerView) -> ManagerView {
        ManagerView { session: SessionView { messages, ..self.session }, ..self }
    }

    pub open spec fn with_exception(self, exception: Option<SliceableView>) -> ManagerView {
        ManagerView { session: SessionView { last_exception: exception, ..self.session }, ..self }
    }

    /// The store after a chunk for `id` has arrived. The chunk extends the
    /// image that is still incomplete; it starts a new image where there is
    /// none, or where the one there is complete.
    pub open spec fn added(self, id: u32, last: bool, chunk: Seq<u8>) -> ManagerView {
        let base = if self.kernels.contains_key(id) && !self.kernels[id].complete {
            self.kernels[id].library
        } else {
            Seq::empty()
        };
        ManagerView {
            kernels: self.kernels.insert(
                id,
                KernelLibraryView { library: base + chunk, complete: last },
            ),
            ..self
        }
    }

    /// Whether the image of `id` is there and complete.
    pub open spec fn complete(self, id: u32) -> bool {
        self.kernels.contains_key(id) && self.kernels[id].complete
    }

    /// Whether `id` is loaded and standing by.
    pub open spec fn loaded(self, id: u32) -> bool {
        self.current_id == id && self.session.kernel_state == KernelState::Loaded
    }

    /// Loading `id`: nothing to do where it is loaded already; an error where
    /// its image is missing or incomplete; else a fresh session for it, and
    /// the effects that end with the load request.
    pub open spec fn load(self, id: u32) -> (ManagerView, Result<(bool, Seq<Action>), ErrorView>) {
        if self.loaded(id) {
            (self, Ok((false, Seq::empty())))
        } else if !self.complete(id) {
            (self, Err(ErrorView::KernelNotFound))
        } else {
            (
                ManagerView { current_id: id, session: SessionView::fresh(), ..self },
                Ok((true, load_actions())),
            )
        }
    }

    /// The reply to a load request: success makes the kernel loaded; a
    /// refusal stops the kernel CPU; anything else is unexpected.
    pub open spec fn load_reply(self, received: Result<KernelRequest, ErrorView>) -> (
        ManagerView,
        Seq<Action>,
        Result<(), ErrorView>,
    ) {
        match received {
            Err(e) => (self, Seq::empty(), Err(e)),
            Ok(KernelRequest::LoadReply { error: None }) => (
                self.with_state(KernelState::Loaded),
                Seq::empty(),
                Ok(()),
            ),
            Ok(KernelRequest::LoadReply { error: Some(message) }) => (
                self,
                stop_actions(),
                Err(ErrorView::Load(message@)),
            ),
            Ok(_) => (self, Seq::empty(), Err(ErrorView::Unexpected(text_unexpected_load_reply()))),
        }
    }

    /// Starting `id`: a loaded kernel starts running; any other is loaded
    /// first.
    pub open spec fn run(self, id: u32) -> (ManagerView, Result<(bool, Seq<Action>), ErrorView>) {
        if self.loaded(id) {
            (self.with_state(KernelState::Running), Ok((false, run_actions())))
        } else {
            self.load(id)
        }
    }

    /// Servicing the traffic from the master. A kernel that waits for a
    /// message is told of the timeout once the deadline has passed, else gets
    /// the oldest message if there is one. A kernel that waits for its own
    /// message to be sent is acknowledged once the peer has acknowledged.
    pub open spec fn process_external_messages(self, now: u64) -> (
        ManagerView,
        Result<(Seq<Action>, Option<MessageView>), ErrorView>,
    ) {
        match self.session.kernel_state {
            KernelState::MsgAwait { max_time } => {
                if now > max_time {
                    (
                        self.with_state(KernelState::Running),
                        Ok(
                            (
                                seq![
                                    Action::Send(
                                        KernelReply::SubkernelMsgRecvReply {
                                            status: SubkernelStatus::Timeout,
                                            count: 0,
                                        },
                                    ),
                                ],
                                None,
                            ),
                        ),
                    )
                } else if self.session.messages.in_queue.len() > 0 {
                    let message = self.session.messages.in_queue[0];
                    (
                        self.with_messages(self.session.messages.get_incoming().0).with_state(
                            KernelState::Running,
                        ),
                        Ok(
                            (
                                seq![
                                    Action::Send(
                                        KernelReply::SubkernelMsgRecvReply {
                                            status: SubkernelStatus::NoError,
                                            count: message.count,
                                        },
                                    ),
                                ],
                                Some(message),
                            ),
                        ),
                    )
                } else {
                    (self, Err(ErrorView::AwaitingMessage))
                }
            },
            KernelState::MsgSending => {
                if self.session.messages.out_state == OutMessageState::MessageAcknowledged {
                    (
                        self.with_messages(
                            self.session.messages.was_message_acknowledged().0,
                        ).with_state(KernelState::Running),
                        Ok((seq![Action::AcknowledgeMailbox], None)),
                    )
                } else {
                    (self, Err(ErrorView::AwaitingMessage))
                }
            },
            _ => (self, Ok((Seq::empty(), None))),
        }
    }

    /// Taking the record of the run that ended last: it is handed out once.
    pub open spec fn get_last_finished(self) -> (ManagerView, Option<SubkernelFinished>) {
        (ManagerView { last_finished: None, ..self }, self.last_finished)
    }

    /// The manager after a run has ended with the given flag.
    pub open spec fn finished(self, with_exception: bool) -> ManagerView {
        ManagerView {
            last_finished: Some(SubkernelFinished { id: self.current_id, with_exception }),
            ..self
        }
    }

    /// What follows from the way the servicing of master traffic ended. An
    /// exception of the kernel ends the run and is kept for the master; any
    /// other error but the wait signal ends the run with an exception of the
    /// manager's own.
    pub open spec fn external_messages_processed(self, outcome: Result<(), ErrorView>) -> (
        ManagerView,
        Seq<Action>,
        Option<ErrorView>,
    ) {
        match outcome {
            Ok(()) => (self, Seq::empty(), None),
            Err(ErrorView::AwaitingMessage) => (self, Seq::empty(), None),
            Err(ErrorView::KernelException(exception)) => (
                self.with_state(KernelState::Absent).with_exception(Some(exception)).finished(
                    true,
                ),
                halt_actions(),
                None,
            ),
            Err(e) => (self.with_state(KernelState::Absent).finished(true), halt_actions(), Some(e)),
        }
    }

    /// What follows from the way the handling of a kernel request ended. A
    /// finished run is recorded; any error but the no-message signal ends the
    /// run with an exception of the manager's own.
    pub open spec fn kern_message_processed(self, outcome: Result<Option<bool>, ErrorView>) -> (
        ManagerView,
        Seq<Action>,
        Option<ErrorView>,
    ) {
        match outcome {
            Ok(Some(with_exception)) => (self.finished(with_exception), Seq::empty(), None),
            Ok(None) => (self, Seq::empty(), None),
            Err(ErrorView::NoMessage) => (self, Seq::empty(), None),
            Err(e) => (self.with_state(KernelState::Absent).finished(true), halt_actions(), Some(e)),
        }
    }

    /// Whether the kernel's state admits the request at all.
    pub open spec fn admits(self, request: KernelRequest) -> bool {
        self.session.kernel_state == KernelState::Running || (request is LoadReply
            && self.session.kernel_state == KernelState::Loaded)
    }

    /// The decision on one request of the kernel: the manager after it, the
    /// effects, the lines to log, and whether the run has ended.
    pub open spec fn process_kern_message(self, request: KernelRequest, rank: u8, now: u64) -> (
        ManagerView,
        Seq<Action>,
        Seq<Seq<char>>,
        Result<Option<bool>, ErrorView>,
    ) {
        if request is LoadReply && self.session.kernel_state == KernelState::Loaded {
            (self, Seq::empty(), Seq::empty(), Ok(None))
        } else if self.session.kernel_state != KernelState::Running {
            (
                self,
                Seq::empty(),
                Seq::empty(),
                Err(ErrorView::Unexpected(text_unexpected_in_state())),
            )
        } else if hwreq_action(request, rank) is Some {
            (self, seq![hwreq_action(request, rank)->0], Seq::empty(), Ok(None))
        } else {
            match request {
                KernelRequest::Log { text } | KernelRequest::LogSlice { text } => (
                    ManagerView { session: self.session.logged(text@).flushed(), ..self },
                    seq![Action::AcknowledgeMailbox],
                    self.session.logged(text@).flushed_lines(),
                    Ok(None),
                ),
                KernelRequest::RpcFlush => (
                    self,
                    seq![Action::AcknowledgeMailbox],
                    Seq::empty(),
                    Ok(None),
                ),
                KernelRequest::CacheGetRequest => (
                    self,
                    seq![Action::ServeCacheGet],
                    Seq::empty(),
                    Ok(None),
                ),
                KernelRequest::CachePutRequest => (
                    self,
                    seq![Action::ServeCachePut],
                    Seq::empty(),
                    Ok(None),
                ),
                KernelRequest::RunFinished => (
                    self.with_state(KernelState::Absent),
                    halt_actions(),
                    Seq::empty(),
                    Ok(Some(false)),
                ),
                KernelRequest::RunException { encoded } => match encoded {
                    Some(bytes) => (
                        self.with_state(KernelState::Absent).with_exception(
                            Some(SliceableView { cursor: 0, data: bytes@ }),
                        ),
                        halt_actions(),
                        Seq::empty(),
                        Ok(Some(true)),
                    ),
                    None => (
                        self.with_state(KernelState::Absent),
                        halt_actions(),
                        Seq::empty(),
                        Err(ErrorView::SubkernelIoError),
                    ),
                },
                KernelRequest::SubkernelMsgSend { count, encoded } => match encoded {
                    Some(bytes) => (
                        self.with_messages(
                            self.session.messages.accept_outgoing(count, bytes@),
                        ).with_state(KernelState::MsgSending),
                        Seq::empty(),
                        Seq::empty(),
                        Ok(None),
                    ),
                    None => (
                        self,
                        Seq::empty(),
                        Seq::empty(),
                        Err(ErrorView::SubkernelIoError),
                    ),
                },
                KernelRequest::SubkernelMsgRecvRequest { timeout } => (
                    self.with_state(KernelState::MsgAwait { max_time: (now + timeout) as u64 }),
                    Seq::empty(),
                    Seq::empty(),
                    Ok(None),
                ),
                _ => (
                    self,
                    Seq::empty(),
                    Seq::empty(),
                    Err(ErrorView::Unexpected(text_unexpected_request())),
                ),
            }
        }
    }

    /// What a request of a running kernel must satisfy to be handled: a
    /// message to send was encoded to more than its framing, and the deadline
    /// of a wait can be told.
    pub open spec fn can_handle(request: KernelRequest, now: u64) -> bool {
        &&& request matches KernelRequest::SubkernelMsgSend { encoded: Some(bytes), .. }
            ==> bytes@.len() > 3
        &&& request matches KernelRequest::SubkernelMsgRecvRequest { timeout } ==> now + timeout
            <= u64::MAX
    }

    /// The exception that the manager raises for `cause`.
    pub open spec fn raises(self, exception: RuntimeException, cause: ErrorView) -> bool {
        &&& exception.id == SUBKERNEL_ERROR
        &&& exception.subkernel == self.current_id
        &&& exception.cause@ == cause
        &&& exception.param@ == seq![0i64, 0i64, 0i64]
        &&& exception.stack_pointer == 0
        &&& exception.initial_backtrace_size == 0
        &&& exception.current_backtrace_size == 0
        &&& exception.async_errors == 0
    }
}

/// Holds the received images and the session of the run.
#[derive(Debug)]
pub struct Manager {
    kernels: BTreeMap<u32, KernelLibrary>,
    current_id: u32,
    session: Session,
    last_finished: Option<SubkernelFinished>,
}

impl View for Manager {
    type V = ManagerView;

    closed spec fn view(&self) -> ManagerView {
        ManagerView {
            kernels: self.kernels@.map_values(|k: KernelLibrary| k@),
            current_id: self.current_id,
            session: self.session@,
            last_finished: self.last_finished,
        }
    }
}

/// Appends the first `len` bytes of `src` to `dst`.
fn append_slice(dst: &mut Vec<u8>, src: &[u8], len: usize)
    requires
        len <= src@.len(),
    ensures
        final(dst)@ == old(dst)@ + src@.subrange(0, len as int),
{
    let mut i: usize = 0;
    while i < len
        invariant
            i <= len <= src@.len(),
            dst@ == old(dst)@ + src@.subrange(0, i as int),
        decreases len - i,
    {
        dst.push(src[i]);
        i += 1;
    }
}

impl Manager {
    pub fn new() -> (manager: Manager)
        ensures
            manager@ == ManagerView::fresh(),
    {
        let manager = Manager {
            kernels: BTreeMap::new(),
            current_id: 0,
            session: Session::new(),
            last_finished: None,
        };
        assert(manager.kernels@.map_values(|k: KernelLibrary| k@) =~= Map::<
            u32,
            KernelLibraryView,
        >::empty());
        manager
    }

    /// Takes a chunk of the image of subkernel `id`: the first `data_len`
    /// bytes of `data`. `last` marks the chunk that completes the image.
    pub fn add(&mut self, id: u32, last: bool, data: &[u8], data_len: usize) -> (r: Result<
        (),
        Error,
    >)
        requires
            data_len <= data@.len(),
        ensures
            r is Ok,
            final(self)@ == old(self)@.added(id, last, data@.subrange(0, data_len as int)),
    {
        let ghost f = |k: KernelLibrary| k@;
        let mut kernel = match self.kernels.remove(&id) {
            Some(kernel) => {
                if kernel.complete {
                    KernelLibrary { library: Vec::new(), complete: false }
                } else {
                    kernel
                }
            },
            None => KernelLibrary { library: Vec::new(), complete: false },
        };
        append_slice(&mut kernel.library, data, data_len);
        kernel.complete = last;
        proof {
            assert(old(self).kernels@.remove(id).insert(id, kernel).map_values(f) =~= old(
                self,
            ).kernels@.map_values(f).insert(id, kernel@));
        }
        self.kernels.insert(id, kernel);
        Ok(())
    }

    /// Where the kernel CPU stands in the run.
    pub fn kernel_state(&self) -> (state: KernelState)
        ensures
            state == self@.session.kernel_state,
    {
        self.session.kernel_state
    }

    pub fn is_running(&self) -> (r: bool)
        ensures
            r == self@.running(),
    {
        self.session.running()
    }

    /// The subkernel that is running, if any is.
    pub fn get_current_id(&self) -> (r: Option<u32>)
        ensures
            r == if self@.running() {
                Some(self@.current_id)
            } else {
                None
            },
    {
        match self.is_running() {
            true => Some(self.current_id),
            false => None,
        }
    }

    /// Ends the run, whatever state it is in.
    pub fn stop(&mut self) -> (actions: Vec<Action>)
        ensures
            final(self)@ == old(self)@.with_state(KernelState::Absent),
            actions@ == halt_actions(),
    {
        let mut actions: Vec<Action> = Vec::new();
        push_stop(&mut actions);
        self.session.kernel_state = KernelState::Absent;
        actions.push(Action::UnborrowCache);
        actions
    }

    /// Gives the manager up: the real-time I/O channel goes back to the
    /// transport and the kernel CPU is stopped.
    pub fn shutdown(self) -> (actions: Vec<Action>)
        ensures
            actions@ == shutdown_actions(),
    {
        let mut actions: Vec<Action> = Vec::new();
        actions.push(Action::SelectArbiter(RtioMaster::Drtio));
        push_stop(&mut actions);
        assert(actions@ =~= shutdown_actions());
        actions
    }

    /// Starts subkernel `id`, loading it first where it is not loaded. After
    /// a load, and once [`Manager::load_reply`] has reported success, a second
    /// call starts the kernel.
    pub fn run(&mut self, id: u32) -> (r: Result<Launch, Error>)
        ensures
            final(self)@ == old(self)@.run(id).0,
            match r {
                Ok(launch) => old(self)@.run(id).1 == Ok::<(bool, Seq<Action>), ErrorView>(
                    (launch.awaits_reply, launch.actions@),
                ),
                Err(e) => old(self)@.run(id).1 == Err::<(bool, Seq<Action>), ErrorView>(e@),
            },
    {
        if self.session.kernel_state != KernelState::Loaded || self.current_id != id {
            return self.load(id);
        }
        self.session.kernel_state = KernelState::Running;
        let mut actions: Vec<Action> = Vec::new();
        actions.push(Action::SelectArbiter(RtioMaster::Kernel));
        actions.push(Action::AcknowledgeMailbox);
        assert(actions@ =~= run_actions());
        Ok(Launch { awaits_reply: false, actions })
    }

    /// Whether a message from the master is under assembly. If none is, the
    /// next frame is a first frame.
    pub fn message_assembling(&self) -> (b: bool)
        ensures
            b == self@.session.messages.in_buffer is Some,
    {
        self.session.messages.assembling()
    }

    /// Takes a frame of an interkernel message from the master. Frames that
    /// arrive while no kernel runs are dropped.
    pub fn message_handle_incoming<const N: usize>(
        &mut self,
        last: bool,
        length: usize,
        slice: &[u8; N],
    )
        requires
            old(self)@.running() ==> length <= N,
            old(self)@.running() && old(self)@.session.messages.in_buffer is None ==> length >= 2,
        ensures
            final(self)@ == if old(self)@.running() {
                old(self)@.with_messages(
                    old(self)@.session.messages.handle_incoming(
                        last,
                        slice@.subrange(0, length as int),
                    ),
                )
            } else {
                old(self)@
            },
    {
        if !self.is_running() {
            return ;
        }
        self.session.messages.handle_incoming(last, length, slice);
    }

    /// Writes the next slice of the outgoing message into `slice`, if a
    /// kernel runs and a message is being sent.
    pub fn message_get_slice<const N: usize>(&mut self, slice: &mut [u8; N]) -> (meta: Option<
        SliceMeta,
    >)
        requires
            N <= u16::MAX,
        ensures
            old(self)@.running() ==> {
                &&& meta == old(self)@.session.messages.get_outgoing_slice(N as nat).1
                &&& final(self)@ == old(self)@.with_messages(
                    old(self)@.session.messages.get_outgoing_slice(N as nat).0,
                )
                &&& final(slice)@ == old(self)@.session.messages.outgoing_payload(N as nat) + old(
                    slice,
                )@.subrange(
                    old(self)@.session.messages.outgoing_payload(N as nat).len() as int,
                    N as int,
                )
            },
            !old(self)@.running() ==> meta is None && final(self)@ == old(self)@ && final(slice)@
                == old(slice)@,
    {
        if !self.is_running() {
            return None;
        }
        self.session.messages.get_outgoing_slice(slice)
    }

    /// Takes the peer's acknowledgement of a slice and says whether more
    /// slices are to be sent. One that arrives while no kernel runs counts
    /// for nothing.
    pub fn message_ack_slice(&mut self) -> (more: bool)
        ensures
            old(self)@.running() ==> more == old(self)@.session.messages.ack_slice().1
                && final(self)@ == old(self)@.with_messages(
                old(self)@.session.messages.ack_slice().0,
            ),
            !old(self)@.running() ==> !more && final(self)@ == old(self)@,
    {
        if !self.is_running() {
            return false;
        }
        self.session.messages.ack_slice()
    }

    /// Whether an acknowledgement from the peer is due. One that arrives
    /// otherwise is unsolicited and worth a warning.
    pub fn message_ack_expected(&self) -> (expected: bool)
        ensures
            expected == (self@.running() && self@.session.messages.ack_expected()),
    {
        self.is_running() && self.session.messages.ack_expected()
    }

    /// Whether there is a message to send; if so, it is being sent from now
    /// on.
    pub fn message_is_ready(&mut self) -> (ready: bool)
        ensures
            ready == old(self)@.session.messages.is_outgoing_ready().1,
            final(self)@ == old(self)@.with_messages(
                old(self)@.session.messages.is_outgoing_ready().0,
            ),
    {
        self.session.messages.is_outgoing_ready()
    }

    /// Takes the record of the run that ended last: it is handed out once.
    pub fn get_last_finished(&mut self) -> (finished: Option<SubkernelFinished>)
        ensures
            (final(self)@, finished) == old(self)@.get_last_finished(),
    {
        self.last_finished.take()
    }

    /// Loads subkernel `id` onto the kernel CPU. Where the result awaits a
    /// reply, what the kernel CPU answers goes to [`Manager::load_reply`].
    pub fn load(&mut self, id: u32) -> (r: Result<Launch, Error>)
        ensures
            final(self)@ == old(self)@.load(id).0,
            match r {
                Ok(launch) => old(self)@.load(id).1 == Ok::<(bool, Seq<Action>), ErrorView>(
                    (launch.awaits_reply, launch.actions@),
                ),
                Err(e) => old(self)@.load(id).1 == Err::<(bool, Seq<Action>), ErrorView>(e@),
            },
    {
        if self.current_id == id && self.session.kernel_state == KernelState::Loaded {
            return Ok(Launch { awaits_reply: false, actions: Vec::new() });
        }
        let complete = match self.kernels.get(&id) {
            Some(kernel) => kernel.complete,
            None => false,
        };
        if !complete {
            return Err(Error::KernelNotFound);
        }
        self.current_id = id;
        self.session = Session::new();
        let mut actions: Vec<Action> = Vec::new();
        push_stop(&mut actions);
        actions.push(Action::UnborrowCache);
        push_start(&mut actions);
        actions.push(Action::SendLoadRequest);
        assert(actions@ =~= load_actions());
        Ok(Launch { awaits_reply: true, actions })
    }

    /// The image that a load request carries: that of the current subkernel.
    pub fn library(&self) -> (library: Option<&Vec<u8>>)
        ensures
            match library {
                Some(bytes) => self@.kernels.contains_key(self@.current_id)
                    && self@.kernels[self@.current_id].library == bytes@,
                None => !self@.kernels.contains_key(self@.current_id),
            },
    {
        match self.kernels.get(&self.current_id) {
            Some(kernel) => Some(&kernel.library),
            None => None,
        }
    }

    /// Takes what came back after a load request: a message of the kernel
    /// CPU, or the error of the look into the mailbox. A load request leaves
    /// the kernel absent, and that is how its reply must find it.
    pub fn load_reply(&mut self, received: Result<KernelRequest, Error>) -> (loaded: Loaded)
        requires
            old(self)@.session.kernel_state == KernelState::Absent,
        ensures
            final(self)@ == old(self)@.load_reply(result_view(received)).0,
            loaded.actions@ == old(self)@.load_reply(result_view(received)).1,
            result_view(loaded.outcome) == old(self)@.load_reply(result_view(received)).2,
    {
        match received {
            Err(e) => Loaded { actions: Vec::new(), outcome: Err(e) },
            Ok(KernelRequest::LoadReply { error: None }) => {
                self.session.kernel_state = KernelState::Loaded;
                Loaded { actions: Vec::new(), outcome: Ok(()) }
            },
            Ok(KernelRequest::LoadReply { error: Some(message) }) => {
                let mut actions: Vec<Action> = Vec::new();
                push_stop(&mut actions);
                Loaded { actions, outcome: Err(Error::Load(message)) }
            },
            Ok(_) => Loaded {
                actions: Vec::new(),
                outcome: Err(unexpected("unexpected kernel CPU reply to load request")),
            },
        }
    }

    /// Writes the next slice of the exception of the last run into
    /// `data_slice`. Without an exception the slice is empty and the last.
    pub fn exception_get_slice<const N: usize>(&mut self, data_slice: &mut [u8; N]) -> (meta:
        SliceMeta)
        requires
            N <= u16::MAX,
        ensures
            match old(self)@.session.last_exception {
                Some(exception) => {
                    &&& exception.wf()
                    &&& meta.len == exception.next_len(N as nat)
                    &&& meta.last == exception.next_last(N as nat)
                    &&& final(self)@ == old(self)@.with_exception(
                        Some(exception.advance(N as nat)),
                    )
                    &&& final(data_slice)@ == exception.next_payload(N as nat) + old(
                        data_slice,
                    )@.subrange(meta.len as int, N as int)
                },
                None => {
                    &&& meta == SliceMeta { len: 0, last: true }
                    &&& final(self)@ == old(self)@
                    &&& final(data_slice)@ == old(data_slice)@
                },
            },
    {
        match self.session.last_exception.take() {
            Some(exception) => {
                let mut exception = exception;
                let meta = exception.get_slice(data_slice);
                self.session.last_exception = Some(exception);
                meta
            },
            None => SliceMeta { len: 0, last: true },
        }
    }

    /// Keeps the exception that the manager raised, written in the form the
    /// host reads, for the master to fetch. `None` says that writing it
    /// failed; nothing is kept then.
    pub fn runtime_exception(&mut self, encoded: Option<Vec<u8>>)
        ensures
            final(self)@ == match encoded {
                Some(bytes) => old(self)@.with_exception(
                    Some(SliceableView { cursor: 0, data: bytes@ }),
                ),
                None => old(self)@,
            },
    {
        match encoded {
            Some(bytes) => {
                self.session.last_exception = Some(Sliceable::new(bytes));
            },
            None => {},
        }
    }

    fn raise(&self, cause: Error) -> (exception: RuntimeException)
        ensures
            self@.raises(exception, cause@),
    {
        RuntimeException {
            id: SUBKERNEL_ERROR,
            subkernel: self.current_id,
            cause,
            param: [0, 0, 0],
            stack_pointer: 0,
            initial_backtrace_size: 0,
            current_backtrace_size: 0,
            async_errors: 0,
        }
    }

    fn fail(&mut self, cause: Error) -> (settled: Settled)
        ensures
            final(self)@ == old(self)@.with_state(KernelState::Absent).finished(true),
            settled.actions@ == halt_actions(),
            settled.exception matches Some(exception) && old(self)@.raises(exception, cause@),
    {
        let actions = self.stop();
        let exception = self.raise(cause);
        self.last_finished = Some(
            SubkernelFinished { id: self.current_id, with_exception: true },
        );
        Settled { actions, exception: Some(exception) }
    }

    /// Begins a tick at time `now`: services the traffic from the master and
    /// says how the tick goes on.
    pub fn process_kern_requests(&mut self, now: u64) -> (tick: Tick)
        ensures
            !old(self)@.running() ==> tick is Idle && final(self)@ == old(self)@,
            old(self)@.running() ==> {
                &&& final(self)@ == old(self)@.process_external_messages(now).0
                &&& match tick {
                    Tick::Idle => false,
                    Tick::Waiting => old(self)@.process_external_messages(now).1 is Err,
                    Tick::Serve(actions) => old(self)@.process_external_messages(now).1 == Ok::<
                        (Seq<Action>, Option<MessageView>),
                        ErrorView,
                    >((actions@, None)),
                    Tick::Deliver(actions, message) => old(self)@.process_external_messages(
                        now,
                    ).1 == Ok::<(Seq<Action>, Option<MessageView>), ErrorView>(
                        (actions@, Some(message@)),
                    ),
                }
            },
    {
        if !self.is_running() {
            return Tick::Idle;
        }
        match self.process_external_messages(now) {
            Ok(external) => match external.deliver {
                Some(message) => Tick::Deliver(external.actions, message),
                None => Tick::Serve(external.actions),
            },
            Err(_) => Tick::Waiting,
        }
    }

    /// Settles the servicing of master traffic once the message it asked to
    /// deliver has been streamed into the kernel, or could not be.
    pub fn external_messages_processed(&mut self, outcome: Result<(), Error>) -> (settled: Settled)
        ensures
            final(self)@ == old(self)@.external_messages_processed(result_view(outcome)).0,
            settled.actions@ == old(self)@.external_messages_processed(result_view(outcome)).1,
            match settled.exception {
                Some(exception) => old(self)@.external_messages_processed(
                    result_view(outcome),
                ).2 matches Some(cause) && old(self)@.raises(exception, cause),
                None => old(self)@.external_messages_processed(result_view(outcome)).2 is None,
            },
    {
        match outcome {
            Ok(()) => Settled { actions: Vec::new(), exception: None },
            Err(Error::AwaitingMessage) => Settled { actions: Vec::new(), exception: None },
            Err(Error::KernelException(exception)) => {
                let actions = self.stop();
                self.session.last_exception = Some(exception);
                self.last_finished = Some(
                    SubkernelFinished { id: self.current_id, with_exception: true },
                );
                Settled { actions, exception: None }
            },
            Err(e) => self.fail(e),
        }
    }

    /// Services the traffic from the master at time `now`.
    pub fn process_external_messages(&mut self, now: u64) -> (r: Result<External, Error>)
        ensures
            final(self)@ == old(self)@.process_external_messages(now).0,
            match r {
                Ok(external) => old(self)@.process_external_messages(now).1 == Ok::<
                    (Seq<Action>, Option<MessageView>),
                    ErrorView,
                >(
                    (
                        external.actions@,
                        match external.deliver {
                            Some(message) => Some(message@),
                            None => None,
                        },
                    ),
                ),
                Err(e) => e@ == ErrorView::AwaitingMessage && old(
                    self,
                )@.process_external_messages(now).1 == Err::<
                    (Seq<Action>, Option<MessageView>),
                    ErrorView,
                >(ErrorView::AwaitingMessage),
            },
    {
        match self.session.kernel_state {
            KernelState::MsgAwait { max_time } => {
                if now > max_time {
                    self.session.kernel_state = KernelState::Running;
                    let mut actions: Vec<Action> = Vec::new();
                    actions.push(
                        Action::Send(
                            KernelReply::SubkernelMsgRecvReply {
                                status: SubkernelStatus::Timeout,
                                count: 0,
                            },
                        ),
                    );
                    return Ok(External { actions, deliver: None });
                }
                match self.session.messages.get_incoming() {
                    Some(message) => {
                        self.session.kernel_state = KernelState::Running;
                        let mut actions: Vec<Action> = Vec::new();
                        actions.push(
                            Action::Send(
                                KernelReply::SubkernelMsgRecvReply {
                                    status: SubkernelStatus::NoError,
                                    count: message.count,
                                },
                            ),
                        );
                        Ok(External { actions, deliver: Some(message) })
                    },
                    None => Err(Error::AwaitingMessage),
                }
            },
            KernelState::MsgSending => {
                if self.session.messages.was_message_acknowledged() {
                    self.session.kernel_state = KernelState::Running;
                    let mut actions: Vec<Action> = Vec::new();
                    actions.push(Action::AcknowledgeMailbox);
                    Ok(External { actions, deliver: None })
                } else {
                    Err(Error::AwaitingMessage)
                }
            },
            _ => Ok(External { actions: Vec::new(), deliver: None }),
        }
    }

    /// Decides on one request of the kernel CPU, at time `now`, on the
    /// satellite of the given rank.
    pub fn process_kern_message(&mut self, request: KernelRequest, rank: u8, now: u64) -> (served:
        Served)
        requires
            old(self)@.session.kernel_state == KernelState::Running ==> ManagerView::can_handle(
                request,
                now,
            ),
        ensures
            final(self)@ == old(self)@.process_kern_message(request, rank, now).0,
            served.actions@ == old(self)@.process_kern_message(request, rank, now).1,
            texts(served.lines@) == old(self)@.process_kern_message(request, rank, now).2,
            result_view(served.outcome) == old(self)@.process_kern_message(request, rank, now).3,
    {
        let mut actions: Vec<Action> = Vec::new();
        let mut lines: Vec<String> = Vec::new();
        assert(texts(lines@) =~= Seq::<Seq<char>>::empty());
        let is_load_reply = match &request {
            KernelRequest::LoadReply { .. } => true,
            _ => false,
        };
        if is_load_reply && self.session.kernel_state == KernelState::Loaded {
            return Served { actions, lines, outcome: Ok(None) };
        }
        if self.session.kernel_state != KernelState::Running {
            return Served {
                actions,
                lines,
                outcome: Err(unexpected("unexpected request from kernel CPU in this state")),
            };
        }
        match process_kern_hwreq(&request, rank) {
            Some(action) => {
                actions.push(action);
                return Served { actions, lines, outcome: Ok(None) };
            },
            None => {},
        }
        let outcome = match request {
            KernelRequest::Log { text } => {
                lines = self.session.log(text.as_str());
                actions.push(Action::AcknowledgeMailbox);
                Ok(None)
            },
            KernelRequest::LogSlice { text } => {
                lines = self.session.log(text.as_str());
                actions.push(Action::AcknowledgeMailbox);
                Ok(None)
            },
            KernelRequest::RpcFlush => {
                actions.push(Action::AcknowledgeMailbox);
                Ok(None)
            },
            KernelRequest::CacheGetRequest => {
                actions.push(Action::ServeCacheGet);
                Ok(None)
            },
            KernelRequest::CachePutRequest => {
                actions.push(Action::ServeCachePut);
                Ok(None)
            },
            KernelRequest::RunFinished => {
                actions = self.stop();
                Ok(Some(false))
            },
            KernelRequest::RunException { encoded } => {
                actions = self.stop();
                match slice_kernel_exception(encoded) {
                    Ok(exception) => {
                        self.session.last_exception = Some(exception);
                        Ok(Some(true))
                    },
                    Err(e) => Err(e),
                }
            },
            KernelRequest::SubkernelMsgSend { count, encoded } => {
                match self.session.messages.accept_outgoing(count, encoded) {
                    Ok(()) => {
                        self.session.kernel_state = KernelState::MsgSending;
                        Ok(None)
                    },
                    Err(e) => Err(e),
                }
            },
            KernelRequest::SubkernelMsgRecvRequest { timeout } => {
                let max_time: u64 = now + timeout;
                self.session.kernel_state = KernelState::MsgAwait { max_time };
                Ok(None)
            },
            _ => Err(unexpected("unexpected request from kernel CPU")),
        };
        Served { actions, lines, outcome }
    }

    /// Settles the handling of a kernel request, or of the failed look into
    /// the mailbox.
    pub fn kern_message_processed(&mut self, outcome: Result<Option<bool>, Error>) -> (settled:
        Settled)
        ensures
            final(self)@ == old(self)@.kern_message_processed(result_view(outcome)).0,
            settled.actions@ == old(self)@.kern_message_processed(result_view(outcome)).1,
            match settled.exception {
                Some(exception) => old(self)@.kern_message_processed(result_view(outcome)).2
                    matches Some(cause) && old(self)@.raises(exception, cause),
                None => old(self)@.kern_message_processed(result_view(outcome)).2 is None,
            },
    {
        match outcome {
            Ok(Some(with_exception)) => {
                self.last_finished = Some(
                    SubkernelFinished { id: self.current_id, with_exception },
                );
                Settled { actions: Vec::new(), exception: None }
            },
            Ok(None) => Settled { actions: Vec::new(), exception: None },
            Err(Error::NoMessage) => Settled { actions: Vec::new(), exception: None },
            Err(e) => self.fail(e),
        }
    }
}

/// Whether a request of the kernel ends its run.
pub open spec fn ends_run(request: KernelRequest) -> bool {
    request is RunFinished || request is RunException
}

/// When a running kernel reports that it has finished, or raises an
/// exception, the run is over: the kernel CPU is stopped, the real-time I/O
/// channel is back with the transport and the cache has its borrows back; no
/// kernel runs any more; and the record of the run, which says whether an
/// exception ended it, is handed out exactly once.
pub proof fn lemma_run_ends(m: ManagerView, request: KernelRequest, rank: u8, now: u64)
    requires
        m.session.kernel_state == KernelState::Running,
        ends_run(request),
    ensures
        ({
            let (decided, actions, lines, outcome) = m.process_kern_message(request, rank, now);
            let (settled, more, cause) = decided.kern_message_processed(outcome);
            let (taken, first) = settled.get_last_finished();
            let (again, second) = taken.get_last_finished();
            &&& actions == halt_actions()
            &&& !decided.running()
            &&& !settled.running()
            &&& first == Some(
                SubkernelFinished { id: m.current_id, with_exception: request is RunException },
            )
            &&& second is None
            &&& !again.running()
        }),
{
}

/// A tick leaves a manager alone in which no kernel runs, and a request that
/// reaches such a manager is unexpected, unless it is the reply to a load
/// request that a loaded kernel repeats while standing by.
pub proof fn lemma_idle_is_idle(m: ManagerView, request: KernelRequest, rank: u8, now: u64)
    requires
        !m.running(),
    ensures
        m.process_external_messages(now) == (m, Ok::<
            (Seq<Action>, Option<MessageView>),
            ErrorView,
        >((Seq::empty(), None))),
        m.process_kern_message(request, rank, now).0 == m,
        m.process_kern_message(request, rank, now).3 is Ok <==> m.loaded(m.current_id)
            && request is LoadReply,
{
}

/// After a load request was answered with success, the kernel starts at the
/// next call, with the arbiter handed to it.
pub proof fn lemma_load_then_run(m: ManagerView, id: u32)
    requires
        m.complete(id),
        !m.loaded(id),
    ensures
        ({
            let (loading, first) = m.run(id);
            let (loaded, actions, outcome) = loading.load_reply(
                Ok(KernelRequest::LoadReply { error: None }),
            );
            let (running, second) = loaded.run(id);
            &&& first == Ok::<(bool, Seq<Action>), ErrorView>((true, load_actions()))
            &&& outcome is Ok
            &&& second == Ok::<(bool, Seq<Action>), ErrorView>((false, run_actions()))
            &&& running.session.kernel_state == KernelState::Running
            &&& running.current_id == id
        }),
{
}

/// Whether `actions` begins with the effects of stopping a run: the kernel
/// CPU held in reset, the real-time I/O channel back with the transport, the
/// mailbox cleared, and the cache given back what the kernel borrowed.
pub open spec fn begins_with_halt(actions: Seq<Action>) -> bool {
    actions.len() >= halt_actions().len() && actions.subrange(0, halt_actions().len() as int)
        == halt_actions()
}

/// Every way out of a run releases what the run held. Whenever a decision of
/// the manager takes it from running to not running, the effects of that
/// decision begin with those of stopping a run.
pub proof fn lemma_exits_release(
    m: ManagerView,
    id: u32,
    request: KernelRequest,
    rank: u8,
    now: u64,
    external: Result<(), ErrorView>,
    outcome: Result<Option<bool>, ErrorView>,
)
    requires
        m.running(),
    ensures
        !m.process_kern_message(request, rank, now).0.running() ==> begins_with_halt(
            m.process_kern_message(request, rank, now).1,
        ),
        !m.kern_message_processed(outcome).0.running() ==> begins_with_halt(
            m.kern_message_processed(outcome).1,
        ),
        !m.external_messages_processed(external).0.running() ==> begins_with_halt(
            m.external_messages_processed(external).1,
        ),
        m.process_external_messages(now).0.running(),
        !m.run(id).0.running() && m.run(id).1 is Ok ==> begins_with_halt(m.run(id).1->Ok_0.1),
        m.run(id).1 is Err ==> m.run(id).0 == m,
{
    assert(halt_actions().subrange(0, halt_actions().len() as int) =~= halt_actions());
    assert(load_actions().subrange(0, halt_actions().len() as int) =~= halt_actions());
}

/// One outgoing message at a time. While the kernel waits for its message to
/// be sent, the manager takes no request from it, so no second message is
/// accepted; and the kernel is released from the wait only by the peer's
/// acknowledgement of the whole message, after which no message is left.
pub proof fn lemma_one_outgoing_message(m: ManagerView, request: KernelRequest, rank: u8, now: u64)
    requires
        m.session.kernel_state == KernelState::MsgSending,
        m.session.messages.wf(),
    ensures
        m.process_kern_message(request, rank, now).0 == m,
        m.process_kern_message(request, rank, now).3 is Err,
        m.process_external_messages(now).0.session.kernel_state != KernelState::MsgSending <==> (
        m.session.messages.out_state == OutMessageState::MessageAcknowledged),
        m.session.messages.out_state == OutMessageState::MessageAcknowledged ==> {
            &&& m.process_external_messages(now).0.session.kernel_state == KernelState::Running
            &&& m.process_external_messages(now).0.session.messages.out_state
                == OutMessageState::NoMessage
            &&& m.process_external_messages(now).0.session.messages.out_message is None
        },
{
}

/// A kernel that waits for a message gets the oldest one, or is told of the
/// timeout once the deadline has passed, timeout first; until either, the
/// tick ends early and the kernel's mailbox is left alone.
pub proof fn lemma_message_wait(m: ManagerView, max_time: u64, now: u64)
    requires
        m.session.kernel_state == (KernelState::MsgAwait { max_time }),
    ensures
        ({
            let (after, r) = m.process_external_messages(now);
            &&& now > max_time ==> after == m.with_state(KernelState::Running) && r == Ok::<
                (Seq<Action>, Option<MessageView>),
                ErrorView,
            >(
                (
                    seq![
                        Action::Send(
                            KernelReply::SubkernelMsgRecvReply {
                                status: SubkernelStatus::Timeout,
                                count: 0,
                            },
                        ),
                    ],
                    None,
                ),
            )
            &&& now <= max_time && m.session.messages.in_queue.len() == 0 ==> after == m && r
                == Err::<(Seq<Action>, Option<MessageView>), ErrorView>(
                ErrorView::AwaitingMessage,
            )
            &&& now <= max_time && m.session.messages.in_queue.len() > 0 ==> {
                &&& after.session.kernel_state == KernelState::Running
                &&& after.session.messages.in_queue == m.session.messages.in_queue.drop_first()
                &&& r matches Ok((actions, Some(message)))
                &&& message == m.session.messages.in_queue[0]
                &&& actions == seq![
                    Action::Send(
                        KernelReply::SubkernelMsgRecvReply {
                            status: SubkernelStatus::NoError,
                            count: message.count,
                        },
                    ),
                ]
            }
        }),
{
    let queue = m.session.messages.in_queue;
    if queue.len() > 0 {
        assert(queue.subrange(1, queue.len() as int) =~= queue.drop_first());
    }
}

impl KernelState {
    /// The state machine of a session: whether a kernel in this state may be
    /// found in state `to` after one decision of the manager. A load takes an
    /// absent kernel to loaded, a start takes a loaded kernel to running, a
    /// running kernel begins to wait for a message or for its own message to
    /// be sent, either wait ends in running, and every state can end in
    /// absent.
    pub open spec fn leads_to(self, to: KernelState) -> bool {
        ||| to == self
        ||| to == KernelState::Absent
        ||| self == KernelState::Absent && to == KernelState::Loaded
        ||| self == KernelState::Loaded && to == KernelState::Running
        ||| self == KernelState::Running && (to is MsgAwait || to == KernelState::MsgSending)
        ||| (self is MsgAwait || self == KernelState::MsgSending) && to == KernelState::Running
    }
}

/// The session follows its state machine: whatever the manager decides, the
/// kernel's state after the decision is one that its state before leads to.
pub proof fn lemma_session_transitions(
    m: ManagerView,
    id: u32,
    received: Result<KernelRequest, ErrorView>,
    request: KernelRequest,
    rank: u8,
    now: u64,
    external: Result<(), ErrorView>,
    outcome: Result<Option<bool>, ErrorView>,
)
    ensures
        m.session.kernel_state.leads_to(m.load(id).0.session.kernel_state),
        m.session.kernel_state == KernelState::Absent ==> m.session.kernel_state.leads_to(
            m.load_reply(received).0.session.kernel_state,
        ),
        m.session.kernel_state.leads_to(m.run(id).0.session.kernel_state),
        m.session.kernel_state.leads_to(m.process_external_messages(now).0.session.kernel_state),
        m.session.kernel_state.leads_to(
            m.external_messages_processed(external).0.session.kernel_state,
        ),
        m.session.kernel_state.leads_to(
            m.process_kern_message(request, rank, now).0.session.kernel_state,
        ),
        m.session.kernel_state.leads_to(
            m.kern_message_processed(outcome).0.session.kernel_state,
        ),
{
}

} // verus!
