//! The master's registry of subkernels: their images and destinations, the
//! upload/load/run state machine, and the messages they send to the master.
//!
//! The registry is one owned value, and its functions never wait. Where an
//! operation begins by taking the registry mutex and answers to a failure to
//! get it, the function takes the result of that attempt. Transport calls
//! are the caller's: their results are handed in.

use std::collections::BTreeMap;
use vstd::prelude::*;
use vstd::std_specs::btree::group_btree_axioms;
use vstd::string::StringExecFns;
use crate::frame::append_range;
use crate::frame::first_count;
use crate::frame::first_payload;
use crate::frame::first_tag;
use crate::frame::to_wire;
use crate::frame::wire_bytes;
use crate::ordered::ascending;
use crate::ordered::keys_in_order;

verus! {

broadcast use group_btree_axioms;

/// How a run ended.
#[derive(Debug, PartialEq, Eq, Clone, Copy, Structural)]
pub enum FinishStatus {
    Success,
    CommLost,
    Exception,
}

/// Where a subkernel stands, as far as the master knows.
#[derive(Debug, PartialEq, Eq, Clone, Copy, Structural)]
pub enum SubkernelState {
    NotLoaded,
    Uploaded,
    Running,
    Finished { status: FinishStatus },
}

/// Why the scheduler ended a wait or refused the mutex.
#[derive(Debug, PartialEq, Eq, Clone, Copy, Structural)]
pub enum SchedError {
    Interrupted,
    TimedOut,
    Network,
}

/// Errors that are reported to the host session.
#[derive(Debug)]
pub enum Error {
    Timeout,
    SessionKilled,
    IncorrectState,
    DrtioError(String),
    SchedError(SchedError),
    RpcIoError,
    SubkernelFinished,
}

/// The mathematical content of an [`Error`].
pub enum ErrorView {
    Timeout,
    SessionKilled,
    IncorrectState,
    DrtioError(Seq<char>),
    SchedError(SchedError),
    RpcIoError,
    SubkernelFinished,
}

impl View for Error {
    type V = ErrorView;

    open spec fn view(&self) -> ErrorView {
        match *self {
            Error::Timeout => ErrorView::Timeout,
            Error::SessionKilled => ErrorView::SessionKilled,
            Error::IncorrectState => ErrorView::IncorrectState,
            Error::DrtioError(message) => ErrorView::DrtioError(message@),
            Error::SchedError(e) => ErrorView::SchedError(e),
            Error::RpcIoError => ErrorView::RpcIoError,
            Error::SubkernelFinished => ErrorView::SubkernelFinished,
        }
    }
}

/// The error that a scheduler error is reported as: an interrupted wait
/// means that the session was killed.
pub open spec fn sched_error(e: SchedError) -> ErrorView {
    match e {
        SchedError::Interrupted => ErrorView::SessionKilled,
        other => ErrorView::SchedError(other),
    }
}

impl From<SchedError> for Error {
    fn from(value: SchedError) -> (e: Error) {
        match value {
            SchedError::Interrupted => Error::SessionKilled,
            x => Error::SchedError(x),
        }
    }
}

impl vstd::std_specs::convert::FromSpecImpl<SchedError> for Error {
    open spec fn obeys_from_spec() -> bool {
        true
    }

    open spec fn from_spec(value: SchedError) -> Error {
        match value {
            SchedError::Interrupted => Error::SessionKilled,
            x => Error::SchedError(x),
        }
    }
}

impl Error {
    /// The error for a failure that the transport reported in words.
    pub fn drtio(message: &str) -> (e: Error)
        ensures
            e@ == ErrorView::DrtioError(message@),
    {
        Error::DrtioError(String::from_str(message))
    }

    /// The error in words.
    pub fn describe(&self) -> (text: String)
        ensures
            text@ == match self@ {
                ErrorView::Timeout => "Timed out waiting for subkernel"@,
                ErrorView::SessionKilled => "Session killed while waiting for subkernel"@,
                ErrorView::IncorrectState => "Subkernel is in incorrect state for the given operation"@,
                ErrorView::DrtioError(message) => "DRTIO error: "@ + message,
                ErrorView::SchedError(_) => "scheduler error"@,
                ErrorView::RpcIoError => "rpc io error"@,
                ErrorView::SubkernelFinished => "subkernel finished prematurely"@,
            },
    {
        match self {
            Error::Timeout => String::from_str("Timed out waiting for subkernel"),
            Error::SessionKilled => String::from_str("Session killed while waiting for subkernel"),
            Error::IncorrectState => String::from_str(
                "Subkernel is in incorrect state for the given operation",
            ),
            Error::DrtioError(message) => String::from_str("DRTIO error: ").concat(
                message.as_str(),
            ),
            Error::SchedError(_) => String::from_str("scheduler error"),
            Error::RpcIoError => String::from_str("rpc io error"),
            Error::SubkernelFinished => String::from_str("subkernel finished prematurely"),
        }
    }
}

/// A result with its error by its view.
pub open spec fn result_view<T>(r: Result<T, Error>) -> Result<T, ErrorView> {
    match r {
        Ok(value) => Ok(value),
        Err(e) => Err(e@),
    }
}

/// What the transport reported, with the words of a failure as text.
pub open spec fn transport_view<T>(r: Result<T, &str>) -> Result<T, Seq<char>> {
    match r {
        Ok(value) => Ok(value),
        Err(message) => Err(message@),
    }
}

/// What a finished run left behind.
#[derive(Debug)]
pub struct SubkernelFinished {
    pub id: u32,
    pub comm_lost: bool,
    pub exception: Option<Vec<u8>>,
}

/// The mathematical content of a [`SubkernelFinished`].
pub struct SubkernelFinishedView {
    pub id: u32,
    pub comm_lost: bool,
    pub exception: Option<Seq<u8>>,
}

impl View for SubkernelFinished {
    type V = SubkernelFinishedView;

    open spec fn view(&self) -> SubkernelFinishedView {
        SubkernelFinishedView {
            id: self.id,
            comm_lost: self.comm_lost,
            exception: match self.exception {
                Some(bytes) => Some(bytes@),
                None => None,
            },
        }
    }
}

/// The status of a finished run as it was taken from the registry. Where the
/// run ended with an exception, its bytes are still with the satellite.
#[derive(Debug, PartialEq, Eq, Clone, Copy, Structural)]
pub enum Finishing {
    /// The run ended without an exception of the kernel.
    Done { id: u32, comm_lost: bool },
    /// The run ended with an exception, to be retrieved from `destination`.
    Exception { id: u32, destination: u8 },
}

/// A subkernel as the registry holds it.
#[derive(Debug)]
pub struct Subkernel {
    pub destination: u8,
    pub data: Vec<u8>,
    pub state: SubkernelState,
}

/// The mathematical content of a [`Subkernel`].
pub struct SubkernelView {
    pub destination: u8,
    pub data: Seq<u8>,
    pub state: SubkernelState,
}

impl View for Subkernel {
    type V = SubkernelView;

    open spec fn view(&self) -> SubkernelView {
        SubkernelView { destination: self.destination, data: self.data@, state: self.state }
    }
}

impl Subkernel {
    pub fn new(destination: u8, data: Vec<u8>) -> (subkernel: Subkernel)
        ensures
            subkernel@ == (SubkernelView {
                destination,
                data: data@,
                state: SubkernelState::NotLoaded,
            }),
    {
        Subkernel { destination, data, state: SubkernelState::NotLoaded }
    }
}

/// A message of a subkernel to the master.
#[derive(Debug)]
pub struct Message {
    pub from_id: u32,
    pub tag_count: u8,
    pub tag: u8,
    pub data: Vec<u8>,
}

/// The mathematical content of a [`Message`].
pub struct MessageView {
    pub from_id: u32,
    pub tag_count: u8,
    pub tag: u8,
    pub data: Seq<u8>,
}

impl View for Message {
    type V = MessageView;

    open spec fn view(&self) -> MessageView {
        MessageView {
            from_id: self.from_id,
            tag_count: self.tag_count,
            tag: self.tag,
            data: self.data@,
        }
    }
}

/// What can happen to a subkernel that is in the registry.
pub enum Transition {
    /// Its image was sent to its destination.
    Upload,
    /// The satellite was told to load it, and to run it if `run`.
    Load { run: bool },
    /// The satellite reported the end of its run.
    Finish { with_exception: bool },
    /// The link to its destination went down.
    DestinationDown,
    /// The link to its destination came up, and the upload that followed did
    /// or did not succeed.
    DestinationUp { uploaded: bool },
    /// The status of its finished run was taken.
    Retrieve,
}

impl SubkernelState {
    /// The state machine of a subkernel.
    pub open spec fn next(self, transition: Transition) -> SubkernelState {
        match transition {
            Transition::Upload => SubkernelState::Uploaded,
            Transition::Load { run } => if self == SubkernelState::Uploaded && run {
                SubkernelState::Running
            } else {
                self
            },
            Transition::Finish { with_exception } => SubkernelState::Finished {
                status: if with_exception {
                    FinishStatus::Exception
                } else {
                    FinishStatus::Success
                },
            },
            Transition::DestinationDown => if self == SubkernelState::Running {
                SubkernelState::Finished { status: FinishStatus::CommLost }
            } else {
                SubkernelState::NotLoaded
            },
            Transition::DestinationUp { uploaded } => if uploaded {
                SubkernelState::Uploaded
            } else {
                self
            },
            Transition::Retrieve => if self is Finished {
                SubkernelState::Uploaded
            } else {
                self
            },
        }
    }
}

/// The mathematical content of a [`Registry`].
pub struct RegistryView {
    /// The known subkernels, by id.
    pub subkernels: Map<u32, SubkernelView>,
    /// The complete messages that nobody has taken yet, oldest first.
    pub queue: Seq<MessageView>,
    /// The messages under assembly, by the id of their sender.
    pub current: Map<u32, MessageView>,
}

/// Index of the first message from `id` in a queue, or the length of the
/// queue if it holds none.
pub open spec fn first_from(queue: Seq<MessageView>, id: u32) -> int
    decreases queue.len(),
{
    if queue.len() == 0 || queue[0].from_id == id {
        0
    } else {
        1 + first_from(queue.drop_first(), id)
    }
}

impl RegistryView {
    pub open spec fn empty() -> RegistryView {
        RegistryView { subkernels: Map::empty(), queue: Seq::empty(), current: Map::empty() }
    }

    /// The state of `id`, if it is registered.
    pub open spec fn state(self, id: u32) -> Option<SubkernelState> {
        if self.subkernels.contains_key(id) {
            Some(self.subkernels[id].state)
        } else {
            None
        }
    }

    /// Whether `id` is registered and its run has ended.
    pub open spec fn finished(self, id: u32) -> bool {
        self.subkernels.contains_key(id) && self.subkernels[id].state is Finished
    }

    /// The registry after a registered subkernel has gone through a
    /// transition.
    pub open spec fn moved(self, id: u32, transition: Transition) -> RegistryView {
        RegistryView {
            subkernels: self.subkernels.insert(
                id,
                SubkernelView {
                    state: self.subkernels[id].state.next(transition),
                    ..self.subkernels[id]
                },
            ),
            ..self
        }
    }

    pub open spec fn add_subkernel(self, id: u32, destination: u8, data: Seq<u8>) -> RegistryView {
        RegistryView {
            subkernels: self.subkernels.insert(
                id,
                SubkernelView { destination, data, state: SubkernelState::NotLoaded },
            ),
            ..self
        }
    }

    /// The outcome of an upload is taken: success makes the subkernel
    /// uploaded, whatever its state was; a failure is reported and changes
    /// nothing.
    pub open spec fn upload(self, id: u32, outcome: Result<(), Seq<char>>) -> (
        RegistryView,
        Result<(), ErrorView>,
    ) {
        match outcome {
            Ok(()) => (self.moved(id, Transition::Upload), Ok(())),
            Err(message) => (self, Err(ErrorView::DrtioError(message))),
        }
    }

    /// Whether a load may be asked of the satellite, and of which: only an
    /// uploaded subkernel is loaded.
    pub open spec fn load_request(self, id: u32) -> Result<u8, ErrorView> {
        if self.state(id) == Some(SubkernelState::Uploaded) {
            Ok(self.subkernels[id].destination)
        } else {
            Err(ErrorView::IncorrectState)
        }
    }

    /// The outcome of a load is taken: on success a subkernel that was told
    /// to run is running; a failure is reported and changes nothing.
    pub open spec fn load(self, id: u32, run: bool, outcome: Result<(), Seq<char>>) -> (
        RegistryView,
        Result<(), ErrorView>,
    ) {
        if self.state(id) != Some(SubkernelState::Uploaded) {
            (self, Err(ErrorView::IncorrectState))
        } else {
            match outcome {
                Ok(()) => (self.moved(id, Transition::Load { run }), Ok(())),
                Err(message) => (self, Err(ErrorView::DrtioError(message))),
            }
        }
    }

    /// The end of a run is reported. A report for an id that is not
    /// registered is ignored.
    pub open spec fn subkernel_finished(self, id: u32, with_exception: bool) -> RegistryView {
        if self.subkernels.contains_key(id) {
            self.moved(id, Transition::Finish { with_exception })
        } else {
            self
        }
    }

    /// The transition that a change of the link to its destination means for
    /// a subkernel.
    pub open spec fn link_transition(id: u32, up: bool, uploaded: Seq<u32>) -> Transition {
        if up {
            Transition::DestinationUp { uploaded: uploaded.contains(id) }
        } else {
            Transition::DestinationDown
        }
    }

    /// The link to a destination has changed. Every subkernel of that
    /// destination goes through the transition that this means for it; all
    /// others stay as they are. `uploaded` holds the ids whose upload
    /// succeeded after the link came up.
    pub open spec fn destination_changed(self, destination: u8, up: bool, uploaded: Seq<u32>)
        -> RegistryView {
        RegistryView {
            subkernels: Map::new(
                |id: u32| self.subkernels.contains_key(id),
                |id: u32|
                    if self.subkernels[id].destination == destination {
                        SubkernelView {
                            state: self.subkernels[id].state.next(
                                Self::link_transition(id, up, uploaded),
                            ),
                            ..self.subkernels[id]
                        }
                    } else {
                        self.subkernels[id]
                    },
            ),
            ..self
        }
    }

    /// The status of a finished run is taken, which leaves the subkernel
    /// uploaded, ready to run again. Without the mutex nothing happens; a
    /// subkernel whose run has not ended is in an incorrect state.
    pub open spec fn retrieve_finish_status(self, lock: Result<(), SchedError>, id: u32) -> (
        RegistryView,
        Result<Finishing, ErrorView>,
    ) {
        match lock {
            Err(e) => (self, Err(sched_error(e))),
            Ok(()) => match self.state(id) {
                Some(SubkernelState::Finished { status }) => (
                    self.moved(id, Transition::Retrieve),
                    Ok(
                        if status == FinishStatus::Exception {
                            Finishing::Exception {
                                id,
                                destination: self.subkernels[id].destination,
                            }
                        } else {
                            Finishing::Done { id, comm_lost: status == FinishStatus::CommLost }
                        },
                    ),
                ),
                _ => (self, Err(ErrorView::IncorrectState)),
            },
        }
    }

    /// Whether the end of a run may be awaited: the subkernel runs or has
    /// finished.
    pub open spec fn await_finish(self, lock: Result<(), SchedError>, id: u32) -> Result<
        (),
        ErrorView,
    > {
        match lock {
            Err(e) => Err(sched_error(e)),
            Ok(()) => match self.state(id) {
                Some(SubkernelState::Running) | Some(SubkernelState::Finished { .. }) => Ok(()),
                _ => Err(ErrorView::IncorrectState),
            },
        }
    }

    /// The message under assembly for `id` after `frame` has been added to
    /// it.
    pub open spec fn assembled(self, id: u32, frame: Seq<u8>) -> MessageView {
        if self.current.contains_key(id) {
            MessageView { data: self.current[id].data + frame, ..self.current[id] }
        } else {
            MessageView {
                from_id: id,
                tag_count: first_count(frame),
                tag: first_tag(frame),
                data: first_payload(frame),
            }
        }
    }

    /// A frame from a satellite arrives. It is dropped if the mutex could not
    /// be had or the sender is not registered; else it extends the sender's
    /// message under assembly, or starts one, and the last frame moves the
    /// message to the tail of the queue.
    pub open spec fn message_handle_incoming(
        self,
        lock: Result<(), SchedError>,
        id: u32,
        last: bool,
        frame: Seq<u8>,
    ) -> RegistryView {
        if lock is Err || !self.subkernels.contains_key(id) {
            self
        } else if last {
            RegistryView {
                queue: self.queue.push(self.assembled(id, frame)),
                current: self.current.remove(id),
                ..self
            }
        } else {
            RegistryView { current: self.current.insert(id, self.assembled(id, frame)), ..self }
        }
    }

    /// Whether a message of `id` may be awaited: only a running subkernel
    /// sends any.
    pub open spec fn message_await(self, lock: Result<(), SchedError>, id: u32) -> Result<
        (),
        ErrorView,
    > {
        match lock {
            Err(e) => Err(sched_error(e)),
            Ok(()) => match self.state(id) {
                Some(SubkernelState::Finished { .. }) => Err(ErrorView::SubkernelFinished),
                Some(SubkernelState::Running) => Ok(()),
                _ => Err(ErrorView::IncorrectState),
            },
        }
    }

    /// Why a wait for a message of `id` ended before its deadline without
    /// one: the run has ended, or the subkernel is in no state to send any.
    pub open spec fn no_message(self, lock: Result<(), SchedError>, id: u32) -> ErrorView {
        match lock {
            Err(e) => sched_error(e),
            Ok(()) => if self.finished(id) {
                ErrorView::SubkernelFinished
            } else {
                ErrorView::IncorrectState
            },
        }
    }

    /// Whether the queue holds a message from `id`.
    pub open spec fn has_message_from(self, id: u32) -> bool {
        0 <= first_from(self.queue, id) < self.queue.len()
    }

    /// What sending a message to `id` needs of the transport: the
    /// destination and the wire form of the message.
    pub open spec fn message_send(self, id: u32, count: u8, encoded: Option<Seq<u8>>) -> Result<
        (u8, Seq<u8>),
        ErrorView,
    > {
        match encoded {
            None => Err(ErrorView::RpcIoError),
            Some(bytes) => Ok((self.subkernels[id].destination, wire_bytes(count, bytes))),
        }
    }
}

/// The known subkernels and their messages to the master.
#[derive(Debug)]
pub struct Registry {
    subkernels: BTreeMap<u32, Subkernel>,
    message_queue: Vec<Message>,
    current_messages: BTreeMap<u32, Message>,
}

impl View for Registry {
    type V = RegistryView;

    closed spec fn view(&self) -> RegistryView {
        RegistryView {
            subkernels: self.subkernels@.map_values(|s: Subkernel| s@),
            queue: self.message_queue@.map_values(|m: Message| m@),
            current: self.current_messages@.map_values(|m: Message| m@),
        }
    }
}

impl Registry {
    pub fn new() -> (registry: Registry)
        ensures
            registry@ == RegistryView::empty(),
    {
        let registry = Registry {
            subkernels: BTreeMap::new(),
            message_queue: Vec::new(),
            current_messages: BTreeMap::new(),
        };
        assert(registry@.subkernels =~= Map::<u32, SubkernelView>::empty());
        assert(registry@.current =~= Map::<u32, MessageView>::empty());
        assert(registry@.queue =~= Seq::<MessageView>::empty());
        registry
    }

    /// The subkernel registered under `id`.
    pub fn subkernel(&self, id: u32) -> (subkernel: Option<&Subkernel>)
        ensures
            match subkernel {
                Some(s) => self@.subkernels.contains_key(id) && self@.subkernels[id] == s@,
                None => !self@.subkernels.contains_key(id),
            },
    {
        self.subkernels.get(&id)
    }

    /// The state of the subkernel registered under `id`.
    pub fn state(&self, id: u32) -> (state: Option<SubkernelState>)
        ensures
            state == self@.state(id),
    {
        match self.subkernels.get(&id) {
            Some(subkernel) => Some(subkernel.state),
            None => None,
        }
    }

    /// Whether a message from `id` is under assembly. If none is, the next
    /// frame from `id` is a first frame.
    pub fn assembling(&self, id: u32) -> (b: bool)
        ensures
            b == self@.current.contains_key(id),
    {
        self.current_messages.contains_key(&id)
    }

    /// Number of complete messages that nobody has taken yet.
    pub fn queued(&self) -> (n: usize)
        ensures
            n == self@.queue.len(),
    {
        self.message_queue.len()
    }

    fn transit(&mut self, id: u32, transition: Ghost<Transition>, state: SubkernelState)
        requires
            old(self)@.subkernels.contains_key(id),
            state == old(self)@.subkernels[id].state.next(transition@),
        ensures
            final(self)@ == old(self)@.moved(id, transition@),
    {
        let ghost f = |s: Subkernel| s@;
        match self.subkernels.remove(&id) {
            Some(subkernel) => {
                let mut subkernel = subkernel;
                subkernel.state = state;
                proof {
                    assert(old(self).subkernels@.remove(id).insert(id, subkernel).map_values(f)
                        =~= old(self).subkernels@.map_values(f).insert(id, subkernel@));
                }
                self.subkernels.insert(id, subkernel);
            },
            None => {},
        }
    }
}

/// Registers a subkernel, or replaces the one registered under `id`.
pub fn add_subkernel(registry: &mut Registry, id: u32, destination: u8, kernel: Vec<u8>)
    ensures
        final(registry)@ == old(registry)@.add_subkernel(id, destination, kernel@),
{
    let ghost f = |s: Subkernel| s@;
    let subkernel = Subkernel::new(destination, kernel);
    proof {
        assert(registry.subkernels@.insert(id, subkernel).map_values(f)
            =~= registry.subkernels@.map_values(f).insert(id, subkernel@));
    }
    registry.subkernels.insert(id, subkernel);
}

/// Takes the outcome of the upload of subkernel `id` to its destination.
/// What the transport is handed, the destination and the image, is found
/// with [`Registry::subkernel`].
pub fn upload(registry: &mut Registry, id: u32, outcome: Result<(), &str>) -> (r: Result<
    (),
    Error,
>)
    requires
        old(registry)@.subkernels.contains_key(id),
    ensures
        final(registry)@ == old(registry)@.upload(id, transport_view(outcome)).0,
        result_view(r) == old(registry)@.upload(id, transport_view(outcome)).1,
{
    match outcome {
        Ok(()) => {
            registry.transit(id, Ghost(Transition::Upload), SubkernelState::Uploaded);
            Ok(())
        },
        Err(message) => Err(Error::drtio(message)),
    }
}

/// Says of which destination the load of subkernel `id` is to be asked, if
/// the subkernel is in a state to be loaded.
pub fn load_request(registry: &Registry, id: u32) -> (r: Result<u8, Error>)
    ensures
        result_view(r) == registry@.load_request(id),
{
    match registry.subkernels.get(&id) {
        Some(subkernel) => {
            if subkernel.state != SubkernelState::Uploaded {
                Err(Error::IncorrectState)
            } else {
                Ok(subkernel.destination)
            }
        },
        None => Err(Error::IncorrectState),
    }
}

/// Takes the outcome of the load of subkernel `id` that was asked of its
/// destination.
pub fn load(registry: &mut Registry, id: u32, run: bool, outcome: Result<(), &str>) -> (r: Result<
    (),
    Error,
>)
    ensures
        final(registry)@ == old(registry)@.load(id, run, transport_view(outcome)).0,
        result_view(r) == old(registry)@.load(id, run, transport_view(outcome)).1,
{
    if registry.state(id) != Some(SubkernelState::Uploaded) {
        return Err(Error::IncorrectState);
    }
    match outcome {
        Ok(()) => {
            let state = if run {
                SubkernelState::Running
            } else {
                SubkernelState::Uploaded
            };
            registry.transit(id, Ghost(Transition::Load { run }), state);
            Ok(())
        },
        Err(message) => Err(Error::drtio(message)),
    }
}

/// Forgets all subkernels and all their messages, complete or not.
pub fn clear_subkernels(registry: &mut Registry)
    ensures
        final(registry)@ == RegistryView::empty(),
{
    registry.subkernels = BTreeMap::new();
    registry.message_queue = Vec::new();
    registry.current_messages = BTreeMap::new();
    assert(registry@.subkernels =~= Map::<u32, SubkernelView>::empty());
    assert(registry@.current =~= Map::<u32, MessageView>::empty());
    assert(registry@.queue =~= Seq::<MessageView>::empty());
}

/// Takes the satellite's report that the run of subkernel `id` has ended.
pub fn subkernel_finished(registry: &mut Registry, id: u32, with_exception: bool)
    ensures
        final(registry)@ == old(registry)@.subkernel_finished(id, with_exception),
{
    if registry.subkernels.contains_key(&id) {
        let status = match with_exception {
            true => FinishStatus::Exception,
            false => FinishStatus::Success,
        };
        registry.transit(
            id,
            Ghost(Transition::Finish { with_exception }),
            SubkernelState::Finished { status },
        );
    }
}

fn holds(ids: &Vec<u32>, id: u32) -> (found: bool)
    ensures
        found == ids@.contains(id),
{
    let mut i: usize = 0;
    while i < ids.len()
        invariant
            i <= ids@.len(),
            forall|j: int| 0 <= j < i ==> ids@[j] != id,
        decreases ids@.len() - i,
    {
        if ids[i] == id {
            return true;
        }
        i += 1;
    }
    false
}

/// The ids of the subkernels that are assigned to `destination`, in
/// ascending order.
pub fn subkernels_on(registry: &Registry, destination: u8) -> (ids: Vec<u32>)
    ensures
        ascending(ids@),
        forall|id: u32|
            ids@.contains(id) <==> registry@.subkernels.contains_key(id)
                && registry@.subkernels[id].destination == destination,
{
    let all = keys_in_order(&registry.subkernels);
    let mut ids: Vec<u32> = Vec::new();
    let mut i: usize = 0;
    while i < all.len()
        invariant
            i <= all@.len(),
            ascending(all@),
            forall|id: u32| all@.contains(id) <==> registry.subkernels@.contains_key(id),
            ascending(ids@),
            forall|id: u32|
                ids@.contains(id) <==> (exists|j: int| 0 <= j < i && all@[j] == id)
                    && registry@.subkernels[id].destination == destination,
        decreases all@.len() - i,
    {
        let id = all[i];
        assert(all@.contains(id));
        let on = match registry.subkernels.get(&id) {
            Some(subkernel) => subkernel.destination == destination,
            None => false,
        };
        if on {
            let ghost before = ids@;
            ids.push(id);
            proof {
                assert forall|k: int, l: int| 0 <= k < l < ids@.len() implies ids@[k] < ids@[l] by {
                    if l == before.len() {
                        assert(before.contains(before[k]));
                        let j = choose|j: int| 0 <= j < i && all@[j] == before[k];
                        assert(all@[j] < all@[i as int]);
                    } else {
                        assert(before[k] < before[l]);
                    }
                }
                assert forall|other: u32|
                    ids@.contains(other) <==> (exists|j: int| 0 <= j < i + 1 && all@[j] == other)
                        && registry@.subkernels[other].destination == destination by {
                    if ids@.contains(other) {
                        let k = choose|k: int| 0 <= k < ids@.len() && ids@[k] == other;
                        if k < before.len() {
                            assert(before[k] == other);
                            assert(before.contains(other));
                            let j = choose|j: int| 0 <= j < i && all@[j] == other;
                            assert(0 <= j < i + 1 && all@[j] == other);
                        } else {
                            assert(all@[i as int] == other);
                        }
                    }
                    if (exists|j: int| 0 <= j < i + 1 && all@[j] == other)
                        && registry@.subkernels[other].destination == destination {
                        let j = choose|j: int| 0 <= j < i + 1 && all@[j] == other;
                        if j < i {
                            assert(before.contains(other));
                            let k = choose|k: int| 0 <= k < before.len() && before[k] == other;
                            assert(ids@[k] == other);
                        } else {
                            assert(ids@[before.len() as int] == other);
                        }
                    }
                }
            }
        } else {
            proof {
                assert forall|other: u32|
                    ids@.contains(other) <==> (exists|j: int| 0 <= j < i + 1 && all@[j] == other)
                        && registry@.subkernels[other].destination == destination by {
                    if ids@.contains(other) {
                        let j = choose|j: int| 0 <= j < i && all@[j] == other;
                        assert(0 <= j < i + 1 && all@[j] == other);
                    }
                    if (exists|j: int| 0 <= j < i + 1 && all@[j] == other)
                        && registry@.subkernels[other].destination == destination {
                        let j = choose|j: int| 0 <= j < i + 1 && all@[j] == other;
                        assert(j < i);
                    }
                }
            }
        }
        i += 1;
    }
    proof {
        assert forall|id: u32|
            ids@.contains(id) <==> registry@.subkernels.contains_key(id)
                && registry@.subkernels[id].destination == destination by {
            if registry@.subkernels.contains_key(id) {
                assert(all@.contains(id));
                let j = choose|j: int| 0 <= j < all@.len() && all@[j] == id;
                assert(0 <= j < i && all@[j] == id);
            }
            if ids@.contains(id) {
                let j = choose|j: int| 0 <= j < i && all@[j] == id;
                assert(all@.contains(id));
            }
        }
    }
    ids
}

/// Takes a change of the link to `destination`. Where the link came up, the
/// caller has uploaded each subkernel of [`subkernels_on`] again, and
/// `uploaded` holds the ids for which that succeeded.
pub fn destination_changed(registry: &mut Registry, destination: u8, up: bool, uploaded: &Vec<u32>)
    ensures
        final(registry)@ == old(registry)@.destination_changed(destination, up, uploaded@),
{
    let ghost before = registry@;
    let ghost after = before.destination_changed(destination, up, uploaded@);
    let ids = keys_in_order(&registry.subkernels);
    let mut i: usize = 0;
    while i < ids.len()
        invariant
            i <= ids@.len(),
            ids@.no_duplicates(),
            forall|id: u32| ids@.contains(id) <==> before.subkernels.contains_key(id),
            before == old(registry)@,
            after == before.destination_changed(destination, up, uploaded@),
            registry@.queue == before.queue,
            registry@.current == before.current,
            registry@.subkernels.dom() == before.subkernels.dom(),
            forall|j: int| 0 <= j < i ==> registry@.subkernels[ids@[j]] == after.subkernels[ids@[j]],
            forall|j: int|
                i <= j < ids@.len() ==> registry@.subkernels[ids@[j]] == before.subkernels[ids@[j]],
        decreases ids@.len() - i,
    {
        let id = ids[i];
        assert(ids@.contains(id));
        assert(before.subkernels.dom().contains(id));
        let ghost f = |s: Subkernel| s@;
        let ghost during = registry@;
        let ghost held = registry.subkernels@;
        match registry.subkernels.remove(&id) {
            Some(subkernel) => {
                let mut subkernel = subkernel;
                if subkernel.destination == destination {
                    if up {
                        if holds(uploaded, id) {
                            subkernel.state = SubkernelState::Uploaded;
                        }
                    } else {
                        subkernel.state = match subkernel.state {
                            SubkernelState::Running => SubkernelState::Finished {
                                status: FinishStatus::CommLost,
                            },
                            _ => SubkernelState::NotLoaded,
                        };
                    }
                }
                proof {
                    assert(held.remove(id).insert(id, subkernel).map_values(f) =~= held.map_values(
                        f,
                    ).insert(id, subkernel@));
                    assert(subkernel@ == after.subkernels[id]);
                }
                registry.subkernels.insert(id, subkernel);
                proof {
                    assert(registry@.subkernels == during.subkernels.insert(
                        id,
                        after.subkernels[id],
                    ));
                    assert(registry@.subkernels.dom() =~= before.subkernels.dom());
                    assert forall|j: int| 0 <= j < i + 1 implies registry@.subkernels[ids@[j]]
                        == after.subkernels[ids@[j]] by {
                        if j < i {
                            assert(ids@[j] != ids@[i as int]);
                        }
                    }
                    assert forall|j: int| i + 1 <= j < ids@.len() implies registry@.subkernels[ids@[j]]
                        == before.subkernels[ids@[j]] by {
                        assert(ids@[j] != ids@[i as int]);
                    }
                }
            },
            None => {
                assert(false);
            },
        }
        i += 1;
    }
    proof {
        assert forall|id: u32| registry@.subkernels.contains_key(id) implies registry@.subkernels[id]
            == after.subkernels[id] by {
            assert(ids@.contains(id));
            let j = choose|j: int| 0 <= j < ids@.len() && ids@[j] == id;
            assert(registry@.subkernels[ids@[j]] == after.subkernels[ids@[j]]);
        }
        assert(registry@.subkernels =~= after.subkernels);
    }
}

/// Takes the status of the finished run of subkernel `id` from the
/// registry. `lock` is the result of the attempt to take the registry mutex.
pub fn retrieve_finish_status(registry: &mut Registry, lock: Result<(), SchedError>, id: u32) -> (r:
    Result<Finishing, Error>)
    ensures
        final(registry)@ == old(registry)@.retrieve_finish_status(lock, id).0,
        result_view(r) == old(registry)@.retrieve_finish_status(lock, id).1,
{
    match lock {
        Err(e) => {
            return Err(Error::from(e));
        },
        Ok(()) => {},
    }
    let found = match registry.subkernels.get(&id) {
        Some(subkernel) => Some((subkernel.state, subkernel.destination)),
        None => None,
    };
    match found {
        Some((SubkernelState::Finished { status }, destination)) => {
            registry.transit(id, Ghost(Transition::Retrieve), SubkernelState::Uploaded);
            if status == FinishStatus::Exception {
                Ok(Finishing::Exception { id, destination })
            } else {
                Ok(Finishing::Done { id, comm_lost: status == FinishStatus::CommLost })
            }
        },
        _ => Err(Error::IncorrectState),
    }
}

/// What the host is told of a finished run, given the status taken from the
/// registry and, for a run that ended with an exception, what the transport
/// brought back when asked for it: the exception's bytes, or a failure in
/// words. For a run without exception, the transport was not asked, and
/// `exception` counts for nothing.
pub open spec fn finished_with(
    finishing: Finishing,
    exception: Result<Seq<u8>, Seq<char>>,
) -> Result<SubkernelFinishedView, ErrorView> {
    match finishing {
        Finishing::Done { id, comm_lost } => Ok(
            SubkernelFinishedView { id, comm_lost, exception: None },
        ),
        Finishing::Exception { id, destination } => match exception {
            Ok(bytes) => Ok(SubkernelFinishedView { id, comm_lost: false, exception: Some(bytes) }),
            Err(message) => Err(ErrorView::DrtioError(message)),
        },
    }
}

/// A finished run, or the error in its place, both by their views.
pub open spec fn finished_view(r: Result<SubkernelFinished, Error>) -> Result<
    SubkernelFinishedView,
    ErrorView,
> {
    match r {
        Ok(finished) => Ok(finished@),
        Err(e) => Err(e@),
    }
}

/// What the transport brought back when asked for an exception, by its
/// views.
pub open spec fn exception_view(r: Result<Vec<u8>, &str>) -> Result<Seq<u8>, Seq<char>> {
    match r {
        Ok(bytes) => Ok(bytes@),
        Err(message) => Err(message@),
    }
}

/// Completes the status of a finished run for the host.
pub fn finish_status(finishing: Finishing, exception: Result<Vec<u8>, &str>) -> (r: Result<
    SubkernelFinished,
    Error,
>)
    ensures
        finished_view(r) == finished_with(finishing, exception_view(exception)),
{
    match finishing {
        Finishing::Done { id, comm_lost } => Ok(SubkernelFinished { id, comm_lost, exception: None }),
        Finishing::Exception { id, destination } => match exception {
            Ok(bytes) => Ok(SubkernelFinished { id, comm_lost: false, exception: Some(bytes) }),
            Err(message) => Err(Error::drtio(message)),
        },
    }
}

/// A wait for the end of a run.
#[derive(Debug, PartialEq, Eq, Clone, Copy, Structural)]
pub struct FinishWait {
    pub id: u32,
    pub max_time: u64,
}

impl FinishWait {
    /// Whether the wait is over at time `now`: the deadline has passed, or
    /// the run has ended. While somebody else holds the registry mutex,
    /// `locked`, the registry is not looked at.
    pub open spec fn ready(self, registry: RegistryView, now: u64, locked: bool) -> bool {
        now > self.max_time || (!locked && registry.finished(self.id))
    }

    /// What the wait comes to at time `now`: the scheduler's error if it
    /// ended the wait; a timeout if the deadline has passed; else it is time
    /// to take the status of the finished run.
    pub open spec fn finish(self, waited: Result<(), SchedError>, now: u64) -> Result<
        (),
        ErrorView,
    > {
        match waited {
            Err(e) => Err(sched_error(e)),
            Ok(()) => if now > self.max_time {
                Err(ErrorView::Timeout)
            } else {
                Ok(())
            },
        }
    }

    /// The predicate of the wait. It does not take the registry mutex, it
    /// is only told whether somebody holds it.
    pub fn poll(&self, registry: &Registry, now: u64, locked: bool) -> (ready: bool)
        ensures
            ready == self.ready(registry@, now, locked),
    {
        if now > self.max_time {
            return true;
        }
        if locked {
            return false;
        }
        match registry.state(self.id) {
            Some(SubkernelState::Finished { .. }) => true,
            _ => false,
        }
    }

    /// Ends the wait at time `now`, given what the scheduler made of it. On
    /// success the status of the finished run is there to be taken with
    /// [`retrieve_finish_status`].
    pub fn complete(self, waited: Result<(), SchedError>, now: u64) -> (r: Result<(), Error>)
        ensures
            result_view(r) == self.finish(waited, now),
    {
        match waited {
            Err(e) => {
                return Err(Error::from(e));
            },
            Ok(()) => {},
        }
        if now > self.max_time {
            return Err(Error::Timeout);
        }
        Ok(())
    }
}

/// Begins to wait, at time `now` and for `timeout` milliseconds, for the run
/// of subkernel `id` to end.
pub fn await_finish(
    registry: &Registry,
    lock: Result<(), SchedError>,
    id: u32,
    now: u64,
    timeout: u64,
) -> (r: Result<FinishWait, Error>)
    requires
        now + timeout <= u64::MAX,
    ensures
        match registry@.await_finish(lock, id) {
            Ok(()) => r == Ok::<FinishWait, Error>(FinishWait { id, max_time: (now + timeout) as u64 }),
            Err(e) => result_view(r) == Err::<FinishWait, ErrorView>(e),
        },
{
    match lock {
        Err(e) => {
            return Err(Error::from(e));
        },
        Ok(()) => {},
    }
    match registry.state(id) {
        Some(SubkernelState::Running) | Some(SubkernelState::Finished { .. }) => {},
        _ => {
            return Err(Error::IncorrectState);
        },
    }
    Ok(FinishWait { id, max_time: now + timeout })
}

/// Takes a frame of `length` bytes of a message from subkernel `id`. `lock`
/// is the result of the attempt to take the registry mutex.
pub fn message_handle_incoming<const N: usize>(
    registry: &mut Registry,
    lock: Result<(), SchedError>,
    id: u32,
    last: bool,
    length: usize,
    data: &[u8; N],
)
    requires
        lock is Ok && old(registry)@.subkernels.contains_key(id) ==> length <= N,
        lock is Ok && old(registry)@.subkernels.contains_key(id) && !old(
            registry,
        )@.current.contains_key(id) ==> length >= 2,
    ensures
        final(registry)@ == old(registry)@.message_handle_incoming(
            lock,
            id,
            last,
            data@.subrange(0, length as int),
        ),
{
    match lock {
        Err(_) => {
            return ;
        },
        Ok(()) => {},
    }
    if !registry.subkernels.contains_key(&id) {
        return ;
    }
    let ghost f = |m: Message| m@;
    let ghost frame = data@.subrange(0, length as int);
    let ghost held = registry.current_messages@;
    let message = match registry.current_messages.remove(&id) {
        Some(message) => {
            let mut message = message;
            append_range(&mut message.data, data, 0, length);
            message
        },
        None => {
            let mut payload: Vec<u8> = Vec::new();
            append_range(&mut payload, data, 2, length);
            assert(payload@ == first_payload(frame));
            Message { from_id: id, tag_count: data[0], tag: data[1], data: payload }
        },
    };
    assert(message@ == old(registry)@.assembled(id, frame));
    if last {
        proof {
            assert(held.remove(id).map_values(f) =~= held.map_values(f).remove(id));
            assert(registry.message_queue@.push(message).map_values(f)
                =~= registry.message_queue@.map_values(f).push(message@));
        }
        registry.message_queue.push(message);
    } else {
        proof {
            assert(held.remove(id).insert(id, message).map_values(f) =~= held.map_values(
                f,
            ).insert(id, message@));
        }
        registry.current_messages.insert(id, message);
    }
}

/// Where the first message from `id` is in a queue, given a position that
/// holds one and has none before it.
proof fn lemma_first_from_at(queue: Seq<MessageView>, id: u32, k: int)
    requires
        0 <= k < queue.len(),
        queue[k].from_id == id,
        forall|j: int| 0 <= j < k ==> queue[j].from_id != id,
    ensures
        first_from(queue, id) == k,
    decreases k,
{
    if k > 0 {
        let rest = queue.drop_first();
        assert forall|j: int| 0 <= j < k - 1 implies rest[j].from_id != id by {
            assert(rest[j] == queue[j + 1]);
        }
        lemma_first_from_at(rest, id, k - 1);
    }
}

/// A queue without a message from `id` has its first one, by convention, at
/// its end.
proof fn lemma_first_from_none(queue: Seq<MessageView>, id: u32)
    requires
        forall|j: int| 0 <= j < queue.len() ==> queue[j].from_id != id,
    ensures
        first_from(queue, id) == queue.len(),
    decreases queue.len(),
{
    if queue.len() > 0 {
        let rest = queue.drop_first();
        assert forall|j: int| 0 <= j < rest.len() implies rest[j].from_id != id by {
            assert(rest[j] == queue[j + 1]);
        }
        lemma_first_from_none(rest, id);
    }
}

/// A wait for a message of a subkernel.
#[derive(Debug, PartialEq, Eq, Clone, Copy, Structural)]
pub struct MessageWait {
    pub id: u32,
    pub max_time: u64,
}

/// A message, or none, or the sign to go on waiting, the message by its
/// view.
pub open spec fn polled_view(r: Result<Option<Message>, ()>) -> Result<Option<MessageView>, ()> {
    match r {
        Ok(Some(message)) => Ok(Some(message@)),
        Ok(None) => Ok(None),
        Err(()) => Err(()),
    }
}

/// What the scheduler made of a wait for a message, the message by its view.
pub open spec fn waited_view(r: Result<Option<Message>, SchedError>) -> Result<
    Option<MessageView>,
    SchedError,
> {
    match r {
        Ok(Some(message)) => Ok(Some(message@)),
        Ok(None) => Ok(None),
        Err(e) => Err(e),
    }
}

/// A message, or none, or the error in their place, by their views.
pub open spec fn taken_view(r: Result<Option<Message>, Error>) -> Result<
    Option<MessageView>,
    ErrorView,
> {
    match r {
        Ok(Some(message)) => Ok(Some(message@)),
        Ok(None) => Ok(None),
        Err(e) => Err(e@),
    }
}

impl MessageWait {
    /// One poll of the wait at time `now`. The wait ends without a message
    /// once the deadline has passed. While somebody else holds the registry
    /// mutex, `locked`, the wait goes on. Else the oldest message from the
    /// subkernel is taken from the queue; without one, the wait ends if the
    /// run has, and goes on if not.
    pub open spec fn poll(self, registry: RegistryView, now: u64, locked: bool) -> (
        RegistryView,
        Result<Option<MessageView>, ()>,
    ) {
        if now > self.max_time {
            (registry, Ok(None))
        } else if locked {
            (registry, Err(()))
        } else if registry.has_message_from(self.id) {
            let at = first_from(registry.queue, self.id);
            (
                RegistryView { queue: registry.queue.remove(at), ..registry },
                Ok(Some(registry.queue[at])),
            )
        } else if registry.finished(self.id) {
            (registry, Ok(None))
        } else {
            (registry, Err(()))
        }
    }

    /// What the wait comes to at time `now`: the message, if it gave one;
    /// the scheduler's error, as it is, if that ended the wait; a timeout if
    /// the wait ended without a message and the deadline has passed; and else
    /// nothing, which leaves the reason to be found with [`no_message`].
    pub open spec fn finish(self, waited: Result<Option<MessageView>, SchedError>, now: u64)
        -> Result<Option<MessageView>, ErrorView> {
        match waited {
            Ok(Some(message)) => Ok(Some(message)),
            Ok(None) => if now > self.max_time {
                Err(ErrorView::Timeout)
            } else {
                Ok(None)
            },
            Err(e) => Err(ErrorView::SchedError(e)),
        }
    }

    /// The predicate of the wait. `Err` says to go on waiting.
    pub fn poll_once(&self, registry: &mut Registry, now: u64, locked: bool) -> (r: Result<
        Option<Message>,
        (),
    >)
        ensures
            final(registry)@ == self.poll(old(registry)@, now, locked).0,
            polled_view(r) == self.poll(old(registry)@, now, locked).1,
    {
        if now > self.max_time {
            return Ok(None);
        }
        if locked {
            return Err(());
        }
        let mut i: usize = 0;
        while i < registry.message_queue.len()
            invariant
                i <= registry.message_queue@.len(),
                *registry == *old(registry),
                now <= self.max_time,
                !locked,
                forall|j: int| 0 <= j < i ==> registry@.queue[j].from_id != self.id,
            decreases registry.message_queue@.len() - i,
        {
            if registry.message_queue[i].from_id == self.id {
                proof {
                    let f = |m: Message| m@;
                    lemma_first_from_at(registry@.queue, self.id, i as int);
                    assert(registry.message_queue@.remove(i as int).map_values(f)
                        =~= registry.message_queue@.map_values(f).remove(i as int));
                }
                let message = registry.message_queue.remove(i);
                return Ok(Some(message));
            }
            i += 1;
        }
        proof {
            lemma_first_from_none(registry@.queue, self.id);
        }
        match registry.state(self.id) {
            Some(SubkernelState::Finished { .. }) => Ok(None),
            _ => Err(()),
        }
    }

    /// Ends the wait at time `now`, given what the scheduler made of it.
    pub fn complete(self, waited: Result<Option<Message>, SchedError>, now: u64) -> (r: Result<
        Option<Message>,
        Error,
    >)
        ensures
            taken_view(r) == self.finish(waited_view(waited), now),
    {
        match waited {
            Ok(Some(message)) => Ok(Some(message)),
            Ok(None) => {
                if now > self.max_time {
                    Err(Error::Timeout)
                } else {
                    Ok(None)
                }
            },
            Err(e) => Err(Error::SchedError(e)),
        }
    }
}

/// Why a wait for a message of subkernel `id` ended before its deadline
/// without one. `lock` is the result of the attempt to take the registry
/// mutex.
pub fn no_message(registry: &Registry, lock: Result<(), SchedError>, id: u32) -> (e: Error)
    ensures
        e@ == registry@.no_message(lock, id),
{
    match lock {
        Err(e) => Error::from(e),
        Ok(()) => match registry.state(id) {
            Some(SubkernelState::Finished { .. }) => Error::SubkernelFinished,
            _ => Error::IncorrectState,
        },
    }
}

/// Begins to wait, at time `now` and for `timeout` milliseconds, for a
/// message of subkernel `id`.
pub fn message_await(
    registry: &Registry,
    lock: Result<(), SchedError>,
    id: u32,
    now: u64,
    timeout: u64,
) -> (r: Result<MessageWait, Error>)
    requires
        now + timeout <= u64::MAX,
    ensures
        match registry@.message_await(lock, id) {
            Ok(()) => r == Ok::<MessageWait, Error>(
                MessageWait { id, max_time: (now + timeout) as u64 },
            ),
            Err(e) => result_view(r) == Err::<MessageWait, ErrorView>(e),
        },
{
    match lock {
        Err(e) => {
            return Err(Error::from(e));
        },
        Ok(()) => {},
    }
    match registry.state(id) {
        Some(SubkernelState::Finished { .. }) => {
            return Err(Error::SubkernelFinished);
        },
        Some(SubkernelState::Running) => {},
        _ => {
            return Err(Error::IncorrectState);
        },
    }
    Ok(MessageWait { id, max_time: now + timeout })
}

/// What is to be sent, the bytes by their view.
pub open spec fn send_view(r: Result<(u8, Vec<u8>), Error>) -> Result<(u8, Seq<u8>), ErrorView> {
    match r {
        Ok((destination, bytes)) => Ok((destination, bytes@)),
        Err(e) => Err(e@),
    }
}

/// Prepares a message to subkernel `id` for the transport. `encoded` is what
/// the argument encoder produced for the message, or `None` where the
/// encoder failed. The result names the destination and holds the bytes to
/// send.
pub fn message_send(registry: &Registry, id: u32, count: u8, encoded: Option<Vec<u8>>) -> (r:
    Result<(u8, Vec<u8>), Error>)
    requires
        registry@.subkernels.contains_key(id),
        encoded matches Some(bytes) ==> bytes@.len() > 3,
    ensures
        send_view(r) == registry@.message_send(
            id,
            count,
            match encoded {
                Some(bytes) => Some(bytes@),
                None => None,
            },
        ),
{
    let destination = match registry.subkernels.get(&id) {
        Some(subkernel) => subkernel.destination,
        None => 0,
    };
    match encoded {
        None => Err(Error::RpcIoError),
        Some(bytes) => Ok((destination, to_wire(count, bytes))),
    }
}

} // verus!
