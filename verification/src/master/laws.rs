//! What holds of the registry whatever is done with it.

use vstd::prelude::*;
use crate::master::subkernel::finished_with;
use crate::master::subkernel::ErrorView;
use crate::master::subkernel::Finishing;
use crate::master::subkernel::FinishStatus;
use crate::master::subkernel::MessageWait;
use crate::master::subkernel::RegistryView;
use crate::master::subkernel::SchedError;
use crate::master::subkernel::SubkernelFinishedView;
use crate::master::subkernel::SubkernelState;
use crate::master::subkernel::SubkernelView;
use crate::master::subkernel::Transition;

verus! {

/// One call that changes the registry, with what the caller hands in.
pub enum Call {
    Upload { id: u32, outcome: Result<(), Seq<char>> },
    Load { id: u32, run: bool, outcome: Result<(), Seq<char>> },
    SubkernelFinished { id: u32, with_exception: bool },
    DestinationChanged { destination: u8, up: bool, uploaded: Seq<u32> },
    RetrieveFinishStatus { lock: Result<(), SchedError>, id: u32 },
    MessageHandleIncoming { lock: Result<(), SchedError>, id: u32, last: bool, frame: Seq<u8> },
    MessagePoll { wait: MessageWait, now: u64, locked: bool },
}

/// The registry after a call.
pub open spec fn after(registry: RegistryView, call: Call) -> RegistryView {
    match call {
        Call::Upload { id, outcome } => registry.upload(id, outcome).0,
        Call::Load { id, run, outcome } => registry.load(id, run, outcome).0,
        Call::SubkernelFinished { id, with_exception } => registry.subkernel_finished(
            id,
            with_exception,
        ),
        Call::DestinationChanged { destination, up, uploaded } => registry.destination_changed(
            destination,
            up,
            uploaded,
        ),
        Call::RetrieveFinishStatus { lock, id } => registry.retrieve_finish_status(lock, id).0,
        Call::MessageHandleIncoming { lock, id, last, frame } => registry.message_handle_incoming(
            lock,
            id,
            last,
            frame,
        ),
        Call::MessagePoll { wait, now, locked } => wait.poll(registry, now, locked).0,
    }
}

/// Whether the caller keeps to what a call asks of the registry: an upload
/// is reported only for a registered subkernel.
pub open spec fn admissible(registry: RegistryView, call: Call) -> bool {
    call matches Call::Upload { id, .. } ==> registry.subkernels.contains_key(id)
}

/// A subkernel that has just been added is in the registry under its id,
/// with its destination and image, and not loaded; the other entries, and
/// all messages, are as they were.
pub proof fn lemma_added_is_not_loaded(registry: RegistryView, id: u32, destination: u8, data: Seq<u8>)
    ensures
        registry.add_subkernel(id, destination, data).subkernels.contains_key(id),
        registry.add_subkernel(id, destination, data).subkernels[id] == (SubkernelView {
            destination,
            data,
            state: SubkernelState::NotLoaded,
        }),
        forall|other: u32|
            other != id ==> registry.add_subkernel(id, destination, data).subkernels.contains_key(
                other,
            ) == registry.subkernels.contains_key(other) && registry.add_subkernel(
                id,
                destination,
                data,
            ).subkernels[other] == registry.subkernels[other],
        registry.add_subkernel(id, destination, data).queue == registry.queue,
        registry.add_subkernel(id, destination, data).current == registry.current,
{
}

/// The edges of the state machine of a subkernel.
pub proof fn lemma_state_machine(state: SubkernelState, status: FinishStatus)
    ensures
        state.next(Transition::Upload) == SubkernelState::Uploaded,
        SubkernelState::Uploaded.next(Transition::Load { run: false }) == SubkernelState::Uploaded,
        SubkernelState::Uploaded.next(Transition::Load { run: true }) == SubkernelState::Running,
        state != SubkernelState::Uploaded ==> state.next(Transition::Load { run: true }) == state,
        state.next(Transition::Finish { with_exception: false }) == (SubkernelState::Finished {
            status: FinishStatus::Success,
        }),
        state.next(Transition::Finish { with_exception: true }) == (SubkernelState::Finished {
            status: FinishStatus::Exception,
        }),
        SubkernelState::Running.next(Transition::DestinationDown) == (SubkernelState::Finished {
            status: FinishStatus::CommLost,
        }),
        state != SubkernelState::Running ==> state.next(Transition::DestinationDown)
            == SubkernelState::NotLoaded,
        state.next(Transition::DestinationUp { uploaded: true }) == SubkernelState::Uploaded,
        state.next(Transition::DestinationUp { uploaded: false }) == state,
        (SubkernelState::Finished { status }).next(Transition::Retrieve)
            == SubkernelState::Uploaded,
        !(state is Finished) ==> state.next(Transition::Retrieve) == state,
{
}

/// No call but adding and clearing changes which subkernels are registered,
/// and none of them changes the destination or the image of one: a subkernel
/// keeps its destination for as long as it is registered. The state of a
/// subkernel changes only along the state machine.
pub proof fn lemma_calls_keep_subkernels(registry: RegistryView, call: Call, id: u32)
    requires
        admissible(registry, call),
        registry.subkernels.contains_key(id),
    ensures
        after(registry, call).subkernels.dom() =~= registry.subkernels.dom(),
        after(registry, call).subkernels[id].destination == registry.subkernels[id].destination,
        after(registry, call).subkernels[id].data == registry.subkernels[id].data,
        after(registry, call).subkernels[id].state == registry.subkernels[id].state || (
        exists|transition: Transition|
            after(registry, call).subkernels[id].state == registry.subkernels[id].state.next(
                transition,
            )),
{
    let now = after(registry, call).subkernels[id].state;
    let was = registry.subkernels[id].state;
    match call {
        Call::Upload { id: target, outcome } => {
            if now != was {
                assert(now == was.next(Transition::Upload));
            }
        },
        Call::Load { id: target, run, outcome } => {
            if now != was {
                assert(now == was.next(Transition::Load { run }));
            }
        },
        Call::SubkernelFinished { id: target, with_exception } => {
            if now != was {
                assert(now == was.next(Transition::Finish { with_exception }));
            }
        },
        Call::DestinationChanged { destination, up, uploaded } => {
            if now != was {
                assert(now == was.next(RegistryView::link_transition(id, up, uploaded)));
            }
        },
        Call::RetrieveFinishStatus { lock, id: target } => {
            if now != was {
                assert(now == was.next(Transition::Retrieve));
            }
        },
        Call::MessageHandleIncoming { .. } => {},
        Call::MessagePoll { .. } => {},
    }
}

/// Taking the status of a run that ended with an exception names the
/// destination that holds the exception and leaves the subkernel uploaded.
/// With the bytes that the transport brings from there, the host is told of
/// exactly that exception, and of no loss of communication. The status can be
/// taken once: a second attempt finds the subkernel in an incorrect state.
pub proof fn lemma_exception_is_retrieved_once(registry: RegistryView, id: u32, bytes: Seq<u8>)
    requires
        registry.state(id) == Some(SubkernelState::Finished { status: FinishStatus::Exception }),
    ensures
        ({
            let (taken, first) = registry.retrieve_finish_status(Ok(()), id);
            let (again, second) = taken.retrieve_finish_status(Ok(()), id);
            &&& first == Ok::<Finishing, ErrorView>(
                Finishing::Exception { id, destination: registry.subkernels[id].destination },
            )
            &&& finished_with(first->Ok_0, Ok(bytes)) == Ok::<SubkernelFinishedView, ErrorView>(
                SubkernelFinishedView { id, comm_lost: false, exception: Some(bytes) },
            )
            &&& taken.state(id) == Some(SubkernelState::Uploaded)
            &&& second == Err::<Finishing, ErrorView>(ErrorView::IncorrectState)
            &&& again == taken
        }),
{
}

/// Once the link to a destination is down, no subkernel of that destination
/// is running; those that were have finished with communication lost.
pub proof fn lemma_link_down_ends_runs(
    registry: RegistryView,
    destination: u8,
    uploaded: Seq<u32>,
    id: u32,
)
    requires
        registry.subkernels.contains_key(id),
        registry.subkernels[id].destination == destination,
    ensures
        ({
            let down = registry.destination_changed(destination, false, uploaded);
            &&& down.subkernels.contains_key(id)
            &&& down.subkernels[id].destination == destination
            &&& down.subkernels[id].state != SubkernelState::Running
            &&& registry.subkernels[id].state == SubkernelState::Running ==> down.subkernels[id].state
                == (SubkernelState::Finished { status: FinishStatus::CommLost })
        }),
{
}

/// When the link to a destination comes up, readiness is never claimed
/// falsely: a subkernel of that destination is uploaded afterwards exactly if
/// its upload succeeded or it was uploaded before, and one whose upload
/// failed stays as it was.
pub proof fn lemma_link_up_claims_no_readiness(
    registry: RegistryView,
    destination: u8,
    uploaded: Seq<u32>,
    id: u32,
)
    requires
        registry.subkernels.contains_key(id),
        registry.subkernels[id].destination == destination,
    ensures
        ({
            let up = registry.destination_changed(destination, true, uploaded);
            &&& up.subkernels[id].state == SubkernelState::Uploaded <==> uploaded.contains(id)
                || registry.subkernels[id].state == SubkernelState::Uploaded
            &&& !uploaded.contains(id) ==> up.subkernels[id] == registry.subkernels[id]
        }),
{
}

/// A change of the link to one destination leaves the subkernels of every
/// other destination as they are.
pub proof fn lemma_link_change_is_local(
    registry: RegistryView,
    destination: u8,
    up: bool,
    uploaded: Seq<u32>,
    id: u32,
)
    requires
        registry.subkernels.contains_key(id),
        registry.subkernels[id].destination != destination,
    ensures
        registry.destination_changed(destination, up, uploaded).subkernels[id]
            == registry.subkernels[id],
{
}

/// In a cleared registry nothing is registered and no message is left,
/// complete or not. To await a message of any id is then an incorrect state,
/// a wait that was begun before finds no message, and a frame or a report of
/// a finished run that still arrives for a cleared id is dropped.
pub proof fn lemma_cleared(id: u32, wait: MessageWait, now: u64, last: bool, frame: Seq<u8>)
    ensures
        ({
            let cleared = RegistryView::empty();
            &&& cleared.state(id) is None
            &&& !cleared.has_message_from(id)
            &&& !cleared.current.contains_key(id)
            &&& cleared.message_await(Ok(()), id) == Err::<(), ErrorView>(
                ErrorView::IncorrectState,
            )
            &&& !(wait.poll(cleared, now, false).1 matches Ok(Some(_)))
            &&& cleared.no_message(Ok(()), id) == ErrorView::IncorrectState
            &&& cleared.message_handle_incoming(Ok(()), id, last, frame) == cleared
            &&& cleared.subkernel_finished(id, last) == cleared
        }),
{
}

/// A message that is taken from the queue is the oldest one from the
/// subkernel that is waited for, and the others keep their order.
pub proof fn lemma_oldest_message_first(registry: RegistryView, wait: MessageWait, now: u64)
    requires
        now <= wait.max_time,
    ensures
        match wait.poll(registry, now, false).1 {
            Ok(Some(message)) => {
                let at = crate::master::subkernel::first_from(registry.queue, wait.id);
                &&& 0 <= at < registry.queue.len()
                &&& message == registry.queue[at]
                &&& message.from_id == wait.id
                &&& forall|j: int| 0 <= j < at ==> registry.queue[j].from_id != wait.id
                &&& wait.poll(registry, now, false).0.queue == registry.queue.remove(at)
            },
            Ok(None) => !registry.has_message_from(wait.id) && registry.finished(wait.id),
            Err(()) => !registry.has_message_from(wait.id) && !registry.finished(wait.id),
        },
{
    lemma_first_from_is_first(registry.queue, wait.id);
}

/// The first message from `id` is from `id`, and none before it is.
pub proof fn lemma_first_from_is_first(queue: Seq<crate::master::subkernel::MessageView>, id: u32)
    ensures
        ({
            let at = crate::master::subkernel::first_from(queue, id);
            &&& 0 <= at <= queue.len()
            &&& at < queue.len() ==> queue[at].from_id == id
            &&& forall|j: int| 0 <= j < at ==> queue[j].from_id != id
        }),
    decreases queue.len(),
{
    if queue.len() > 0 && queue[0].from_id != id {
        let rest = queue.drop_first();
        lemma_first_from_is_first(rest, id);
        let at = crate::master::subkernel::first_from(queue, id);
        assert forall|j: int| 0 <= j < at implies queue[j].from_id != id by {
            if j > 0 {
                assert(queue[j] == rest[j - 1]);
            }
        }
    }
}

} // verus!
