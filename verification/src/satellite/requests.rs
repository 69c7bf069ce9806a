//! What the kernel CPU asks for over the mailbox, and how peripheral requests
//! are answered.

use vstd::prelude::*;
use crate::satellite::error::Error;
use crate::satellite::error::ErrorView;
use crate::satellite::error::result_view;
use crate::satellite::kernel_cpu::Action;
use crate::satellite::kernel_cpu::HwOperation;
use crate::satellite::kernel_cpu::KernelReply;
use crate::satellite::sliceable::Sliceable;
use crate::satellite::sliceable::SliceableView;
use crate::window::AddressWindow;

verus! {

/// A message of the kernel CPU, reduced to what the manager reads of it.
///
/// Text is handed in as it is to be logged. An exception and the arguments of
/// an outgoing message are handed in encoded, or as `None` where encoding
/// them failed.
#[allow(inconsistent_fields)]
#[derive(Debug)]
pub enum KernelRequest {
    LoadReply { error: Option<String> },
    Log { text: String },
    LogSlice { text: String },
    RpcFlush,
    CacheGetRequest,
    CachePutRequest,
    RunFinished,
    RunException { encoded: Option<Vec<u8>> },
    SubkernelMsgSend { count: u8, encoded: Option<Vec<u8>> },
    SubkernelMsgRecvRequest { timeout: u64 },
    RpcRecvRequest,
    RtioInitRequest,
    RtioDestinationStatusRequest { destination: u8 },
    I2cStartRequest { busno: u32 },
    I2cRestartRequest { busno: u32 },
    I2cStopRequest { busno: u32 },
    I2cWriteRequest { busno: u32, data: u8 },
    I2cReadRequest { busno: u32, ack: bool },
    I2cSwitchSelectRequest { busno: u32, address: u8, mask: u8 },
    SpiSetConfigRequest { busno: u32, flags: u8, length: u8, div: u8, cs: u8 },
    SpiWriteRequest { busno: u32, data: u32 },
    SpiReadRequest { busno: u32 },
    /// Any message that the manager has no use for.
    Other,
}

/// How a peripheral operation ended.
#[derive(Debug, Clone, Copy, PartialEq, Eq, Structural)]
pub enum HwOutcome {
    /// The driver reported an error.
    Failed,
    /// Done, with nothing to report.
    Done,
    /// An I2C write is done; the device did or did not acknowledge.
    Acknowledged(bool),
    /// An I2C read is done and gave this byte.
    Byte(u8),
    /// An SPI read is done and gave this word.
    Word(u32),
}

/// The bus number as the drivers take it: its low eight bits.
pub open spec fn bus(busno: u32) -> u8 {
    (busno % 256) as u8
}

/// What is to be done about a request if it is a peripheral request:
/// nothing, for any other request; a reply at once, where no peripheral is
/// involved; else the operation to carry out. Only the local destination is
/// reported as up.
pub open spec fn hwreq_action(request: KernelRequest, rank: u8) -> Option<Action> {
    match request {
        KernelRequest::RtioInitRequest => Some(Action::Perform(HwOperation::RtioInit)),
        KernelRequest::RtioDestinationStatusRequest { destination } => Some(
            Action::Send(KernelReply::RtioDestinationStatusReply { up: destination == rank }),
        ),
        KernelRequest::I2cStartRequest { busno } => Some(
            Action::Perform(HwOperation::I2cStart { busno: bus(busno) }),
        ),
        KernelRequest::I2cRestartRequest { busno } => Some(
            Action::Perform(HwOperation::I2cRestart { busno: bus(busno) }),
        ),
        KernelRequest::I2cStopRequest { busno } => Some(
            Action::Perform(HwOperation::I2cStop { busno: bus(busno) }),
        ),
        KernelRequest::I2cWriteRequest { busno, data } => Some(
            Action::Perform(HwOperation::I2cWrite { busno: bus(busno), data }),
        ),
        KernelRequest::I2cReadRequest { busno, ack } => Some(
            Action::Perform(HwOperation::I2cRead { busno: bus(busno), ack }),
        ),
        KernelRequest::I2cSwitchSelectRequest { busno, address, mask } => Some(
            Action::Perform(HwOperation::I2cSwitchSelect { busno: bus(busno), address, mask }),
        ),
        KernelRequest::SpiSetConfigRequest { busno, flags, length, div, cs } => Some(
            Action::Perform(
                HwOperation::SpiSetConfig { busno: bus(busno), flags, length, div, cs },
            ),
        ),
        KernelRequest::SpiWriteRequest { busno, data } => Some(
            Action::Perform(HwOperation::SpiWrite { busno: bus(busno), data }),
        ),
        KernelRequest::SpiReadRequest { busno } => Some(
            Action::Perform(HwOperation::SpiRead { busno: bus(busno) }),
        ),
        _ => None,
    }
}

/// Whether an outcome is one that the operation can have.
pub open spec fn outcome_fits(operation: HwOperation, outcome: HwOutcome) -> bool {
    match operation {
        HwOperation::RtioInit => outcome is Done,
        HwOperation::I2cWrite { .. } => outcome is Failed || outcome is Acknowledged,
        HwOperation::I2cRead { .. } => outcome is Failed || outcome is Byte,
        HwOperation::SpiRead { .. } => outcome is Failed || outcome is Word,
        _ => outcome is Failed || outcome is Done,
    }
}

/// How the kernel is answered once a peripheral operation has ended. Every
/// failure collapses to "not succeeded" with a neutral value beside it.
pub open spec fn hwreq_answer(operation: HwOperation, outcome: HwOutcome) -> Action {
    match operation {
        HwOperation::RtioInit => Action::AcknowledgeMailbox,
        HwOperation::I2cStart { .. }
        | HwOperation::I2cRestart { .. }
        | HwOperation::I2cStop { .. }
        | HwOperation::I2cSwitchSelect { .. } => Action::Send(
            KernelReply::I2cBasicReply { succeeded: outcome is Done },
        ),
        HwOperation::I2cWrite { .. } => match outcome {
            HwOutcome::Acknowledged(ack) => Action::Send(
                KernelReply::I2cWriteReply { succeeded: true, ack },
            ),
            _ => Action::Send(KernelReply::I2cWriteReply { succeeded: false, ack: false }),
        },
        HwOperation::I2cRead { .. } => match outcome {
            HwOutcome::Byte(data) => Action::Send(
                KernelReply::I2cReadReply { succeeded: true, data },
            ),
            _ => Action::Send(KernelReply::I2cReadReply { succeeded: false, data: 0xff }),
        },
        HwOperation::SpiSetConfig { .. } | HwOperation::SpiWrite { .. } => Action::Send(
            KernelReply::SpiBasicReply { succeeded: outcome is Done },
        ),
        HwOperation::SpiRead { .. } => match outcome {
            HwOutcome::Word(data) => Action::Send(
                KernelReply::SpiReadReply { succeeded: true, data },
            ),
            _ => Action::Send(KernelReply::SpiReadReply { succeeded: false, data: 0 }),
        },
    }
}

fn bus_of(busno: u32) -> (b: u8)
    ensures
        b == bus(busno),
{
    (busno % 256) as u8
}

/// Decides what is to be done about a request if it is a peripheral request.
/// `None` says that it is not one, and that dispatch goes on.
pub fn process_kern_hwreq(request: &KernelRequest, rank: u8) -> (action: Option<Action>)
    ensures
        action == hwreq_action(*request, rank),
{
    match request {
        KernelRequest::RtioInitRequest => Some(Action::Perform(HwOperation::RtioInit)),
        KernelRequest::RtioDestinationStatusRequest { destination } => Some(
            Action::Send(KernelReply::RtioDestinationStatusReply { up: *destination == rank }),
        ),
        KernelRequest::I2cStartRequest { busno } => Some(
            Action::Perform(HwOperation::I2cStart { busno: bus_of(*busno) }),
        ),
        KernelRequest::I2cRestartRequest { busno } => Some(
            Action::Perform(HwOperation::I2cRestart { busno: bus_of(*busno) }),
        ),
        KernelRequest::I2cStopRequest { busno } => Some(
            Action::Perform(HwOperation::I2cStop { busno: bus_of(*busno) }),
        ),
        KernelRequest::I2cWriteRequest { busno, data } => Some(
            Action::Perform(HwOperation::I2cWrite { busno: bus_of(*busno), data: *data }),
        ),
        KernelRequest::I2cReadRequest { busno, ack } => Some(
            Action::Perform(HwOperation::I2cRead { busno: bus_of(*busno), ack: *ack }),
        ),
        KernelRequest::I2cSwitchSelectRequest { busno, address, mask } => Some(
            Action::Perform(
                HwOperation::I2cSwitchSelect {
                    busno: bus_of(*busno),
                    address: *address,
                    mask: *mask,
                },
            ),
        ),
        KernelRequest::SpiSetConfigRequest { busno, flags, length, div, cs } => Some(
            Action::Perform(
                HwOperation::SpiSetConfig {
                    busno: bus_of(*busno),
                    flags: *flags,
                    length: *length,
                    div: *div,
                    cs: *cs,
                },
            ),
        ),
        KernelRequest::SpiWriteRequest { busno, data } => Some(
            Action::Perform(HwOperation::SpiWrite { busno: bus_of(*busno), data: *data }),
        ),
        KernelRequest::SpiReadRequest { busno } => Some(
            Action::Perform(HwOperation::SpiRead { busno: bus_of(*busno) }),
        ),
        _ => None,
    }
}

/// Decides how the kernel is answered once a peripheral operation has ended.
pub fn hwreq_reply(operation: HwOperation, outcome: HwOutcome) -> (action: Action)
    requires
        outcome_fits(operation, outcome),
    ensures
        action == hwreq_answer(operation, outcome),
{
    let done = match outcome {
        HwOutcome::Done => true,
        _ => false,
    };
    match operation {
        HwOperation::RtioInit => Action::AcknowledgeMailbox,
        HwOperation::I2cStart { .. }
        | HwOperation::I2cRestart { .. }
        | HwOperation::I2cStop { .. }
        | HwOperation::I2cSwitchSelect { .. } => Action::Send(
            KernelReply::I2cBasicReply { succeeded: done },
        ),
        HwOperation::I2cWrite { .. } => match outcome {
            HwOutcome::Acknowledged(ack) => Action::Send(
                KernelReply::I2cWriteReply { succeeded: true, ack },
            ),
            _ => Action::Send(KernelReply::I2cWriteReply { succeeded: false, ack: false }),
        },
        HwOperation::I2cRead { .. } => match outcome {
            HwOutcome::Byte(data) => Action::Send(
                KernelReply::I2cReadReply { succeeded: true, data },
            ),
            _ => Action::Send(KernelReply::I2cReadReply { succeeded: false, data: 0xff }),
        },
        HwOperation::SpiSetConfig { .. } | HwOperation::SpiWrite { .. } => Action::Send(
            KernelReply::SpiBasicReply { succeeded: done },
        ),
        HwOperation::SpiRead { .. } => match outcome {
            HwOutcome::Word(data) => Action::Send(
                KernelReply::SpiReadReply { succeeded: true, data },
            ),
            _ => Action::Send(KernelReply::SpiReadReply { succeeded: false, data: 0 }),
        },
    }
}

/// What a look into the mailbox gives: no message where the slot holds zero,
/// an invalid pointer where it holds an address outside the kernel CPU's
/// window, else the address of the request to read.
pub open spec fn received(window: AddressWindow, mailbox: usize) -> Result<usize, ErrorView> {
    if mailbox == 0 {
        Err(ErrorView::NoMessage)
    } else if !window.contains(mailbox) {
        Err(ErrorView::InvalidPointer(mailbox))
    } else {
        Ok(mailbox)
    }
}

/// Judges the value read from the mailbox.
pub fn kern_recv(window: &AddressWindow, mailbox: usize) -> (r: Result<usize, Error>)
    ensures
        result_view(r) == received(*window, mailbox),
{
    if mailbox == 0 {
        return Err(Error::NoMessage);
    }
    if !window.validate(mailbox) {
        return Err(Error::InvalidPointer(mailbox));
    }
    Ok(mailbox)
}

/// A wait for a request of the kernel CPU that gives up at a deadline.
#[derive(Debug, Clone, Copy, PartialEq, Eq, Structural)]
pub struct RecvWait {
    pub max_time: u64,
}

impl RecvWait {
    /// What one poll of the wait gives at time `now` with `mailbox` read from
    /// the slot: `None` to poll again, else the result of the wait. The wait
    /// is over, with no message, once `now` has reached the deadline; before
    /// that, an empty slot means to poll again.
    pub open spec fn polled(self, window: AddressWindow, now: u64, mailbox: usize) -> Option<
        Result<usize, ErrorView>,
    > {
        if now >= self.max_time {
            Some(Err(ErrorView::NoMessage))
        } else if mailbox == 0 {
            None
        } else {
            Some(received(window, mailbox))
        }
    }

    /// Polls the wait once.
    pub fn poll(&self, window: &AddressWindow, now: u64, mailbox: usize) -> (r: Option<
        Result<usize, Error>,
    >)
        ensures
            match r {
                Some(result) => self.polled(*window, now, mailbox) == Some(result_view(result)),
                None => self.polled(*window, now, mailbox) is None,
            },
    {
        if now >= self.max_time {
            return Some(Err(Error::NoMessage));
        }
        match kern_recv(window, mailbox) {
            Err(Error::NoMessage) => None,
            other => Some(other),
        }
    }
}

/// Begins a wait of `timeout` milliseconds for a request of the kernel CPU,
/// which may be slow to respond.
pub fn kern_recv_w_timeout(now: u64, timeout: u64) -> (wait: RecvWait)
    requires
        now + timeout <= u64::MAX,
    ensures
        wait.max_time == now + timeout,
{
    RecvWait { max_time: now + timeout }
}

/// A result that carries a sliceable, both sides by their views.
pub open spec fn sliceable_view(r: Result<Sliceable, Error>) -> Result<SliceableView, ErrorView> {
    match r {
        Ok(s) => Ok(s@),
        Err(e) => Err(e@),
    }
}

/// Wraps an exception of the kernel for the master, which passes it on to the
/// host. `encoded` is the exception in the form the host reads, or `None`
/// where writing it failed.
pub fn slice_kernel_exception(encoded: Option<Vec<u8>>) -> (r: Result<Sliceable, Error>)
    ensures
        sliceable_view(r) == match encoded {
            Some(bytes) => Ok::<SliceableView, ErrorView>(
                SliceableView { cursor: 0, data: bytes@ },
            ),
            None => Err(ErrorView::SubkernelIoError),
        },
{
    match encoded {
        Some(bytes) => Ok(Sliceable::new(bytes)),
        None => Err(Error::SubkernelIoError),
    }
}

} // verus!
