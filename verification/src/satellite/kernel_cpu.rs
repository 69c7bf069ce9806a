//! Reset, placement and arbitration of the satellite's kernel CPU, as effects
//! for the driver to carry out.

use vstd::prelude::*;
use crate::window::AddressWindow;

verus! {

/// Who drives the local real-time I/O channel.
#[derive(Debug, Clone, Copy, PartialEq, Eq, Structural)]
pub enum RtioMaster {
    Drtio,
    Kernel,
}

/// Why a message wait of the kernel ended.
#[derive(Debug, Clone, Copy, PartialEq, Eq, Structural)]
pub enum SubkernelStatus {
    NoError,
    Timeout,
}

/// A reply that is sent to the kernel CPU over the mailbox.
#[allow(inconsistent_fields)]
#[derive(Debug, Clone, Copy, PartialEq, Eq, Structural)]
pub enum KernelReply {
    SubkernelMsgRecvReply { status: SubkernelStatus, count: u8 },
    RpcRecvReply { size: usize },
    RtioDestinationStatusReply { up: bool },
    I2cBasicReply { succeeded: bool },
    I2cWriteReply { succeeded: bool, ack: bool },
    I2cReadReply { succeeded: bool, data: u8 },
    SpiBasicReply { succeeded: bool },
    SpiReadReply { succeeded: bool, data: u32 },
}

/// A peripheral operation asked for by the kernel.
#[allow(inconsistent_fields)]
#[derive(Debug, Clone, Copy, PartialEq, Eq, Structural)]
pub enum HwOperation {
    RtioInit,
    I2cStart { busno: u8 },
    I2cRestart { busno: u8 },
    I2cStop { busno: u8 },
    I2cWrite { busno: u8, data: u8 },
    I2cRead { busno: u8, ack: bool },
    I2cSwitchSelect { busno: u8, address: u8, mask: u8 },
    SpiSetConfig { busno: u8, flags: u8, length: u8, div: u8, cs: u8 },
    SpiWrite { busno: u8, data: u32 },
    SpiRead { busno: u8 },
}

/// One effect on the world outside the manager. Effects are handed out in
/// the order in which they are to be carried out.
#[derive(Debug, Clone, Copy, PartialEq, Eq, Structural)]
pub enum Action {
    /// Hold the kernel CPU in reset.
    HoldReset,
    /// Release the kernel CPU from reset.
    ReleaseReset,
    /// Hand the real-time I/O channel to the given master.
    SelectArbiter(RtioMaster),
    /// Acknowledge the request that is in the mailbox.
    AcknowledgeMailbox,
    /// Copy the support image to the placement target of the address window.
    CopySupportImage,
    /// Release whatever the kernel borrowed from the cache.
    UnborrowCache,
    /// Send the kernel CPU the library of the current subkernel to load.
    SendLoadRequest,
    /// Send the kernel CPU a reply and wait until it is taken.
    Send(KernelReply),
    /// Look the requested key up in the cache and send what it holds.
    ServeCacheGet,
    /// Store the requested value in the cache and send whether that worked.
    ServeCachePut,
    /// Carry out a peripheral operation; the reply follows from its outcome.
    Perform(HwOperation),
}

/// Value of the reset line while the kernel CPU is held in reset.
pub const RESET_HELD: u32 = 1;

/// Value of the reset line while the kernel CPU runs.
pub const RESET_RELEASED: u32 = 0;

/// The effects of stopping the kernel CPU.
pub open spec fn stop_actions() -> Seq<Action> {
    seq![Action::HoldReset, Action::SelectArbiter(RtioMaster::Drtio), Action::AcknowledgeMailbox]
}

/// The effects of starting the kernel CPU.
pub open spec fn start_actions() -> Seq<Action> {
    stop_actions() + seq![Action::CopySupportImage, Action::ReleaseReset]
}

/// Appends the effects of stopping the kernel CPU to `actions`.
pub fn push_stop(actions: &mut Vec<Action>)
    ensures
        final(actions)@ == old(actions)@ + stop_actions(),
{
    actions.push(Action::HoldReset);
    actions.push(Action::SelectArbiter(RtioMaster::Drtio));
    actions.push(Action::AcknowledgeMailbox);
    assert(actions@ =~= old(actions)@ + stop_actions());
}

/// Appends the effects of starting the kernel CPU to `actions`.
pub fn push_start(actions: &mut Vec<Action>)
    ensures
        final(actions)@ == old(actions)@ + start_actions(),
{
    push_stop(actions);
    actions.push(Action::CopySupportImage);
    actions.push(Action::ReleaseReset);
    assert(actions@ =~= old(actions)@ + start_actions());
}

/// Starts the kernel CPU: puts it into a known stopped state, places the
/// support image and releases the reset. `reset` is the value read from the
/// reset line; a CPU that is already running must not be started.
pub fn start(reset: u32) -> (actions: Vec<Action>)
    requires
        reset != RESET_RELEASED,
    ensures
        actions@ == start_actions(),
{
    let mut actions: Vec<Action> = Vec::new();
    push_start(&mut actions);
    actions
}

/// Stops the kernel CPU: holds it in reset, returns the real-time I/O channel
/// to the transport and clears the mailbox.
pub fn stop() -> (actions: Vec<Action>)
    ensures
        actions@ == stop_actions(),
{
    let mut actions: Vec<Action> = Vec::new();
    push_stop(&mut actions);
    actions
}

/// Whether a pointer received from the kernel CPU lies in its address window.
pub fn validate(window: &AddressWindow, ptr: usize) -> (valid: bool)
    ensures
        valid == window.contains(ptr),
{
    window.validate(ptr)
}

} // verus!
