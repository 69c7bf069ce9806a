//! Reset and image placement of the master's own kernel CPU, as effects for
//! the driver to carry out.

use vstd::prelude::*;
use crate::elf::header_of;
use crate::elf::is_elf_for_machine;
use crate::elf::program_header_of;
use crate::elf::read_header;
use crate::elf::read_program_header;
use crate::elf::standard_ident;
use crate::elf::ET_EXEC;
use crate::elf::PT_LOAD;
use crate::window::AddressWindow;

verus! {

/// One effect on the kernel CPU and its mailbox. Effects are handed out in
/// the order in which they are to be carried out.
#[derive(Debug, Clone, Copy, PartialEq, Eq, Structural)]
pub enum CpuAction {
    /// Hold the kernel CPU in reset.
    HoldReset,
    /// Release the kernel CPU from reset.
    ReleaseReset,
    /// Acknowledge whatever is in the mailbox.
    AcknowledgeMailbox,
    /// Empty the queue of asynchronous calls.
    InitRpcQueue,
    /// Copy the whole image file to the placement target of the address
    /// window.
    CopyImage,
}

/// Why an image is not placed.
#[derive(Debug, Clone, Copy, PartialEq, Eq, Structural)]
pub enum ImageFault {
    Header,
    Architecture,
    ProgramHeader,
    SegmentType,
    Size,
    Address,
}

impl ImageFault {
    pub open spec fn text(self) -> &'static str {
        match self {
            ImageFault::Header => "could not read ELF header",
            ImageFault::Architecture => "not an executable for kernel CPU architecture",
            ImageFault::ProgramHeader => "could not read program header",
            ImageFault::SegmentType => "unexpected program header type",
            ImageFault::Size => "too large for kernel CPU address range",
            ImageFault::Address => "unexpected load address/offset",
        }
    }

    /// The fault in words.
    pub fn message(self) -> (text: &'static str)
        ensures
            text == self.text(),
    {
        match self {
            ImageFault::Header => "could not read ELF header",
            ImageFault::Architecture => "not an executable for kernel CPU architecture",
            ImageFault::ProgramHeader => "could not read program header",
            ImageFault::SegmentType => "unexpected program header type",
            ImageFault::Size => "too large for kernel CPU address range",
            ImageFault::Address => "unexpected load address/offset",
        }
    }
}

/// Value of the reset line while the kernel CPU is held in reset.
pub const RESET_HELD: u32 = 1;

/// Value of the reset line while the kernel CPU runs.
pub const RESET_RELEASED: u32 = 0;

/// The first reason, if any, not to place an image. An image is placed if it
/// is an executable for the kernel CPU's machine whose first program header
/// is a loadable segment that ends within the address window and whose
/// addresses are those of the file shifted to the placement target.
pub open spec fn image_fault(window: AddressWindow, machine: u16, image: Seq<u8>) -> Option<
    ImageFault,
> {
    match header_of(image) {
        None => Some(ImageFault::Header),
        Some((ident, e_type, e_machine, e_phoff)) => {
            if !(ident == standard_ident() && e_type == ET_EXEC && e_machine == machine) {
                Some(ImageFault::Architecture)
            } else {
                match program_header_of(image, e_phoff as int) {
                    None => Some(ImageFault::ProgramHeader),
                    Some(segment) => {
                        if segment.p_type != PT_LOAD {
                            Some(ImageFault::SegmentType)
                        } else if segment.p_vaddr + segment.p_memsz > window.last_address {
                            Some(ImageFault::Size)
                        } else if segment.p_vaddr - segment.p_offset != window.target() {
                            Some(ImageFault::Address)
                        } else {
                            None
                        }
                    },
                }
            }
        },
    }
}

/// The effects of stopping the kernel CPU.
pub open spec fn stop_actions(has_kernel_cpu: bool) -> Seq<CpuAction> {
    if has_kernel_cpu {
        seq![CpuAction::HoldReset, CpuAction::AcknowledgeMailbox, CpuAction::InitRpcQueue]
    } else {
        seq![CpuAction::AcknowledgeMailbox, CpuAction::InitRpcQueue]
    }
}

/// The effects of starting the kernel CPU.
pub open spec fn start_actions() -> Seq<CpuAction> {
    stop_actions(true) + seq![
        CpuAction::CopyImage,
        CpuAction::ReleaseReset,
        CpuAction::InitRpcQueue,
    ]
}

/// Finds the first reason, if any, not to place an image.
pub fn check_image(window: &AddressWindow, machine: u16, image: &[u8]) -> (fault: Option<
    ImageFault,
>)
    ensures
        fault == image_fault(*window, machine, image@),
{
    let header = match read_header(image) {
        Some(header) => header,
        None => {
            return Some(ImageFault::Header);
        },
    };
    if !is_elf_for_machine(&header, ET_EXEC, machine) {
        return Some(ImageFault::Architecture);
    }
    let segment = match read_program_header(image, header.e_phoff) {
        Some(segment) => segment,
        None => {
            return Some(ImageFault::ProgramHeader);
        },
    };
    if segment.p_type != PT_LOAD {
        return Some(ImageFault::SegmentType);
    }
    if segment.p_vaddr as u64 + segment.p_memsz as u64 > window.last_address as u64 {
        return Some(ImageFault::Size);
    }
    let target: i128 = window.exec_address as i128 - window.header_size as i128;
    if segment.p_vaddr as i128 - segment.p_offset as i128 != target {
        return Some(ImageFault::Address);
    }
    None
}

/// Decides whether an image is loaded for execution on the kernel CPU.
///
/// On success the driver copies the entire image, headers included, to the
/// placement target, so that the text comes to lie at the execution address
/// and the headers stay in memory for the unwinder. On an error nothing is
/// to be written.
pub fn load_image(window: &AddressWindow, machine: u16, image: &[u8]) -> (r: Result<
    (),
    &'static str,
>)
    ensures
        r == match image_fault(*window, machine, image@) {
            None => Ok::<(), &'static str>(()),
            Some(fault) => Err(fault.text()),
        },
{
    match check_image(window, machine, image) {
        None => Ok(()),
        Some(fault) => Err(fault.message()),
    }
}

/// Starts the kernel CPU with the given support image: puts it into a known
/// stopped state, places the image, releases the reset and empties the queue
/// of asynchronous calls. `reset` is the value read from the reset line; a
/// CPU that is already running must not be started, nor one whose image is
/// not fit to be placed.
pub fn start(reset: u32, window: &AddressWindow, machine: u16, image: &[u8]) -> (actions: Vec<
    CpuAction,
>)
    requires
        reset != RESET_RELEASED,
        image_fault(*window, machine, image@) is None,
    ensures
        actions@ == start_actions(),
{
    let mut actions = stop(true);
    actions.push(CpuAction::CopyImage);
    actions.push(CpuAction::ReleaseReset);
    actions.push(CpuAction::InitRpcQueue);
    assert(actions@ =~= start_actions());
    actions
}

/// Stops the kernel CPU, where there is one, and clears the mailbox and the
/// queue of asynchronous calls.
pub fn stop(has_kernel_cpu: bool) -> (actions: Vec<CpuAction>)
    ensures
        actions@ == stop_actions(has_kernel_cpu),
{
    let mut actions: Vec<CpuAction> = Vec::new();
    if has_kernel_cpu {
        actions.push(CpuAction::HoldReset);
    }
    actions.push(CpuAction::AcknowledgeMailbox);
    actions.push(CpuAction::InitRpcQueue);
    assert(actions@ =~= stop_actions(has_kernel_cpu));
    actions
}

/// Whether a pointer received from the kernel CPU lies in its address window.
pub fn validate(window: &AddressWindow, ptr: usize) -> (valid: bool)
    ensures
        valid == window.contains(ptr),
{
    window.validate(ptr)
}

/// Every image that is placed is an executable, its first program header is
/// a loadable segment, the segment ends within the address window, and its
/// addresses are those of the file shifted to the placement target. An image
/// that misses any of these is rejected.
pub proof fn lemma_placed_images(window: AddressWindow, machine: u16, image: Seq<u8>)
    ensures
        image_fault(window, machine, image) is None <==> {
            &&& header_of(image) matches Some((ident, e_type, e_machine, e_phoff))
            &&& ident == standard_ident()
            &&& e_type == ET_EXEC
            &&& e_machine == machine
            &&& program_header_of(image, e_phoff as int) matches Some(segment)
            &&& segment.p_type == PT_LOAD
            &&& segment.p_vaddr + segment.p_memsz <= window.last_address
            &&& segment.p_vaddr - segment.p_offset == window.exec_address - window.header_size
        },
{
}

} // verus!
