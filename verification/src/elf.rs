//! The two headers of a 32-bit little-endian ELF file that image placement
//! reads.

use vstd::prelude::*;

verus! {

/// Size of the identification at the start of the file header.
pub const EI_NIDENT: usize = 16;

/// Size of the file header.
pub const EHDR_SIZE: usize = 52;

/// Size of a program header.
pub const PHDR_SIZE: usize = 32;

/// File type of an executable.
pub const ET_EXEC: u16 = 2;

/// Program header type of a loadable segment.
pub const PT_LOAD: u32 = 1;

/// The file header, as far as placement reads it.
#[derive(Debug, Clone, Copy, PartialEq, Eq)]
pub struct ElfHeader {
    pub e_ident: [u8; 16],
    pub e_type: u16,
    pub e_machine: u16,
    pub e_phoff: u32,
}

/// A program header, as far as placement reads it.
#[derive(Debug, Clone, Copy, PartialEq, Eq, Structural)]
pub struct ProgramHeader {
    pub p_type: u32,
    pub p_offset: u32,
    pub p_vaddr: u32,
    pub p_memsz: u32,
}

/// The identification of a 32-bit little-endian file of the current version
/// with no ABI extensions: magic number, class, data encoding, version, and
/// zeros up to its end.
pub open spec fn standard_ident() -> Seq<u8> {
    seq![0x7fu8, 0x45u8, 0x4cu8, 0x46u8, 1u8, 1u8, 1u8, 0u8, 0u8, 0u8, 0u8, 0u8, 0u8, 0u8, 0u8, 0u8]
}

/// The 16-bit little-endian number at `at`.
pub open spec fn le16(s: Seq<u8>, at: int) -> u16 {
    (s[at] + 256 * s[at + 1]) as u16
}

/// The 32-bit little-endian number at `at`.
pub open spec fn le32(s: Seq<u8>, at: int) -> u32 {
    (s[at] + 256 * s[at + 1] + 65536 * s[at + 2] + 16777216 * s[at + 3]) as u32
}

/// The file header of an image: there is one if the image is long enough to
/// hold it.
pub open spec fn header_of(image: Seq<u8>) -> Option<(Seq<u8>, u16, u16, u32)> {
    if image.len() < EHDR_SIZE {
        None
    } else {
        Some((image.subrange(0, 16), le16(image, 16), le16(image, 18), le32(image, 28)))
    }
}

/// The program header at `offset` of an image: there is one if the image is
/// long enough to hold it.
pub open spec fn program_header_of(image: Seq<u8>, offset: int) -> Option<ProgramHeader> {
    if image.len() < offset + PHDR_SIZE {
        None
    } else {
        Some(
            ProgramHeader {
                p_type: le32(image, offset),
                p_offset: le32(image, offset + 4),
                p_vaddr: le32(image, offset + 8),
                p_memsz: le32(image, offset + 20),
            },
        )
    }
}

impl ElfHeader {
    /// What was read of the header, as plain values.
    pub open spec fn fields(self) -> (Seq<u8>, u16, u16, u32) {
        (self.e_ident@, self.e_type, self.e_machine, self.e_phoff)
    }

    /// Whether the header is that of a file of the standard identification,
    /// of the given type, for the given machine.
    pub open spec fn fits(self, e_type: u16, machine: u16) -> bool {
        self.e_ident@ == standard_ident() && self.e_type == e_type && self.e_machine == machine
    }
}

fn read_u16(image: &[u8], at: usize) -> (value: u16)
    requires
        at + 2 <= image@.len(),
    ensures
        value == le16(image@, at as int),
{
    let low: u16 = image[at] as u16;
    let high: u16 = image[at + 1] as u16;
    low + 256 * high
}

fn read_u32(image: &[u8], at: usize) -> (value: u32)
    requires
        at + 4 <= image@.len(),
    ensures
        value == le32(image@, at as int),
{
    let b0: u32 = image[at] as u32;
    let b1: u32 = image[at + 1] as u32;
    let b2: u32 = image[at + 2] as u32;
    let b3: u32 = image[at + 3] as u32;
    b0 + 256 * b1 + 65536 * b2 + 16777216 * b3
}

/// Reads the file header of an image.
pub fn read_header(image: &[u8]) -> (header: Option<ElfHeader>)
    ensures
        match header {
            Some(h) => header_of(image@) == Some(h.fields()),
            None => header_of(image@) is None,
        },
{
    if image.len() < EHDR_SIZE {
        return None;
    }
    let mut e_ident: [u8; 16] = [0u8; 16];
    let mut i: usize = 0;
    while i < 16
        invariant
            i <= 16,
            image@.len() >= 52,
            forall|j: int| 0 <= j < i ==> e_ident@[j] == image@[j],
        decreases 16 - i,
    {
        e_ident[i] = image[i];
        i += 1;
    }
    assert(e_ident@ =~= image@.subrange(0, 16));
    Some(
        ElfHeader {
            e_ident,
            e_type: read_u16(image, 16),
            e_machine: read_u16(image, 18),
            e_phoff: read_u32(image, 28),
        },
    )
}

/// Reads the program header at `offset` of an image.
pub fn read_program_header(image: &[u8], offset: u32) -> (header: Option<ProgramHeader>)
    ensures
        header == program_header_of(image@, offset as int),
{
    let len: u64 = image.len() as u64;
    if len < offset as u64 + PHDR_SIZE as u64 {
        return None;
    }
    let at: usize = offset as usize;
    Some(
        ProgramHeader {
            p_type: read_u32(image, at),
            p_offset: read_u32(image, at + 4),
            p_vaddr: read_u32(image, at + 8),
            p_memsz: read_u32(image, at + 20),
        },
    )
}

/// Whether a file header is that of a file of the standard identification, of
/// the given type, for the given machine.
pub fn is_elf_for_machine(header: &ElfHeader, e_type: u16, machine: u16) -> (b: bool)
    ensures
        b == header.fits(e_type, machine),
{
    let ident = &header.e_ident;
    let magic = ident[0] == 0x7f && ident[1] == 0x45 && ident[2] == 0x4c && ident[3] == 0x46;
    let kind = ident[4] == 1 && ident[5] == 1 && ident[6] == 1 && ident[7] == 0;
    let padding = ident[8] == 0 && ident[9] == 0 && ident[10] == 0 && ident[11] == 0 && ident[12]
        == 0 && ident[13] == 0 && ident[14] == 0 && ident[15] == 0;
    proof {
        if magic && kind && padding {
            assert(header.e_ident@ =~= standard_ident());
        }
    }
    magic && kind && padding && header.e_type == e_type && header.e_machine == machine
}

} // verus!
