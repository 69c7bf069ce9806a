use subkernel::master::kernel_cpu::check_image;
use subkernel::master::kernel_cpu::load_image;
use subkernel::master::kernel_cpu::start;
use subkernel::master::kernel_cpu::stop;
use subkernel::master::kernel_cpu::validate;
use subkernel::master::kernel_cpu::CpuAction;
use subkernel::master::kernel_cpu::ImageFault;
use subkernel::window::AddressWindow;

const MACHINE: u16 = 243;

fn window() -> AddressWindow {
    AddressWindow { exec_address: 0x4500_0000, last_address: 0x4fff_ffff, header_size: 0x74 }
}

fn put16(image: &mut [u8], at: usize, value: u16) {
    image[at..at + 2].copy_from_slice(&value.to_le_bytes());
}

fn put32(image: &mut [u8], at: usize, value: u32) {
    image[at..at + 4].copy_from_slice(&value.to_le_bytes());
}

/// An executable whose first program header, at offset 52, is a loadable
/// segment of the given placement.
fn image(offset: u32, vaddr: u32, memsz: u32) -> Vec<u8> {
    let mut image = vec![0u8; 0x80];
    image[..8].copy_from_slice(&[0x7f, b'E', b'L', b'F', 1, 1, 1, 0]);
    put16(&mut image, 16, 2);
    put16(&mut image, 18, MACHINE);
    put32(&mut image, 28, 52);
    put32(&mut image, 52, 1);
    put32(&mut image, 52 + 4, offset);
    put32(&mut image, 52 + 8, vaddr);
    put32(&mut image, 52 + 20, memsz);
    image
}

fn good() -> Vec<u8> {
    image(0x74, 0x4500_0000, 0x1000)
}

#[test]
fn well_placed_image_is_loaded() {
    assert_eq!(check_image(&window(), MACHINE, &good()), None);
    assert_eq!(load_image(&window(), MACHINE, &good()), Ok(()));
    assert_eq!(load_image(&window(), MACHINE, &image(0, 0x4500_0000 - 0x74, 0x20)), Ok(()));
}

#[test]
fn load_rejection() {
    let shifted = image(0x74, 0x4500_0004, 0x1000);
    assert_eq!(load_image(&window(), MACHINE, &shifted), Err("unexpected load address/offset"));
    assert_eq!(check_image(&window(), MACHINE, &shifted), Some(ImageFault::Address));
    let below = image(0x4500_0000, 0x74, 0x10);
    assert_eq!(load_image(&window(), MACHINE, &below), Err("unexpected load address/offset"));
}

#[test]
fn short_image_has_no_header() {
    assert_eq!(load_image(&window(), MACHINE, &[]), Err("could not read ELF header"));
    assert_eq!(load_image(&window(), MACHINE, &good()[..51]), Err("could not read ELF header"));
    assert_eq!(check_image(&window(), MACHINE, &good()[..51]), Some(ImageFault::Header));
}

#[test]
fn foreign_images_are_rejected() {
    let message = Err("not an executable for kernel CPU architecture");
    let mut wrong_magic = good();
    wrong_magic[0] = 0x7e;
    assert_eq!(load_image(&window(), MACHINE, &wrong_magic), message);
    let mut class64 = good();
    class64[4] = 2;
    assert_eq!(load_image(&window(), MACHINE, &class64), message);
    let mut big_endian = good();
    big_endian[5] = 2;
    assert_eq!(load_image(&window(), MACHINE, &big_endian), message);
    let mut padded = good();
    padded[15] = 1;
    assert_eq!(load_image(&window(), MACHINE, &padded), message);
    let mut shared_object = good();
    put16(&mut shared_object, 16, 3);
    assert_eq!(load_image(&window(), MACHINE, &shared_object), message);
    assert_eq!(load_image(&window(), 40, &good()), message);
    assert_eq!(check_image(&window(), 40, &good()), Some(ImageFault::Architecture));
}

#[test]
fn program_header_must_be_in_the_image() {
    let mut late = good();
    put32(&mut late, 28, 0x80 - 31);
    assert_eq!(load_image(&window(), MACHINE, &late), Err("could not read program header"));
    let mut far = good();
    put32(&mut far, 28, 0xffff_fff0);
    assert_eq!(load_image(&window(), MACHINE, &far), Err("could not read program header"));
    let mut at_the_end = good();
    put32(&mut at_the_end, 28, 0x80 - 32);
    assert_eq!(
        load_image(&window(), MACHINE, &at_the_end),
        Err("unexpected program header type")
    );
}

#[test]
fn first_segment_must_be_loadable() {
    let mut dynamic = good();
    put32(&mut dynamic, 52, 2);
    assert_eq!(load_image(&window(), MACHINE, &dynamic), Err("unexpected program header type"));
    assert_eq!(check_image(&window(), MACHINE, &dynamic), Some(ImageFault::SegmentType));
}

#[test]
fn segment_must_end_within_the_window() {
    let message = Err("too large for kernel CPU address range");
    let fits = image(0x74, 0x4500_0000, 0x0aff_ffff);
    assert_eq!(load_image(&window(), MACHINE, &fits), Ok(()));
    let over = image(0x74, 0x4500_0000, 0x0b00_0000);
    assert_eq!(load_image(&window(), MACHINE, &over), message);
    let wraps = image(0x74, 0x4500_0000, 0xffff_ffff);
    assert_eq!(load_image(&window(), MACHINE, &wraps), message);
    assert_eq!(check_image(&window(), MACHINE, &wraps), Some(ImageFault::Size));
}

#[test]
fn faults_in_words() {
    assert_eq!(ImageFault::Header.message(), "could not read ELF header");
    assert_eq!(
        ImageFault::Architecture.message(),
        "not an executable for kernel CPU architecture"
    );
    assert_eq!(ImageFault::ProgramHeader.message(), "could not read program header");
    assert_eq!(ImageFault::SegmentType.message(), "unexpected program header type");
    assert_eq!(ImageFault::Size.message(), "too large for kernel CPU address range");
    assert_eq!(ImageFault::Address.message(), "unexpected load address/offset");
}

#[test]
fn start_places_the_image_between_stop_and_release() {
    assert_eq!(
        start(1, &window(), MACHINE, &good()),
        vec![
            CpuAction::HoldReset,
            CpuAction::AcknowledgeMailbox,
            CpuAction::InitRpcQueue,
            CpuAction::CopyImage,
            CpuAction::ReleaseReset,
            CpuAction::InitRpcQueue,
        ]
    );
}

#[test]
fn stop_holds_the_reset_where_there_is_a_cpu() {
    assert_eq!(
        stop(true),
        vec![CpuAction::HoldReset, CpuAction::AcknowledgeMailbox, CpuAction::InitRpcQueue]
    );
    assert_eq!(stop(false), vec![CpuAction::AcknowledgeMailbox, CpuAction::InitRpcQueue]);
}

#[test]
fn pointers_are_valid_within_the_window() {
    assert!(!validate(&window(), 0));
    assert!(!validate(&window(), 0x4500_0000 - 1));
    assert!(validate(&window(), 0x4500_0000));
    assert!(validate(&window(), 0x4800_0000));
    assert!(validate(&window(), 0x4fff_ffff));
    assert!(!validate(&window(), 0x5000_0000));
    assert!(window().validate(0x4500_0000));
}
