use subkernel::satellite::error::Error;
use subkernel::satellite::kernel_cpu::start;
use subkernel::satellite::kernel_cpu::stop;
use subkernel::satellite::kernel_cpu::validate;
use subkernel::satellite::kernel_cpu::Action;
use subkernel::satellite::kernel_cpu::HwOperation;
use subkernel::satellite::kernel_cpu::KernelReply;
use subkernel::satellite::kernel_cpu::RtioMaster;
use subkernel::satellite::requests::hwreq_reply;
use subkernel::satellite::requests::kern_recv;
use subkernel::satellite::requests::kern_recv_w_timeout;
use subkernel::satellite::requests::process_kern_hwreq;
use subkernel::satellite::requests::slice_kernel_exception;
use subkernel::satellite::requests::HwOutcome;
use subkernel::satellite::requests::KernelRequest;
use subkernel::satellite::requests::RecvWait;
use subkernel::satellite::sliceable::SliceMeta;
use subkernel::window::AddressWindow;

fn window() -> AddressWindow {
    AddressWindow { exec_address: 0x100, last_address: 0x1ff, header_size: 0x10 }
}

#[test]
fn kernel_cpu_is_stopped_before_it_is_started() {
    assert_eq!(
        stop(),
        vec![Action::HoldReset, Action::SelectArbiter(RtioMaster::Drtio), Action::AcknowledgeMailbox]
    );
    assert_eq!(
        start(1),
        vec![
            Action::HoldReset,
            Action::SelectArbiter(RtioMaster::Drtio),
            Action::AcknowledgeMailbox,
            Action::CopySupportImage,
            Action::ReleaseReset,
        ]
    );
}

#[test]
fn satellite_pointers_are_valid_within_the_window() {
    assert!(!validate(&window(), 0xff));
    assert!(validate(&window(), 0x100));
    assert!(validate(&window(), 0x1ff));
    assert!(!validate(&window(), 0x200));
}

#[test]
fn mailbox_value_is_judged() {
    assert!(matches!(kern_recv(&window(), 0), Err(Error::NoMessage)));
    assert!(matches!(kern_recv(&window(), 0xff), Err(Error::InvalidPointer(0xff))));
    assert!(matches!(kern_recv(&window(), 0x200), Err(Error::InvalidPointer(0x200))));
    assert!(matches!(kern_recv(&window(), 0x100), Ok(0x100)));
    assert!(matches!(kern_recv(&window(), 0x1ff), Ok(0x1ff)));
}

#[test]
fn wait_for_a_request_gives_up_at_the_deadline() {
    let wait = kern_recv_w_timeout(1000, 100);
    assert_eq!(wait, RecvWait { max_time: 1100 });
    assert!(wait.poll(&window(), 1000, 0).is_none());
    assert!(wait.poll(&window(), 1099, 0).is_none());
    assert!(matches!(wait.poll(&window(), 1099, 0x180), Some(Ok(0x180))));
    assert!(matches!(wait.poll(&window(), 1099, 0x80), Some(Err(Error::InvalidPointer(0x80)))));
    assert!(matches!(wait.poll(&window(), 1100, 0), Some(Err(Error::NoMessage))));
    assert!(matches!(wait.poll(&window(), 1100, 0x180), Some(Err(Error::NoMessage))));
    assert!(matches!(wait.poll(&window(), 2000, 0x80), Some(Err(Error::NoMessage))));
}

#[test]
fn kernel_exception_is_wrapped() {
    let mut exception = slice_kernel_exception(Some(vec![1, 2, 3])).unwrap();
    let mut buf = [0u8; 8];
    assert_eq!(exception.get_slice(&mut buf), SliceMeta { len: 3, last: true });
    assert_eq!(&buf[..3], &[1, 2, 3]);
    assert!(matches!(slice_kernel_exception(None), Err(Error::SubkernelIoError)));
}

#[test]
fn peripheral_requests_name_their_operation() {
    let cases = [
        (KernelRequest::RtioInitRequest, HwOperation::RtioInit),
        (KernelRequest::I2cStartRequest { busno: 2 }, HwOperation::I2cStart { busno: 2 }),
        (KernelRequest::I2cRestartRequest { busno: 3 }, HwOperation::I2cRestart { busno: 3 }),
        (KernelRequest::I2cStopRequest { busno: 256 }, HwOperation::I2cStop { busno: 0 }),
        (
            KernelRequest::I2cWriteRequest { busno: 0x1ff, data: 9 },
            HwOperation::I2cWrite { busno: 0xff, data: 9 },
        ),
        (
            KernelRequest::I2cReadRequest { busno: 1, ack: true },
            HwOperation::I2cRead { busno: 1, ack: true },
        ),
        (
            KernelRequest::I2cSwitchSelectRequest { busno: 1, address: 0x70, mask: 4 },
            HwOperation::I2cSwitchSelect { busno: 1, address: 0x70, mask: 4 },
        ),
        (
            KernelRequest::SpiSetConfigRequest { busno: 1, flags: 2, length: 8, div: 4, cs: 1 },
            HwOperation::SpiSetConfig { busno: 1, flags: 2, length: 8, div: 4, cs: 1 },
        ),
        (
            KernelRequest::SpiWriteRequest { busno: u32::MAX, data: 0xdead_beef },
            HwOperation::SpiWrite { busno: 255, data: 0xdead_beef },
        ),
        (KernelRequest::SpiReadRequest { busno: 0 }, HwOperation::SpiRead { busno: 0 }),
    ];
    for (request, operation) in cases {
        assert_eq!(process_kern_hwreq(&request, 0), Some(Action::Perform(operation)));
    }
}

#[test]
fn only_the_local_destination_is_up() {
    let request = KernelRequest::RtioDestinationStatusRequest { destination: 4 };
    assert_eq!(
        process_kern_hwreq(&request, 4),
        Some(Action::Send(KernelReply::RtioDestinationStatusReply { up: true }))
    );
    assert_eq!(
        process_kern_hwreq(&request, 0),
        Some(Action::Send(KernelReply::RtioDestinationStatusReply { up: false }))
    );
}

#[test]
fn other_requests_are_no_peripheral_requests() {
    for request in [
        KernelRequest::RunFinished,
        KernelRequest::RpcFlush,
        KernelRequest::CacheGetRequest,
        KernelRequest::LoadReply { error: None },
        KernelRequest::SubkernelMsgRecvRequest { timeout: 1 },
        KernelRequest::Other,
    ] {
        assert_eq!(process_kern_hwreq(&request, 0), None);
    }
}

#[test]
fn peripheral_outcomes_become_replies() {
    assert_eq!(hwreq_reply(HwOperation::RtioInit, HwOutcome::Done), Action::AcknowledgeMailbox);
    for operation in [
        HwOperation::I2cStart { busno: 0 },
        HwOperation::I2cRestart { busno: 0 },
        HwOperation::I2cStop { busno: 0 },
        HwOperation::I2cSwitchSelect { busno: 0, address: 1, mask: 2 },
    ] {
        assert_eq!(
            hwreq_reply(operation, HwOutcome::Done),
            Action::Send(KernelReply::I2cBasicReply { succeeded: true })
        );
        assert_eq!(
            hwreq_reply(operation, HwOutcome::Failed),
            Action::Send(KernelReply::I2cBasicReply { succeeded: false })
        );
    }
    for operation in [
        HwOperation::SpiSetConfig { busno: 0, flags: 0, length: 0, div: 0, cs: 0 },
        HwOperation::SpiWrite { busno: 0, data: 1 },
    ] {
        assert_eq!(
            hwreq_reply(operation, HwOutcome::Done),
            Action::Send(KernelReply::SpiBasicReply { succeeded: true })
        );
        assert_eq!(
            hwreq_reply(operation, HwOutcome::Failed),
            Action::Send(KernelReply::SpiBasicReply { succeeded: false })
        );
    }
    let write = HwOperation::I2cWrite { busno: 0, data: 1 };
    assert_eq!(
        hwreq_reply(write, HwOutcome::Acknowledged(true)),
        Action::Send(KernelReply::I2cWriteReply { succeeded: true, ack: true })
    );
    assert_eq!(
        hwreq_reply(write, HwOutcome::Acknowledged(false)),
        Action::Send(KernelReply::I2cWriteReply { succeeded: true, ack: false })
    );
    assert_eq!(
        hwreq_reply(write, HwOutcome::Failed),
        Action::Send(KernelReply::I2cWriteReply { succeeded: false, ack: false })
    );
    let read = HwOperation::I2cRead { busno: 0, ack: false };
    assert_eq!(
        hwreq_reply(read, HwOutcome::Byte(0x5a)),
        Action::Send(KernelReply::I2cReadReply { succeeded: true, data: 0x5a })
    );
    assert_eq!(
        hwreq_reply(read, HwOutcome::Failed),
        Action::Send(KernelReply::I2cReadReply { succeeded: false, data: 0xff })
    );
    let spi_read = HwOperation::SpiRead { busno: 0 };
    assert_eq!(
        hwreq_reply(spi_read, HwOutcome::Word(0x1234_5678)),
        Action::Send(KernelReply::SpiReadReply { succeeded: true, data: 0x1234_5678 })
    );
    assert_eq!(
        hwreq_reply(spi_read, HwOutcome::Failed),
        Action::Send(KernelReply::SpiReadReply { succeeded: false, data: 0 })
    );
}
