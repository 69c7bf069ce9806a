use subkernel::satellite::error::Error;
use subkernel::satellite::kernel_cpu::Action;
use subkernel::satellite::kernel_cpu::HwOperation;
use subkernel::satellite::kernel_cpu::KernelReply;
use subkernel::satellite::kernel_cpu::RtioMaster;
use subkernel::satellite::kernel_cpu::SubkernelStatus;
use subkernel::satellite::manager::Manager;
use subkernel::satellite::manager::SubkernelFinished;
use subkernel::satellite::manager::Tick;
use subkernel::satellite::manager::SUBKERNEL_ERROR;
use subkernel::satellite::requests::KernelRequest;
use subkernel::satellite::session::KernelState;
use subkernel::satellite::sliceable::SliceMeta;

fn halt() -> Vec<Action> {
    vec![
        Action::HoldReset,
        Action::SelectArbiter(RtioMaster::Drtio),
        Action::AcknowledgeMailbox,
        Action::UnborrowCache,
    ]
}

fn loaded(id: u32) -> Manager {
    let mut manager = Manager::new();
    assert!(manager.add(id, true, &[1, 2, 3, 4], 3).is_ok());
    let launch = manager.run(id).unwrap();
    assert!(launch.awaits_reply);
    let reply = manager.load_reply(Ok(KernelRequest::LoadReply { error: None }));
    assert!(reply.outcome.is_ok());
    assert!(reply.actions.is_empty());
    assert_eq!(manager.kernel_state(), KernelState::Loaded);
    manager
}

fn running(id: u32) -> Manager {
    let mut manager = loaded(id);
    let launch = manager.run(id).unwrap();
    assert!(!launch.awaits_reply);
    assert_eq!(
        launch.actions,
        vec![Action::SelectArbiter(RtioMaster::Kernel), Action::AcknowledgeMailbox]
    );
    assert_eq!(manager.kernel_state(), KernelState::Running);
    manager
}

fn serve(manager: &mut Manager, request: KernelRequest, now: u64) -> Vec<Action> {
    let served = manager.process_kern_message(request, 3, now);
    assert!(matches!(served.outcome, Ok(None)));
    assert!(served.lines.is_empty());
    let settled = manager.kern_message_processed(served.outcome);
    assert!(settled.actions.is_empty());
    assert!(settled.exception.is_none());
    served.actions
}

fn frame(bytes: &[u8]) -> [u8; 8] {
    let mut data = [0xffu8; 8];
    data[..bytes.len()].copy_from_slice(bytes);
    data
}

#[test]
fn fresh_manager_is_idle() {
    let mut manager = Manager::new();
    assert!(!manager.is_running());
    assert_eq!(manager.get_current_id(), None);
    assert_eq!(manager.kernel_state(), KernelState::Absent);
    assert_eq!(manager.get_last_finished(), None);
    assert!(manager.library().is_none());
    assert!(matches!(manager.process_kern_requests(0), Tick::Idle));
    assert!(!manager.message_is_ready());
    assert!(!manager.message_ack_slice());
    assert!(!manager.message_ack_expected());
    let mut buf = [5u8; 4];
    assert_eq!(manager.message_get_slice(&mut buf), None);
    assert_eq!(manager.exception_get_slice(&mut buf), SliceMeta { len: 0, last: true });
    assert_eq!(buf, [5u8; 4]);
}

#[test]
fn image_grows_chunk_by_chunk() {
    let mut manager = Manager::new();
    assert!(manager.add(0, false, &[1, 2, 3], 2).is_ok());
    assert_eq!(manager.library(), Some(&vec![1, 2]));
    assert!(matches!(manager.load(0), Err(Error::KernelNotFound)));
    assert!(manager.add(0, false, &[], 0).is_ok());
    assert!(manager.add(0, true, &[3, 4, 5], 3).is_ok());
    assert_eq!(manager.library(), Some(&vec![1, 2, 3, 4, 5]));
    assert!(manager.load(0).is_ok());
}

#[test]
fn complete_image_is_replaced_by_the_next_chunk() {
    let mut manager = Manager::new();
    assert!(manager.add(0, true, &[1, 2, 3], 3).is_ok());
    assert!(manager.add(0, false, &[7, 8], 2).is_ok());
    assert_eq!(manager.library(), Some(&vec![7, 8]));
    assert!(matches!(manager.load(0), Err(Error::KernelNotFound)));
    assert!(manager.add(0, true, &[9], 1).is_ok());
    assert_eq!(manager.library(), Some(&vec![7, 8, 9]));
    assert!(manager.add(0, true, &[6], 1).is_ok());
    assert_eq!(manager.library(), Some(&vec![6]));
}

#[test]
fn images_are_kept_by_id() {
    let mut manager = Manager::new();
    assert!(manager.add(1, true, &[1], 1).is_ok());
    assert!(manager.add(2, true, &[2, 2], 2).is_ok());
    assert!(manager.load(2).is_ok());
    assert_eq!(manager.library(), Some(&vec![2, 2]));
    assert!(manager.load(1).is_ok());
    assert_eq!(manager.library(), Some(&vec![1]));
}

#[test]
fn load_asks_the_kernel_cpu_to_load() {
    let mut manager = Manager::new();
    assert!(manager.add(5, true, &[1, 2, 3], 3).is_ok());
    let launch = manager.load(5).unwrap();
    assert!(launch.awaits_reply);
    assert_eq!(
        launch.actions,
        vec![
            Action::HoldReset,
            Action::SelectArbiter(RtioMaster::Drtio),
            Action::AcknowledgeMailbox,
            Action::UnborrowCache,
            Action::HoldReset,
            Action::SelectArbiter(RtioMaster::Drtio),
            Action::AcknowledgeMailbox,
            Action::CopySupportImage,
            Action::ReleaseReset,
            Action::SendLoadRequest,
        ]
    );
    assert_eq!(manager.kernel_state(), KernelState::Absent);
    assert_eq!(manager.library(), Some(&vec![1, 2, 3]));
    let reply = manager.load_reply(Ok(KernelRequest::LoadReply { error: None }));
    assert!(reply.outcome.is_ok());
    assert_eq!(manager.kernel_state(), KernelState::Loaded);
    assert!(!manager.is_running());
    assert_eq!(manager.get_current_id(), None);
    let again = manager.load(5).unwrap();
    assert!(!again.awaits_reply);
    assert!(again.actions.is_empty());
}

#[test]
fn load_of_a_missing_or_partial_image_fails() {
    let mut manager = running(5);
    assert!(matches!(manager.load(6), Err(Error::KernelNotFound)));
    assert!(matches!(manager.run(6), Err(Error::KernelNotFound)));
    assert!(manager.add(6, false, &[1], 1).is_ok());
    assert!(matches!(manager.load(6), Err(Error::KernelNotFound)));
    assert_eq!(manager.get_current_id(), Some(5));
    assert_eq!(manager.kernel_state(), KernelState::Running);
}

#[test]
fn refused_load_stops_the_kernel_cpu() {
    let mut manager = Manager::new();
    assert!(manager.add(5, true, &[1], 1).is_ok());
    assert!(manager.load(5).unwrap().awaits_reply);
    let reply = manager
        .load_reply(Ok(KernelRequest::LoadReply { error: Some(String::from("bad magic")) }));
    match reply.outcome {
        Err(Error::Load(message)) => assert_eq!(message, "bad magic"),
        _ => panic!("expected a load error"),
    }
    assert_eq!(
        reply.actions,
        vec![Action::HoldReset, Action::SelectArbiter(RtioMaster::Drtio), Action::AcknowledgeMailbox]
    );
    assert_eq!(manager.kernel_state(), KernelState::Absent);
}

#[test]
fn anything_but_a_load_reply_is_unexpected_after_a_load_request() {
    let mut manager = Manager::new();
    assert!(manager.add(5, true, &[1], 1).is_ok());
    assert!(manager.load(5).unwrap().awaits_reply);
    let reply = manager.load_reply(Ok(KernelRequest::RunFinished));
    match reply.outcome {
        Err(Error::Unexpected(message)) => {
            assert_eq!(message, "unexpected kernel CPU reply to load request")
        }
        _ => panic!("expected an unexpected reply"),
    }
    assert!(reply.actions.is_empty());
    assert!(matches!(manager.load_reply(Err(Error::NoMessage)).outcome, Err(Error::NoMessage)));
    assert!(matches!(
        manager.load_reply(Err(Error::InvalidPointer(12))).outcome,
        Err(Error::InvalidPointer(12))
    ));
    assert_eq!(manager.kernel_state(), KernelState::Absent);
}

#[test]
fn run_loads_another_subkernel_first() {
    let mut manager = running(5);
    assert!(manager.add(6, true, &[9], 1).is_ok());
    let launch = manager.run(6).unwrap();
    assert!(launch.awaits_reply);
    assert_eq!(launch.actions.len(), 10);
    assert!(!manager.is_running());
    assert!(manager.load_reply(Ok(KernelRequest::LoadReply { error: None })).outcome.is_ok());
    let launch = manager.run(6).unwrap();
    assert!(!launch.awaits_reply);
    assert_eq!(manager.get_current_id(), Some(6));
}

#[test]
fn run_of_a_running_subkernel_loads_it_again() {
    let mut manager = running(5);
    let launch = manager.run(5).unwrap();
    assert!(launch.awaits_reply);
    assert_eq!(manager.kernel_state(), KernelState::Absent);
}

#[test]
fn stop_ends_the_run() {
    let mut manager = running(5);
    assert_eq!(manager.stop(), halt());
    assert!(!manager.is_running());
    assert_eq!(manager.get_current_id(), None);
    assert_eq!(manager.get_last_finished(), None);
    assert_eq!(manager.stop(), halt());
}

#[test]
fn shutdown_returns_the_channel_and_stops_the_cpu() {
    assert_eq!(
        running(5).shutdown(),
        vec![
            Action::SelectArbiter(RtioMaster::Drtio),
            Action::HoldReset,
            Action::SelectArbiter(RtioMaster::Drtio),
            Action::AcknowledgeMailbox,
        ]
    );
}

#[test]
fn finished_run_is_reported_once() {
    let mut manager = running(5);
    let served = manager.process_kern_message(KernelRequest::RunFinished, 0, 0);
    assert_eq!(served.actions, halt());
    assert!(matches!(served.outcome, Ok(Some(false))));
    assert!(!manager.is_running());
    let settled = manager.kern_message_processed(served.outcome);
    assert!(settled.actions.is_empty());
    assert!(settled.exception.is_none());
    assert_eq!(
        manager.get_last_finished(),
        Some(SubkernelFinished { id: 5, with_exception: false })
    );
    assert_eq!(manager.get_last_finished(), None);
    assert!(!manager.is_running());
    assert_eq!(manager.get_current_id(), None);
    let mut buf = [0u8; 4];
    assert_eq!(manager.exception_get_slice(&mut buf), SliceMeta { len: 0, last: true });
}

#[test]
fn exception_of_the_kernel_is_kept_for_the_master() {
    let mut manager = running(5);
    let served = manager.process_kern_message(
        KernelRequest::RunException { encoded: Some(vec![9, 8, 7, 6, 5]) },
        0,
        0,
    );
    assert_eq!(served.actions, halt());
    assert!(matches!(served.outcome, Ok(Some(true))));
    let settled = manager.kern_message_processed(served.outcome);
    assert!(settled.exception.is_none());
    assert!(!manager.is_running());
    assert_eq!(
        manager.get_last_finished(),
        Some(SubkernelFinished { id: 5, with_exception: true })
    );
    assert_eq!(manager.get_last_finished(), None);
    let mut buf = [0u8; 3];
    assert_eq!(manager.exception_get_slice(&mut buf), SliceMeta { len: 3, last: false });
    assert_eq!(buf, [9, 8, 7]);
    assert_eq!(manager.exception_get_slice(&mut buf), SliceMeta { len: 2, last: true });
    assert_eq!(buf, [6, 5, 7]);
    assert_eq!(manager.exception_get_slice(&mut buf), SliceMeta { len: 0, last: true });
}

#[test]
fn exception_that_cannot_be_written_ends_the_run_with_one_of_the_manager() {
    let mut manager = running(5);
    let served = manager.process_kern_message(KernelRequest::RunException { encoded: None }, 0, 0);
    assert_eq!(served.actions, halt());
    assert!(matches!(served.outcome, Err(Error::SubkernelIoError)));
    let settled = manager.kern_message_processed(served.outcome);
    assert_eq!(settled.actions, halt());
    let exception = settled.exception.unwrap();
    assert_eq!(exception.id, SUBKERNEL_ERROR);
    assert_eq!(exception.id, 11);
    assert_eq!(exception.subkernel, 5);
    assert!(matches!(exception.cause, Error::SubkernelIoError));
    assert_eq!(exception.param, [0, 0, 0]);
    assert_eq!(exception.stack_pointer, 0);
    assert_eq!(exception.initial_backtrace_size, 0);
    assert_eq!(exception.current_backtrace_size, 0);
    assert_eq!(exception.async_errors, 0);
    manager.runtime_exception(Some(vec![1, 2]));
    assert_eq!(
        manager.get_last_finished(),
        Some(SubkernelFinished { id: 5, with_exception: true })
    );
    let mut buf = [0u8; 4];
    assert_eq!(manager.exception_get_slice(&mut buf), SliceMeta { len: 2, last: true });
    assert_eq!(buf, [1, 2, 0, 0]);
}

#[test]
fn runtime_exception_that_cannot_be_written_keeps_what_was_there() {
    let mut manager = running(5);
    manager.runtime_exception(Some(vec![4]));
    manager.runtime_exception(None);
    let mut buf = [0u8; 4];
    assert_eq!(manager.exception_get_slice(&mut buf), SliceMeta { len: 1, last: true });
    assert_eq!(buf[0], 4);
}

#[test]
fn no_message_in_the_mailbox_is_no_error() {
    let mut manager = running(5);
    let settled = manager.kern_message_processed(Err(Error::NoMessage));
    assert!(settled.actions.is_empty());
    assert!(settled.exception.is_none());
    assert!(manager.is_running());
    assert_eq!(manager.get_last_finished(), None);
}

#[test]
fn invalid_pointer_ends_the_run() {
    let mut manager = running(5);
    let settled = manager.kern_message_processed(Err(Error::InvalidPointer(0x1000)));
    assert_eq!(settled.actions, halt());
    let exception = settled.exception.unwrap();
    assert_eq!(exception.subkernel, 5);
    assert!(matches!(exception.cause, Error::InvalidPointer(0x1000)));
    assert!(!manager.is_running());
    assert_eq!(
        manager.get_last_finished(),
        Some(SubkernelFinished { id: 5, with_exception: true })
    );
}

#[test]
fn requests_are_unexpected_while_no_kernel_runs() {
    let mut manager = loaded(5);
    let served = manager.process_kern_message(KernelRequest::LoadReply { error: None }, 0, 0);
    assert!(matches!(served.outcome, Ok(None)));
    assert!(served.actions.is_empty());
    let served = manager.process_kern_message(KernelRequest::RpcFlush, 0, 0);
    match served.outcome {
        Err(Error::Unexpected(message)) => {
            assert_eq!(message, "unexpected request from kernel CPU in this state")
        }
        _ => panic!("expected an unexpected request"),
    }
    assert!(served.actions.is_empty());
    assert_eq!(manager.kernel_state(), KernelState::Loaded);
}

#[test]
fn requests_that_a_running_kernel_may_not_make() {
    for request in [
        KernelRequest::LoadReply { error: None },
        KernelRequest::RpcRecvRequest,
        KernelRequest::Other,
    ] {
        let mut manager = running(5);
        let served = manager.process_kern_message(request, 0, 0);
        match &served.outcome {
            Err(Error::Unexpected(message)) => {
                assert_eq!(message, "unexpected request from kernel CPU")
            }
            _ => panic!("expected an unexpected request"),
        }
        assert!(served.actions.is_empty());
        assert!(manager.is_running());
        let settled = manager.kern_message_processed(served.outcome);
        assert_eq!(settled.actions, halt());
        assert!(matches!(settled.exception.unwrap().cause, Error::Unexpected(_)));
        assert!(!manager.is_running());
    }
}

#[test]
fn simple_requests_are_acknowledged_or_served() {
    let mut manager = running(5);
    assert_eq!(serve(&mut manager, KernelRequest::RpcFlush, 0), vec![Action::AcknowledgeMailbox]);
    assert_eq!(serve(&mut manager, KernelRequest::CacheGetRequest, 0), vec![Action::ServeCacheGet]);
    assert_eq!(serve(&mut manager, KernelRequest::CachePutRequest, 0), vec![Action::ServeCachePut]);
    assert_eq!(
        serve(&mut manager, KernelRequest::RtioInitRequest, 0),
        vec![Action::Perform(HwOperation::RtioInit)]
    );
    assert_eq!(
        serve(&mut manager, KernelRequest::RtioDestinationStatusRequest { destination: 3 }, 0),
        vec![Action::Send(KernelReply::RtioDestinationStatusReply { up: true })]
    );
    assert_eq!(
        serve(&mut manager, KernelRequest::RtioDestinationStatusRequest { destination: 4 }, 0),
        vec![Action::Send(KernelReply::RtioDestinationStatusReply { up: false })]
    );
    assert_eq!(
        serve(&mut manager, KernelRequest::SpiWriteRequest { busno: 0x101, data: 77 }, 0),
        vec![Action::Perform(HwOperation::SpiWrite { busno: 1, data: 77 })]
    );
    assert!(manager.is_running());
}

#[test]
fn log_text_is_emitted_line_by_line() {
    let mut manager = running(5);
    let served =
        manager.process_kern_message(KernelRequest::Log { text: String::from("a=1 ") }, 0, 0);
    assert!(served.lines.is_empty());
    assert_eq!(served.actions, vec![Action::AcknowledgeMailbox]);
    let served = manager
        .process_kern_message(KernelRequest::LogSlice { text: String::from("b=2\nc=3\n") }, 0, 0);
    assert_eq!(served.lines, vec!["a=1 b=2", "c=3"]);
    assert_eq!(served.actions, vec![Action::AcknowledgeMailbox]);
    assert!(matches!(served.outcome, Ok(None)));
    let served =
        manager.process_kern_message(KernelRequest::Log { text: String::from("d\n") }, 0, 0);
    assert_eq!(served.lines, vec!["d"]);
}

#[test]
fn satellite_await_timeout() {
    let mut manager = running(5);
    let actions = serve(&mut manager, KernelRequest::SubkernelMsgRecvRequest { timeout: 10 }, 100);
    assert!(actions.is_empty());
    assert_eq!(manager.kernel_state(), KernelState::MsgAwait { max_time: 110 });
    assert!(manager.is_running());
    assert!(matches!(manager.process_kern_requests(105), Tick::Waiting));
    assert!(matches!(manager.process_kern_requests(110), Tick::Waiting));
    assert_eq!(manager.kernel_state(), KernelState::MsgAwait { max_time: 110 });
    match manager.process_kern_requests(111) {
        Tick::Serve(actions) => assert_eq!(
            actions,
            vec![Action::Send(KernelReply::SubkernelMsgRecvReply {
                status: SubkernelStatus::Timeout,
                count: 0
            })]
        ),
        _ => panic!("expected the timeout reply"),
    }
    assert_eq!(manager.kernel_state(), KernelState::Running);
    assert!(matches!(manager.process_kern_requests(112), Tick::Serve(actions) if actions.is_empty()));
}

#[test]
fn awaited_message_is_delivered() {
    let mut manager = running(5);
    assert!(!manager.message_assembling());
    manager.message_handle_incoming(false, 4, &frame(&[2, 0x69, 1, 2]));
    assert!(manager.message_assembling());
    serve(&mut manager, KernelRequest::SubkernelMsgRecvRequest { timeout: 10 }, 0);
    assert!(matches!(manager.process_kern_requests(1), Tick::Waiting));
    manager.message_handle_incoming(true, 2, &frame(&[3, 4]));
    assert!(!manager.message_assembling());
    match manager.process_kern_requests(2) {
        Tick::Deliver(actions, message) => {
            assert_eq!(
                actions,
                vec![Action::Send(KernelReply::SubkernelMsgRecvReply {
                    status: SubkernelStatus::NoError,
                    count: 2
                })]
            );
            assert_eq!((message.count, message.tag), (2, 0x69));
            assert_eq!(message.data, vec![1, 2, 3, 4]);
        }
        _ => panic!("expected a delivery"),
    }
    assert_eq!(manager.kernel_state(), KernelState::Running);
    let settled = manager.external_messages_processed(Ok(()));
    assert!(settled.actions.is_empty());
    assert!(settled.exception.is_none());
    assert!(manager.is_running());
}

#[test]
fn timeout_comes_before_a_queued_message() {
    let mut manager = running(5);
    manager.message_handle_incoming(true, 2, &frame(&[1, 2]));
    serve(&mut manager, KernelRequest::SubkernelMsgRecvRequest { timeout: 10 }, 0);
    assert!(matches!(manager.process_kern_requests(11), Tick::Serve(_)));
    serve(&mut manager, KernelRequest::SubkernelMsgRecvRequest { timeout: 10 }, 11);
    assert!(matches!(manager.process_kern_requests(12), Tick::Deliver(_, _)));
}

#[test]
fn frames_are_dropped_while_no_kernel_runs() {
    let mut manager = loaded(5);
    manager.message_handle_incoming(true, 2, &frame(&[1, 2]));
    manager.message_handle_incoming(false, 0, &frame(&[]));
    assert!(!manager.message_assembling());
    assert!(manager.run(5).is_ok());
    serve(&mut manager, KernelRequest::SubkernelMsgRecvRequest { timeout: 10 }, 0);
    assert!(matches!(manager.process_kern_requests(1), Tick::Waiting));
}

#[test]
fn exception_during_delivery_ends_the_run() {
    let mut manager = running(5);
    manager.message_handle_incoming(true, 2, &frame(&[1, 2]));
    serve(&mut manager, KernelRequest::SubkernelMsgRecvRequest { timeout: 10 }, 0);
    assert!(matches!(manager.process_kern_requests(1), Tick::Deliver(_, _)));
    let exception = subkernel::satellite::sliceable::Sliceable::new(vec![0xee, 0xef]);
    let settled = manager.external_messages_processed(Err(Error::KernelException(exception)));
    assert_eq!(settled.actions, halt());
    assert!(settled.exception.is_none());
    assert!(!manager.is_running());
    assert_eq!(
        manager.get_last_finished(),
        Some(SubkernelFinished { id: 5, with_exception: true })
    );
    let mut buf = [0u8; 4];
    assert_eq!(manager.exception_get_slice(&mut buf), SliceMeta { len: 2, last: true });
    assert_eq!(&buf[..2], &[0xee, 0xef]);
}

#[test]
fn failed_delivery_ends_the_run_with_an_exception_of_the_manager() {
    let mut manager = running(5);
    let settled = manager.external_messages_processed(Err(Error::NoMessage));
    assert_eq!(settled.actions, halt());
    let exception = settled.exception.unwrap();
    assert_eq!((exception.id, exception.subkernel), (11, 5));
    assert!(matches!(exception.cause, Error::NoMessage));
    assert!(!manager.is_running());
    assert_eq!(
        manager.get_last_finished(),
        Some(SubkernelFinished { id: 5, with_exception: true })
    );
    let mut other = running(6);
    let settled = other.external_messages_processed(Err(Error::AwaitingMessage));
    assert!(settled.actions.is_empty());
    assert!(settled.exception.is_none());
    assert!(other.is_running());
}

#[test]
fn satellite_send_ack_ordering() {
    let mut manager = running(5);
    let encoded = vec![0, 0, 0, 0, 0x69, 1, 2, 3, 4];
    let actions = serve(
        &mut manager,
        KernelRequest::SubkernelMsgSend { count: 1, encoded: Some(encoded) },
        0,
    );
    assert!(actions.is_empty());
    assert_eq!(manager.kernel_state(), KernelState::MsgSending);
    assert!(matches!(manager.process_kern_requests(1), Tick::Waiting));
    assert!(manager.message_is_ready());
    assert!(!manager.message_is_ready());
    let mut buf = [0u8; 4];
    assert_eq!(manager.message_get_slice(&mut buf), Some(SliceMeta { len: 4, last: false }));
    assert_eq!(buf, [1, 0x69, 1, 2]);
    assert!(manager.message_ack_expected());
    assert!(manager.message_ack_slice());
    assert!(matches!(manager.process_kern_requests(2), Tick::Waiting));
    assert_eq!(manager.message_get_slice(&mut buf), Some(SliceMeta { len: 2, last: true }));
    assert_eq!(buf, [3, 4, 1, 2]);
    assert_eq!(manager.message_get_slice(&mut buf), None);
    assert!(matches!(manager.process_kern_requests(3), Tick::Waiting));
    assert_eq!(manager.kernel_state(), KernelState::MsgSending);
    assert!(!manager.message_ack_slice());
    assert!(!manager.message_ack_expected());
    match manager.process_kern_requests(4) {
        Tick::Serve(actions) => assert_eq!(actions, vec![Action::AcknowledgeMailbox]),
        _ => panic!("expected the acknowledgement"),
    }
    assert_eq!(manager.kernel_state(), KernelState::Running);
    assert!(!manager.message_ack_slice());
    assert!(matches!(manager.process_kern_requests(5), Tick::Serve(actions) if actions.is_empty()));
}

#[test]
fn kernel_is_not_heard_while_its_message_is_sent() {
    let mut manager = running(5);
    serve(
        &mut manager,
        KernelRequest::SubkernelMsgSend { count: 1, encoded: Some(vec![0, 0, 0, 0, 1]) },
        0,
    );
    let served = manager.process_kern_message(
        KernelRequest::SubkernelMsgSend { count: 2, encoded: Some(vec![0, 0, 0, 0, 2]) },
        0,
        0,
    );
    assert!(matches!(served.outcome, Err(Error::Unexpected(_))));
    assert_eq!(manager.kernel_state(), KernelState::MsgSending);
    assert!(manager.message_is_ready());
    let mut buf = [0u8; 4];
    assert_eq!(manager.message_get_slice(&mut buf), Some(SliceMeta { len: 2, last: true }));
    assert_eq!(&buf[..2], &[1, 1]);
}

#[test]
fn message_that_cannot_be_encoded_is_an_io_error() {
    let mut manager = running(5);
    let served = manager
        .process_kern_message(KernelRequest::SubkernelMsgSend { count: 1, encoded: None }, 0, 0);
    assert!(matches!(served.outcome, Err(Error::SubkernelIoError)));
    assert!(served.actions.is_empty());
    assert_eq!(manager.kernel_state(), KernelState::Running);
    assert!(!manager.message_is_ready());
}

#[test]
fn outgoing_message_is_not_sliced_after_the_run() {
    let mut manager = running(5);
    serve(
        &mut manager,
        KernelRequest::SubkernelMsgSend { count: 1, encoded: Some(vec![0, 0, 0, 0, 1]) },
        0,
    );
    assert!(manager.message_is_ready());
    manager.stop();
    let mut buf = [0u8; 4];
    assert_eq!(manager.message_get_slice(&mut buf), None);
    assert!(!manager.message_ack_slice());
    assert!(!manager.message_ack_expected());
    assert_eq!(buf, [0u8; 4]);
}

#[test]
fn waiting_is_signalled_by_an_error_of_its_own() {
    let mut manager = running(5);
    assert!(matches!(
        manager.process_external_messages(0),
        Ok(external) if external.actions.is_empty() && external.deliver.is_none()
    ));
    serve(&mut manager, KernelRequest::SubkernelMsgRecvRequest { timeout: 10 }, 0);
    assert!(matches!(manager.process_external_messages(0), Err(Error::AwaitingMessage)));
    assert!(matches!(manager.process_external_messages(10), Err(Error::AwaitingMessage)));
    let external = manager.process_external_messages(11).unwrap();
    assert_eq!(external.actions.len(), 1);
    assert!(external.deliver.is_none());
    serve(
        &mut manager,
        KernelRequest::SubkernelMsgSend { count: 1, encoded: Some(vec![0, 0, 0, 0]) },
        0,
    );
    assert!(matches!(manager.process_external_messages(0), Err(Error::AwaitingMessage)));
    let mut idle = Manager::new();
    assert!(matches!(
        idle.process_external_messages(0),
        Ok(external) if external.actions.is_empty() && external.deliver.is_none()
    ));
}
