use subkernel::satellite::error::Error;
use subkernel::satellite::messages::MessageManager;
use subkernel::satellite::sliceable::SliceMeta;

fn frame(bytes: &[u8]) -> [u8; 8] {
    let mut data = [0xffu8; 8];
    data[..bytes.len()].copy_from_slice(bytes);
    data
}

#[test]
fn fresh_manager_has_nothing() {
    let mut messages = MessageManager::new();
    assert!(!messages.assembling());
    assert!(messages.get_incoming().is_none());
    assert!(!messages.is_outgoing_ready());
    assert!(!messages.was_message_acknowledged());
    assert!(!messages.ack_expected());
    let mut buf = [0u8; 4];
    assert_eq!(messages.get_outgoing_slice(&mut buf), None);
}

#[test]
fn incoming_message_is_assembled_from_frames() {
    let mut messages = MessageManager::new();
    messages.handle_incoming(false, 5, &frame(&[2, 9, 0xa1, 0xa2, 0xa3]));
    assert!(messages.assembling());
    assert!(messages.get_incoming().is_none());
    messages.handle_incoming(true, 3, &frame(&[0xb1, 0xb2, 0xb3]));
    assert!(!messages.assembling());
    let message = messages.get_incoming().unwrap();
    assert_eq!(message.count, 2);
    assert_eq!(message.tag, 9);
    assert_eq!(message.data, vec![0xa1, 0xa2, 0xa3, 0xb1, 0xb2, 0xb3]);
    assert!(messages.get_incoming().is_none());
}

#[test]
fn incoming_messages_queue_up_in_order() {
    let mut messages = MessageManager::new();
    messages.handle_incoming(true, 2, &frame(&[1, 10]));
    messages.handle_incoming(false, 3, &frame(&[1, 11, 5]));
    messages.handle_incoming(false, 0, &frame(&[]));
    messages.handle_incoming(true, 1, &frame(&[6]));
    messages.handle_incoming(true, 8, &frame(&[3, 12, 1, 2, 3, 4, 5, 6]));
    let first = messages.get_incoming().unwrap();
    assert_eq!((first.count, first.tag, first.data), (1, 10, vec![]));
    let second = messages.get_incoming().unwrap();
    assert_eq!((second.count, second.tag, second.data), (1, 11, vec![5, 6]));
    let third = messages.get_incoming().unwrap();
    assert_eq!((third.count, third.tag, third.data), (3, 12, vec![1, 2, 3, 4, 5, 6]));
    assert!(messages.get_incoming().is_none());
}

#[test]
fn outgoing_message_goes_through_all_states() {
    let mut messages = MessageManager::new();
    let encoded = vec![0, 0, 0, 0, 0x69, 1, 2, 3, 4, 5];
    assert!(messages.accept_outgoing(7, Some(encoded)).is_ok());
    let mut buf = [0u8; 3];
    assert_eq!(messages.get_outgoing_slice(&mut buf), None);
    assert!(!messages.ack_expected());
    assert!(!messages.ack_slice());
    assert!(!messages.was_message_acknowledged());
    assert!(messages.is_outgoing_ready());
    assert!(!messages.is_outgoing_ready());
    assert!(messages.ack_expected());
    assert_eq!(messages.get_outgoing_slice(&mut buf), Some(SliceMeta { len: 3, last: false }));
    assert_eq!(buf, [7, 0x69, 1]);
    assert!(messages.ack_slice());
    assert_eq!(messages.get_outgoing_slice(&mut buf), Some(SliceMeta { len: 3, last: false }));
    assert_eq!(buf, [2, 3, 4]);
    assert!(messages.ack_slice());
    assert!(!messages.was_message_acknowledged());
    assert_eq!(messages.get_outgoing_slice(&mut buf), Some(SliceMeta { len: 1, last: true }));
    assert_eq!(buf, [5, 3, 4]);
    assert_eq!(messages.get_outgoing_slice(&mut buf), None);
    assert!(!messages.was_message_acknowledged());
    assert!(messages.ack_expected());
    assert!(!messages.ack_slice());
    assert!(!messages.ack_expected());
    assert!(!messages.ack_slice());
    assert!(!messages.is_outgoing_ready());
    assert!(messages.was_message_acknowledged());
    assert!(!messages.was_message_acknowledged());
    assert!(!messages.ack_slice());
    assert_eq!(messages.get_outgoing_slice(&mut buf), None);
}

#[test]
fn unsolicited_acknowledgement_changes_nothing() {
    let mut messages = MessageManager::new();
    assert!(!messages.ack_slice());
    assert!(!messages.was_message_acknowledged());
    assert!(messages.accept_outgoing(1, Some(vec![0, 0, 0, 0, 5])).is_ok());
    assert!(!messages.ack_slice());
    assert!(!messages.was_message_acknowledged());
    assert!(messages.is_outgoing_ready());
    let mut buf = [0u8; 8];
    assert_eq!(messages.get_outgoing_slice(&mut buf), Some(SliceMeta { len: 2, last: true }));
    assert_eq!(&buf[..2], &[1, 5]);
}

#[test]
fn smallest_outgoing_message_is_its_count() {
    let mut messages = MessageManager::new();
    assert!(messages.accept_outgoing(4, Some(vec![9, 9, 9, 9])).is_ok());
    assert!(messages.is_outgoing_ready());
    let mut buf = [0u8; 8];
    assert_eq!(messages.get_outgoing_slice(&mut buf), Some(SliceMeta { len: 1, last: true }));
    assert_eq!(buf[0], 4);
}

#[test]
fn failed_encoding_is_an_io_error() {
    let mut messages = MessageManager::new();
    assert!(matches!(messages.accept_outgoing(1, None), Err(Error::SubkernelIoError)));
    assert!(!messages.is_outgoing_ready());
}

#[test]
fn both_halves_are_independent() {
    let mut messages = MessageManager::new();
    assert!(messages.accept_outgoing(1, Some(vec![0, 0, 0, 0, 5])).is_ok());
    messages.handle_incoming(true, 3, &frame(&[1, 2, 3]));
    assert!(messages.is_outgoing_ready());
    let message = messages.get_incoming().unwrap();
    assert_eq!((message.count, message.tag, message.data), (1, 2, vec![3]));
    assert!(messages.ack_slice());
}
