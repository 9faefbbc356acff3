use native_programs::ffi::{InterfaceMessage, InterfaceOrDestroyed, Message, ProcessDestroyedMessage, ResponseMessage};
use native_programs::ids::{EncodedMessage, InterfaceHash, MessageId, Pid};
use native_programs::interface;
use native_programs::wire::{DecodeError, Wire};

fn interface_message(message_id: Option<MessageId>, actual_data: Vec<u8>) -> InterfaceMessage {
    InterfaceMessage {
        interface: [0x5a; 32],
        message_id,
        emitter_pid: Pid(0x0102_0304_0506_0708),
        index_in_list: 0x0a0b_0c0d,
        actual_data,
    }
}

fn scale<T: parity_scale_codec::Encode>(value: T) -> Vec<u8> {
    parity_scale_codec::Encode::encode(&value)
}

#[test]
fn interface_message_has_its_bytes() {
    let bytes = interface_message(Some(MessageId(3)), vec![0xee, 0xff]).encode();
    let mut expected = vec![0x5a; 32];
    expected.extend_from_slice(&[1, 3, 0, 0, 0, 0, 0, 0, 0]);
    expected.extend_from_slice(&[8, 7, 6, 5, 4, 3, 2, 1]);
    expected.extend_from_slice(&[0x0d, 0x0c, 0x0b, 0x0a]);
    expected.extend_from_slice(&[8, 0xee, 0xff]);
    assert_eq!(bytes, expected);

    let bytes = interface_message(None, vec![]).encode();
    let mut expected = vec![0x5a; 32];
    expected.extend_from_slice(&[0]);
    expected.extend_from_slice(&[8, 7, 6, 5, 4, 3, 2, 1]);
    expected.extend_from_slice(&[0x0d, 0x0c, 0x0b, 0x0a]);
    expected.extend_from_slice(&[0]);
    assert_eq!(bytes, expected);
}

#[test]
fn process_destroyed_message_has_its_bytes() {
    let bytes = ProcessDestroyedMessage { pid: Pid(0x0102), index_in_list: 3 }.encode();
    assert_eq!(bytes, vec![2, 1, 0, 0, 0, 0, 0, 0, 3, 0, 0, 0]);
}

#[test]
fn response_message_has_its_bytes() {
    let response = ResponseMessage { message_id: MessageId(9), index_in_list: 1, actual_data: Ok(vec![7]) };
    assert_eq!(response.encode(), vec![9, 0, 0, 0, 0, 0, 0, 0, 1, 0, 0, 0, 0, 4, 7]);
    let response = ResponseMessage { message_id: MessageId(9), index_in_list: 1, actual_data: Err(()) };
    assert_eq!(response.encode(), vec![9, 0, 0, 0, 0, 0, 0, 0, 1, 0, 0, 0, 1]);
}

#[test]
fn variants_are_told_apart_by_their_first_byte() {
    let interface = interface_message(None, vec![1]);
    let destroyed = ProcessDestroyedMessage { pid: Pid(1), index_in_list: 2 };
    let response = ResponseMessage { message_id: MessageId(1), index_in_list: 2, actual_data: Err(()) };

    let bytes = Message::Interface(interface.clone()).encode();
    assert_eq!(bytes[0], 0);
    assert_eq!(bytes[1..], interface.encode()[..]);
    let bytes = Message::Response(response.clone()).encode();
    assert_eq!(bytes[0], 1);
    assert_eq!(bytes[1..], response.encode()[..]);
    let bytes = Message::ProcessDestroyed(destroyed).encode();
    assert_eq!(bytes[0], 2);
    assert_eq!(bytes[1..], destroyed.encode()[..]);

    let bytes = InterfaceOrDestroyed::Interface(interface.clone()).encode();
    assert_eq!(bytes[0], 0);
    assert_eq!(bytes[1..], interface.encode()[..]);
    let bytes = InterfaceOrDestroyed::ProcessDestroyed(destroyed).encode();
    assert_eq!(bytes[0], 1);
    assert_eq!(bytes[1..], destroyed.encode()[..]);
}

#[test]
fn encodings_are_those_of_the_fields_in_order() {
    for length in [0usize, 1, 63, 64, 100, 16383, 16384, 100_000] {
        let data: Vec<u8> = (0..length).map(|i| (i % 251) as u8).collect();
        for message_id in [None, Some(MessageId(u64::MAX)), Some(MessageId(0))] {
            let message = interface_message(message_id, data.clone());
            let expected = scale((
                message.interface,
                message.message_id.map(|id| id.0),
                message.emitter_pid.0,
                message.index_in_list,
                message.actual_data.clone(),
            ));
            assert_eq!(message.encode(), expected);
            let (decoded, rest) = InterfaceMessage::decode(&expected).unwrap();
            assert_eq!(decoded, message);
            assert!(rest.is_empty());
        }
        for actual_data in [Ok(data.clone()), Err(())] {
            let message = ResponseMessage { message_id: MessageId(77), index_in_list: 5, actual_data };
            let expected = scale((1u8, message.message_id.0, message.index_in_list, message.actual_data.clone()));
            assert_eq!(Message::Response(message.clone()).encode(), expected);
        }
    }
    let destroyed = ProcessDestroyedMessage { pid: Pid(u64::MAX - 1), index_in_list: u32::MAX };
    assert_eq!(Message::ProcessDestroyed(destroyed).encode(), scale((2u8, u64::MAX - 1, u32::MAX)));
}

#[test]
fn decoding_inverts_encoding_and_leaves_the_rest() {
    let messages = vec![
        Message::Interface(interface_message(Some(MessageId(1)), vec![3; 70])),
        Message::Interface(interface_message(None, vec![])),
        Message::Response(ResponseMessage { message_id: MessageId(6), index_in_list: 9, actual_data: Ok(vec![1, 2]) }),
        Message::Response(ResponseMessage { message_id: MessageId(6), index_in_list: 9, actual_data: Err(()) }),
        Message::ProcessDestroyed(ProcessDestroyedMessage { pid: Pid(8), index_in_list: 0 }),
    ];
    // All of them in one buffer, one after the other.
    let mut bytes: Vec<u8> = Vec::new();
    for message in &messages {
        message.encode_to(&mut bytes);
    }
    let mut input: &[u8] = &bytes;
    for message in &messages {
        let (decoded, rest) = Message::decode(input).unwrap();
        match (&decoded, message) {
            (Message::Interface(a), Message::Interface(b)) => assert_eq!(a, b),
            (Message::Response(a), Message::Response(b)) => {
                assert_eq!(a.message_id, b.message_id);
                assert_eq!(a.index_in_list, b.index_in_list);
                assert_eq!(a.actual_data, b.actual_data);
            }
            (Message::ProcessDestroyed(a), Message::ProcessDestroyed(b)) => assert_eq!(a, b),
            _ => panic!(),
        }
        assert_eq!(decoded.encode(), message.clone().encode());
        input = rest;
    }
    assert!(input.is_empty());
}

#[test]
fn interface_or_destroyed_round_trip() {
    let values = vec![
        InterfaceOrDestroyed::Interface(interface_message(Some(MessageId(2)), vec![5])),
        InterfaceOrDestroyed::ProcessDestroyed(ProcessDestroyedMessage { pid: Pid(4), index_in_list: 1 }),
    ];
    for value in values {
        let mut bytes = value.encode();
        bytes.push(0xcc);
        let (decoded, rest) = InterfaceOrDestroyed::decode(&bytes).unwrap();
        assert_eq!(decoded, value.clone());
        assert_eq!(rest, &[0xcc]);
    }
}

#[test]
fn different_messages_have_different_encodings() {
    let a = interface_message(Some(MessageId(0)), vec![]).encode();
    let b = interface_message(None, vec![]).encode();
    let c = interface_message(None, vec![0]).encode();
    assert_ne!(a, b);
    assert_ne!(b, c);
}

#[test]
fn truncated_input_is_refused() {
    let bytes = Message::Interface(interface_message(Some(MessageId(1)), vec![3; 70])).encode();
    for length in 0..bytes.len() {
        assert_eq!(Message::decode(&bytes[..length]).unwrap_err(), DecodeError);
    }
    let bytes = Message::Response(ResponseMessage { message_id: MessageId(1), index_in_list: 2, actual_data: Err(()) }).encode();
    for length in 0..bytes.len() {
        assert_eq!(Message::decode(&bytes[..length]).unwrap_err(), DecodeError);
    }
    let bytes = InterfaceOrDestroyed::ProcessDestroyed(ProcessDestroyedMessage { pid: Pid(1), index_in_list: 2 }).encode();
    for length in 0..bytes.len() {
        assert_eq!(InterfaceOrDestroyed::decode(&bytes[..length]).unwrap_err(), DecodeError);
    }
}

#[test]
fn unknown_tags_are_refused() {
    let mut bytes = Message::ProcessDestroyed(ProcessDestroyedMessage { pid: Pid(1), index_in_list: 2 }).encode();
    bytes[0] = 3;
    assert!(Message::decode(&bytes).is_err());
    bytes[0] = 2;
    assert!(Message::decode(&bytes).is_ok());
    assert!(InterfaceOrDestroyed::decode(&bytes).is_err());
    bytes[0] = 1;
    assert!(InterfaceOrDestroyed::decode(&bytes).is_ok());

    // The tag of the message identifier.
    let mut bytes = interface_message(None, vec![]).encode();
    bytes[32] = 2;
    assert!(InterfaceMessage::decode(&bytes).is_err());

    // The tag of the response.
    let mut bytes = ResponseMessage { message_id: MessageId(1), index_in_list: 2, actual_data: Err(()) }.encode();
    bytes[12] = 2;
    assert!(ResponseMessage::decode(&bytes).is_err());
}

#[test]
fn length_that_takes_too_many_bytes_is_refused() {
    let short = interface_message(None, vec![9]).encode();
    let head = short[..short.len() - 2].to_vec();
    assert_eq!(short[short.len() - 2..], [4, 9]);
    for length in [vec![5, 0], vec![6, 0, 0, 0], vec![3, 1, 0, 0, 0]] {
        let mut bytes = head.clone();
        bytes.extend_from_slice(&length);
        bytes.push(9);
        assert!(InterfaceMessage::decode(&bytes).is_err());
    }
}

#[test]
fn registration_message_is_decoded_whole() {
    let mut bytes = vec![0];
    bytes.extend_from_slice(&[0x33; 32]);
    match interface::InterfaceMessage::decode(&EncodedMessage(bytes.clone())) {
        Ok(interface::InterfaceMessage::Register(hash)) => assert_eq!(hash, InterfaceHash([0x33; 32])),
        Err(_) => panic!(),
    }
    for length in 0..33 {
        assert!(interface::InterfaceMessage::decode(&EncodedMessage(bytes[..length].to_vec())).is_err());
    }
    let mut long = bytes.clone();
    long.push(1);
    assert_eq!(interface::InterfaceMessage::decode(&EncodedMessage(long)).unwrap_err(), DecodeError);
    bytes[0] = 1;
    assert!(interface::InterfaceMessage::decode(&EncodedMessage(bytes)).is_err());
}

#[test]
fn building_blocks_have_their_bytes() {
    assert_eq!(Wire::encode(&0x0102_0304u32), vec![4, 3, 2, 1]);
    assert_eq!(Wire::encode(&1u64), vec![1, 0, 0, 0, 0, 0, 0, 0]);
    assert_eq!(Wire::encode(&Some(1u32)), vec![1, 1, 0, 0, 0]);
    assert_eq!(Wire::encode(&None::<u32>), vec![0]);
    assert_eq!(Wire::encode(&(1u32, 2u32)), vec![1, 0, 0, 0, 2, 0, 0, 0]);
    assert_eq!(Wire::encode(&vec![1u8, 2]), vec![8, 1, 2]);
    assert_eq!(Wire::encode(&vec![7u8; 64])[..3], [1, 1, 7]);
    assert_eq!(Wire::encode(&vec![7u8; 16384])[..5], [2, 0, 1, 0, 7]);
    assert_eq!(<u32 as Wire>::decode(&[1, 2, 3, 4, 5]), Ok((0x0403_0201, &[5u8][..])));
    assert_eq!(<u32 as Wire>::decode(&[1, 2, 3]), Err(DecodeError));
    assert_eq!(<u64 as Wire>::decode(&[1, 2, 3, 4, 5, 6, 7]), Err(DecodeError));
    assert_eq!(<[u8; 32] as Wire>::decode(&[6; 32]), Ok(([6; 32], &[][..])));
    assert_eq!(<[u8; 32] as Wire>::decode(&[6; 31]), Err(DecodeError));
}

#[test]
fn copies_of_messages_are_equal() {
    let message = EncodedMessage(vec![1, 2, 3]);
    assert_eq!(message.clone(), message);
    let message = InterfaceOrDestroyed::Interface(interface_message(Some(MessageId(2)), vec![5]));
    assert_eq!(message.clone(), message);
}
