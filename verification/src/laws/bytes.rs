//! Which bytes messages are written as, and what is read back from bytes.
//!
//! `call_ensures(f, arguments, result)` reads: a call of `f` with these arguments may give this
//! result.

use crate::ffi::{
    InterfaceMessage, InterfaceOrDestroyed, Message, ProcessDestroyedMessage, ResponseMessage,
};
use crate::ids::{EncodedMessage, InterfaceHash, MessageId, Pid};
use crate::interface;
use crate::scale::{le_bytes, lemma_le_bytes_len, length_bytes};
use crate::wire::{DecodeError, Encoded, Wire};
use vstd::arithmetic::div_mod::lemma_div_denominator;
use vstd::arithmetic::power::{lemma_pow0, lemma_pow_positive, pow};
use vstd::prelude::*;

verus! {

broadcast use vstd::array::group_array_axioms;

/// The bytes of a number are its digits to the base 256, lowest first.
pub proof fn law_number_bytes_are_digits(number: nat, count: nat, i: int)
    requires
        0 <= i < count,
    ensures
        le_bytes(number, count).len() == count,
        le_bytes(number, count)[i] == (number as int / pow(256, i as nat)) % 256,
    decreases count,
{
    let less = (count - 1) as nat;
    lemma_le_bytes_len(number, count);
    if i == 0 {
        lemma_pow0(256);
        assert(le_bytes(number, count)[0] == (number % 256) as u8);
    } else {
        let j = (i - 1) as nat;
        law_number_bytes_are_digits(number / 256, less, j as int);
        lemma_pow_positive(256, j);
        lemma_div_denominator(number as int, 256, pow(256, j));
        reveal(pow);
        assert(le_bytes(number, count)[i] == le_bytes(number / 256, less)[j as int]);
    }
}

/// A length is written in one, two, four or five bytes, as few as can hold it.
pub proof fn law_length_bytes_are_few(length: nat)
    requires
        length <= u32::MAX,
    ensures
        ({
            let bytes = length_bytes(length);
            if length < 0x40 {
                &&& bytes.len() == 1
                &&& bytes[0] == 4 * length
            } else if length < 0x4000 {
                &&& bytes.len() == 2
                &&& bytes[0] + 0x100 * bytes[1] == 4 * length + 1
            } else if length < 0x4000_0000 {
                &&& bytes.len() == 4
                &&& bytes[0] + 0x100 * bytes[1] + 0x1_0000 * bytes[2] + 0x100_0000 * bytes[3] == 4
                    * length + 2
            } else {
                &&& bytes.len() == 5
                &&& bytes[0] == 3
                &&& bytes[1] + 0x100 * bytes[2] + 0x1_0000 * bytes[3] + 0x100_0000 * bytes[4]
                    == length
            }
        }),
{
    reveal_with_fuel(le_bytes, 5);
}

/// A `u32` is written as its four bytes, lowest first.
pub proof fn law_u32_is_written_as_digits(number: u32, bytes: Vec<u8>)
    requires
        call_ensures(<u32 as Wire>::encode, (&number,), bytes),
    ensures
        bytes@.len() == 4,
        bytes@[0] + 0x100 * bytes@[1] + 0x1_0000 * bytes@[2] + 0x100_0000 * bytes@[3] == number,
{
    reveal_with_fuel(le_bytes, 5);
}

/// A `u64` is written as its eight bytes, lowest first.
pub proof fn law_u64_is_written_as_digits(number: u64, bytes: Vec<u8>)
    requires
        call_ensures(<u64 as Wire>::encode, (&number,), bytes),
    ensures
        bytes@.len() == 8,
        bytes@[0] + 0x100 * bytes@[1] + 0x1_0000 * bytes@[2] + 0x100_0000 * bytes@[3]
            + 0x1_0000_0000 * bytes@[4] + 0x100_0000_0000 * bytes@[5] + 0x1_0000_0000_0000
            * bytes@[6] + 0x100_0000_0000_0000 * bytes@[7] == number,
{
    reveal_with_fuel(le_bytes, 9);
}

/// Identifiers are written as the number that they hold.
pub proof fn law_identifiers_are_written_as_numbers(
    pid: Pid,
    pid_bytes: Vec<u8>,
    id: MessageId,
    id_bytes: Vec<u8>,
)
    requires
        call_ensures(<Pid as Wire>::encode, (&pid,), pid_bytes),
        call_ensures(<MessageId as Wire>::encode, (&id,), id_bytes),
    ensures
        pid_bytes@ == le_bytes(pid.0 as nat, 8),
        id_bytes@ == le_bytes(id.0 as nat, 8),
{
}

/// A hash is written as its bytes, and a list of bytes as its length and then its bytes.
pub proof fn law_raw_bytes_are_written_in_order(
    hash: [u8; 32],
    hash_bytes: Vec<u8>,
    list: Vec<u8>,
    list_bytes: Vec<u8>,
)
    requires
        call_ensures(<[u8; 32] as Wire>::encode, (&hash,), hash_bytes),
        call_ensures(<Vec<u8> as Wire>::encode, (&list,), list_bytes),
    ensures
        hash_bytes@ == hash@,
        list_bytes@ == length_bytes(list@.len()) + list@,
{
}

/// `None` is written as a zero byte, and `Some` as a one followed by what it holds.
pub proof fn law_option_is_written_with_tag<D: Wire>(
    value: D,
    value_bytes: Vec<u8>,
    none_bytes: Vec<u8>,
    some_bytes: Vec<u8>,
)
    requires
        call_ensures(<D as Wire>::encode, (&value,), value_bytes),
        call_ensures(<Option<D> as Wire>::encode, (&None::<D>,), none_bytes),
        call_ensures(<Option<D> as Wire>::encode, (&Some(value),), some_bytes),
    ensures
        none_bytes@ == seq![0u8],
        some_bytes@ == seq![1u8] + value_bytes@,
{
}

/// `Ok` is written as a zero byte followed by what it holds, and `Err` as a one.
pub proof fn law_result_is_written_with_tag<D: Wire>(
    value: D,
    value_bytes: Vec<u8>,
    ok_bytes: Vec<u8>,
    err_bytes: Vec<u8>,
)
    requires
        call_ensures(<D as Wire>::encode, (&value,), value_bytes),
        call_ensures(<Result<D, ()> as Wire>::encode, (&Ok::<D, ()>(value),), ok_bytes),
        call_ensures(<Result<D, ()> as Wire>::encode, (&Err::<D, ()>(()),), err_bytes),
    ensures
        ok_bytes@ == seq![0u8] + value_bytes@,
        err_bytes@ == seq![1u8],
{
}

/// A pair is written as its first component followed by its second.
pub proof fn law_pair_is_written_in_order<A: Wire, B: Wire>(
    a: A,
    a_bytes: Vec<u8>,
    b: B,
    b_bytes: Vec<u8>,
    pair_bytes: Vec<u8>,
)
    requires
        call_ensures(<A as Wire>::encode, (&a,), a_bytes),
        call_ensures(<B as Wire>::encode, (&b,), b_bytes),
        call_ensures(<(A, B) as Wire>::encode, (&(a, b),), pair_bytes),
    ensures
        pair_bytes@ == a_bytes@ + b_bytes@,
{
}

/// An [`InterfaceMessage`] is written as its fields, in order: the bytes of the interface, the
/// message identifier after a byte that says whether there is one, the emitter, the index, and the
/// body after its length.
pub proof fn law_interface_message_bytes(message: InterfaceMessage, bytes: Vec<u8>)
    requires
        call_ensures(<InterfaceMessage as Wire>::encode, (&message,), bytes),
    ensures
        bytes@ == message.interface@ + (match message.message_id {
            None => seq![0u8],
            Some(id) => seq![1u8] + le_bytes(id.0 as nat, 8),
        }) + le_bytes(message.emitter_pid.0 as nat, 8) + le_bytes(message.index_in_list as nat, 4)
            + length_bytes(message.actual_data@.len()) + message.actual_data@,
        bytes@.take(32) == message.interface@,
{
}

/// A [`ResponseMessage`] is written as its fields, in order: the message identifier, the index, and
/// the body after its length, if there is one, after a byte that says whether there is.
pub proof fn law_response_message_bytes(message: ResponseMessage, bytes: Vec<u8>)
    requires
        call_ensures(<ResponseMessage as Wire>::encode, (&message,), bytes),
    ensures
        bytes@ == le_bytes(message.message_id.0 as nat, 8) + le_bytes(
            message.index_in_list as nat,
            4,
        ) + (match message.actual_data {
            Ok(data) => seq![0u8] + length_bytes(data@.len()) + data@,
            Err(_) => seq![1u8],
        }),
{
}

/// A [`ProcessDestroyedMessage`] is written as its fields, in order: the `Pid` and the index.
pub proof fn law_process_destroyed_message_bytes(message: ProcessDestroyedMessage, bytes: Vec<u8>)
    requires
        call_ensures(<ProcessDestroyedMessage as Wire>::encode, (&message,), bytes),
    ensures
        bytes@ == le_bytes(message.pid.0 as nat, 8) + le_bytes(message.index_in_list as nat, 4),
{
}

/// A [`Message`] is written as what its variant holds, after a zero byte for the first variant, a
/// one for the second and a two for the third.
pub proof fn law_message_bytes(
    message: Message,
    bytes: Vec<u8>,
    interface_bytes: Vec<u8>,
    response_bytes: Vec<u8>,
    destroyed_bytes: Vec<u8>,
)
    requires
        call_ensures(<Message as Wire>::encode, (&message,), bytes),
        message matches Message::Interface(held) ==> call_ensures(
            <InterfaceMessage as Wire>::encode,
            (&held,),
            interface_bytes,
        ),
        message matches Message::Response(held) ==> call_ensures(
            <ResponseMessage as Wire>::encode,
            (&held,),
            response_bytes,
        ),
        message matches Message::ProcessDestroyed(held) ==> call_ensures(
            <ProcessDestroyedMessage as Wire>::encode,
            (&held,),
            destroyed_bytes,
        ),
    ensures
        message is Interface ==> bytes@ == seq![0u8] + interface_bytes@,
        message is Response ==> bytes@ == seq![1u8] + response_bytes@,
        message is ProcessDestroyed ==> bytes@ == seq![2u8] + destroyed_bytes@,
{
}

/// An [`InterfaceOrDestroyed`] is written as what its variant holds, after a zero byte for the
/// first variant and a one for the second.
pub proof fn law_interface_or_destroyed_bytes(
    message: InterfaceOrDestroyed,
    bytes: Vec<u8>,
    interface_bytes: Vec<u8>,
    destroyed_bytes: Vec<u8>,
)
    requires
        call_ensures(<InterfaceOrDestroyed as Wire>::encode, (&message,), bytes),
        message matches InterfaceOrDestroyed::Interface(held) ==> call_ensures(
            <InterfaceMessage as Wire>::encode,
            (&held,),
            interface_bytes,
        ),
        message matches InterfaceOrDestroyed::ProcessDestroyed(held) ==> call_ensures(
            <ProcessDestroyedMessage as Wire>::encode,
            (&held,),
            destroyed_bytes,
        ),
    ensures
        message is Interface ==> bytes@ == seq![0u8] + interface_bytes@,
        message is ProcessDestroyed ==> bytes@ == seq![1u8] + destroyed_bytes@,
{
}

/// A message can be written exactly if its body, where it has one, is no longer than a length can
/// say.
pub proof fn law_short_messages_can_be_written(
    interface: InterfaceMessage,
    response: ResponseMessage,
    destroyed: ProcessDestroyedMessage,
    message: Message,
    other: InterfaceOrDestroyed,
)
    ensures
        interface.actual_data@.len() <= u32::MAX ==> call_requires(
            <InterfaceMessage as Wire>::encode,
            (&interface,),
        ),
        response.actual_data is Err || response.actual_data->Ok_0@.len() <= u32::MAX
            ==> call_requires(<ResponseMessage as Wire>::encode, (&response,)),
        call_requires(<ProcessDestroyedMessage as Wire>::encode, (&destroyed,)),
        (match message {
            Message::Interface(held) => held.actual_data@.len() <= u32::MAX,
            Message::Response(held) => held.actual_data is Err || held.actual_data->Ok_0@.len()
                <= u32::MAX,
            Message::ProcessDestroyed(_) => true,
        }) ==> call_requires(<Message as Wire>::encode, (&message,)),
        (match other {
            InterfaceOrDestroyed::Interface(held) => held.actual_data@.len() <= u32::MAX,
            InterfaceOrDestroyed::ProcessDestroyed(_) => true,
        }) ==> call_requires(<InterfaceOrDestroyed as Wire>::encode, (&other,)),
{
}

/// Appending the encoding of a value to bytes leaves these bytes in front.
pub proof fn law_encoding_is_appended<D: Wire>(value: D, dest: &mut Vec<u8>, bytes: Vec<u8>)
    ensures
        ({
            &&& call_ensures(<D as Wire>::encode, (&value,), bytes)
            &&& call_ensures(<D as Wire>::encode_to, (&value, dest), ())
        }) ==> final(dest)@ == old(dest)@ + bytes@,
{
}

/// Reading bytes that start with the encoding of a value gives back the value, and what follows it.
pub proof fn law_written_value_is_read_back<D: Wire>(
    value: D,
    bytes: Vec<u8>,
    rest: Seq<u8>,
    input: &[u8],
    decoded: Result<(D, &[u8]), DecodeError>,
)
    requires
        D::encodable(value.model()),
        call_ensures(<D as Wire>::encode, (&value,), bytes),
        input@ == bytes@ + rest,
        call_ensures(<D as Wire>::decode, (input,), decoded),
    ensures
        decoded is Ok,
        decoded->Ok_0.0.model() == value.model(),
        decoded->Ok_0.1@ == rest,
{
    match decoded {
        Ok((again, left)) => {
            D::prefix_free(value.model(), rest, again.model(), left@);
        },
        Err(_) => {
            assert(input@ != D::encoding(value.model()) + rest);
        },
    }
}

/// What is read from bytes is a value whose encoding they start with, and what follows it.
pub proof fn law_read_value_was_written<D: Wire>(
    input: &[u8],
    decoded: Result<(D, &[u8]), DecodeError>,
    bytes: Vec<u8>,
)
    requires
        call_ensures(<D as Wire>::decode, (input,), decoded),
        decoded is Ok,
        call_ensures(<D as Wire>::encode, (&decoded->Ok_0.0,), bytes),
    ensures
        call_requires(<D as Wire>::encode, (&decoded->Ok_0.0,)),
        input@ == bytes@ + decoded->Ok_0.1@,
{
}

/// An [`InterfaceMessage`] that was written is read back field by field.
pub proof fn law_interface_message_is_read_back(
    message: InterfaceMessage,
    bytes: Vec<u8>,
    rest: Seq<u8>,
    input: &[u8],
    decoded: Result<(InterfaceMessage, &[u8]), DecodeError>,
)
    requires
        message.actual_data@.len() <= u32::MAX,
        call_ensures(<InterfaceMessage as Wire>::encode, (&message,), bytes),
        input@ == bytes@ + rest,
        call_ensures(<InterfaceMessage as Wire>::decode, (input,), decoded),
    ensures
        decoded is Ok,
        ({
            let (again, left) = decoded->Ok_0;
            &&& again.interface@ == message.interface@
            &&& again.message_id == message.message_id
            &&& again.emitter_pid.0 == message.emitter_pid.0
            &&& again.index_in_list == message.index_in_list
            &&& again.actual_data@ == message.actual_data@
            &&& left@ == rest
        }),
{
    law_written_value_is_read_back(message, bytes, rest, input, decoded);
}

/// A [`ResponseMessage`] that was written is read back field by field.
pub proof fn law_response_message_is_read_back(
    message: ResponseMessage,
    bytes: Vec<u8>,
    rest: Seq<u8>,
    input: &[u8],
    decoded: Result<(ResponseMessage, &[u8]), DecodeError>,
)
    requires
        message.actual_data matches Ok(data) ==> data@.len() <= u32::MAX,
        call_ensures(<ResponseMessage as Wire>::encode, (&message,), bytes),
        input@ == bytes@ + rest,
        call_ensures(<ResponseMessage as Wire>::decode, (input,), decoded),
    ensures
        decoded is Ok,
        ({
            let (again, left) = decoded->Ok_0;
            &&& again.message_id.0 == message.message_id.0
            &&& again.index_in_list == message.index_in_list
            &&& again.actual_data is Ok <==> message.actual_data is Ok
            &&& message.actual_data is Ok ==> again.actual_data->Ok_0@
                == message.actual_data->Ok_0@
            &&& left@ == rest
        }),
{
    law_written_value_is_read_back(message, bytes, rest, input, decoded);
}

/// A [`ProcessDestroyedMessage`] that was written is read back field by field.
pub proof fn law_process_destroyed_message_is_read_back(
    message: ProcessDestroyedMessage,
    bytes: Vec<u8>,
    rest: Seq<u8>,
    input: &[u8],
    decoded: Result<(ProcessDestroyedMessage, &[u8]), DecodeError>,
)
    requires
        call_ensures(<ProcessDestroyedMessage as Wire>::encode, (&message,), bytes),
        input@ == bytes@ + rest,
        call_ensures(<ProcessDestroyedMessage as Wire>::decode, (input,), decoded),
    ensures
        decoded is Ok,
        ({
            let (again, left) = decoded->Ok_0;
            &&& again.pid.0 == message.pid.0
            &&& again.index_in_list == message.index_in_list
            &&& left@ == rest
        }),
{
    law_written_value_is_read_back(message, bytes, rest, input, decoded);
}

/// A [`Message`] that was written is read back with the same variant, which holds the same.
pub proof fn law_message_is_read_back(
    message: Message,
    bytes: Vec<u8>,
    rest: Seq<u8>,
    input: &[u8],
    decoded: Result<(Message, &[u8]), DecodeError>,
)
    requires
        match message {
            Message::Interface(held) => held.actual_data@.len() <= u32::MAX,
            Message::Response(held) => held.actual_data is Err || held.actual_data->Ok_0@.len()
                <= u32::MAX,
            Message::ProcessDestroyed(_) => true,
        },
        call_ensures(<Message as Wire>::encode, (&message,), bytes),
        input@ == bytes@ + rest,
        call_ensures(<Message as Wire>::decode, (input,), decoded),
    ensures
        decoded is Ok,
        decoded->Ok_0.1@ == rest,
        match (message, decoded->Ok_0.0) {
            (Message::Interface(held), Message::Interface(again)) => {
                &&& again.interface@ == held.interface@
                &&& again.message_id == held.message_id
                &&& again.emitter_pid.0 == held.emitter_pid.0
                &&& again.index_in_list == held.index_in_list
                &&& again.actual_data@ == held.actual_data@
            },
            (Message::Response(held), Message::Response(again)) => {
                &&& again.message_id.0 == held.message_id.0
                &&& again.index_in_list == held.index_in_list
                &&& again.actual_data is Ok <==> held.actual_data is Ok
                &&& held.actual_data is Ok ==> again.actual_data->Ok_0@ == held.actual_data->Ok_0@
            },
            (Message::ProcessDestroyed(held), Message::ProcessDestroyed(again)) => {
                &&& again.pid.0 == held.pid.0
                &&& again.index_in_list == held.index_in_list
            },
            _ => false,
        },
{
    law_written_value_is_read_back(message, bytes, rest, input, decoded);
}

/// An [`InterfaceOrDestroyed`] that was written is read back with the same variant, which holds the
/// same.
pub proof fn law_interface_or_destroyed_is_read_back(
    message: InterfaceOrDestroyed,
    bytes: Vec<u8>,
    rest: Seq<u8>,
    input: &[u8],
    decoded: Result<(InterfaceOrDestroyed, &[u8]), DecodeError>,
)
    requires
        message matches InterfaceOrDestroyed::Interface(held) ==> held.actual_data@.len()
            <= u32::MAX,
        call_ensures(<InterfaceOrDestroyed as Wire>::encode, (&message,), bytes),
        input@ == bytes@ + rest,
        call_ensures(<InterfaceOrDestroyed as Wire>::decode, (input,), decoded),
    ensures
        decoded is Ok,
        decoded->Ok_0.1@ == rest,
        match (message, decoded->Ok_0.0) {
            (InterfaceOrDestroyed::Interface(held), InterfaceOrDestroyed::Interface(again)) => {
                &&& again.interface@ == held.interface@
                &&& again.message_id == held.message_id
                &&& again.emitter_pid.0 == held.emitter_pid.0
                &&& again.index_in_list == held.index_in_list
                &&& again.actual_data@ == held.actual_data@
            },
            (
                InterfaceOrDestroyed::ProcessDestroyed(held),
                InterfaceOrDestroyed::ProcessDestroyed(again),
            ) => {
                &&& again.pid.0 == held.pid.0
                &&& again.index_in_list == held.index_in_list
            },
            _ => false,
        },
{
    law_written_value_is_read_back(message, bytes, rest, input, decoded);
}

/// The copy of a message holds the same as the message.
pub proof fn law_copies_are_equal(
    interface: InterfaceMessage,
    interface_copy: InterfaceMessage,
    response: ResponseMessage,
    response_copy: ResponseMessage,
    body: EncodedMessage,
    body_copy: EncodedMessage,
)
    requires
        call_ensures(<InterfaceMessage as Clone>::clone, (&interface,), interface_copy),
        call_ensures(<ResponseMessage as Clone>::clone, (&response,), response_copy),
        call_ensures(<EncodedMessage as Clone>::clone, (&body,), body_copy),
    ensures
        interface_copy.interface@ == interface.interface@,
        interface_copy.message_id == interface.message_id,
        interface_copy.emitter_pid.0 == interface.emitter_pid.0,
        interface_copy.index_in_list == interface.index_in_list,
        interface_copy.actual_data@ == interface.actual_data@,
        response_copy.message_id.0 == response.message_id.0,
        response_copy.index_in_list == response.index_in_list,
        response_copy.actual_data is Ok <==> response.actual_data is Ok,
        response.actual_data is Ok ==> response_copy.actual_data->Ok_0@
            == response.actual_data->Ok_0@,
        body_copy.0@ == body.0@,
{
}

/// The copy of a message with variants has the same variant, which holds the same.
pub proof fn law_copies_have_the_same_variant(
    message: Message,
    message_copy: Message,
    other: InterfaceOrDestroyed,
    other_copy: InterfaceOrDestroyed,
)
    requires
        call_ensures(<Message as Clone>::clone, (&message,), message_copy),
        call_ensures(<InterfaceOrDestroyed as Clone>::clone, (&other,), other_copy),
    ensures
        match (message, message_copy) {
            (Message::Interface(held), Message::Interface(copy)) => {
                &&& copy.interface@ == held.interface@
                &&& copy.message_id == held.message_id
                &&& copy.emitter_pid.0 == held.emitter_pid.0
                &&& copy.index_in_list == held.index_in_list
                &&& copy.actual_data@ == held.actual_data@
            },
            (Message::Response(held), Message::Response(copy)) => {
                &&& copy.message_id.0 == held.message_id.0
                &&& copy.index_in_list == held.index_in_list
                &&& copy.actual_data is Ok <==> held.actual_data is Ok
                &&& held.actual_data is Ok ==> copy.actual_data->Ok_0@ == held.actual_data->Ok_0@
            },
            (Message::ProcessDestroyed(held), Message::ProcessDestroyed(copy)) => {
                &&& copy.pid.0 == held.pid.0
                &&& copy.index_in_list == held.index_in_list
            },
            _ => false,
        },
        match (other, other_copy) {
            (InterfaceOrDestroyed::Interface(held), InterfaceOrDestroyed::Interface(copy)) => {
                &&& copy.interface@ == held.interface@
                &&& copy.message_id == held.message_id
                &&& copy.emitter_pid.0 == held.emitter_pid.0
                &&& copy.index_in_list == held.index_in_list
                &&& copy.actual_data@ == held.actual_data@
            },
            (
                InterfaceOrDestroyed::ProcessDestroyed(held),
                InterfaceOrDestroyed::ProcessDestroyed(copy),
            ) => {
                &&& copy.pid.0 == held.pid.0
                &&& copy.index_in_list == held.index_in_list
            },
            _ => false,
        },
{
}

/// Two interface hashes are equal exactly if all their bytes are.
pub proof fn law_hashes_are_equal_if_bytes_are(a: InterfaceHash, b: InterfaceHash, equal: bool)
    requires
        call_ensures(<InterfaceHash as PartialEq>::eq, (&a, &b), equal),
    ensures
        equal <==> forall|i: int| 0 <= i < 32 ==> a.0@[i] == b.0@[i],
{
    if forall|i: int| 0 <= i < 32 ==> a.0@[i] == b.0@[i] {
        assert(a.0@ =~= b.0@);
    }
}

/// A message asks to register a hash exactly if it is a zero byte followed by the 32 bytes of the
/// hash, in order.
pub proof fn law_registration_is_read_in_order(
    message: EncodedMessage,
    decoded: Result<interface::InterfaceMessage, DecodeError>,
    hash: Seq<u8>,
)
    requires
        call_ensures(interface::InterfaceMessage::decode, (&message,), decoded),
    ensures
        (decoded is Ok && (decoded->Ok_0)->Register_0.0@ == hash) <==> (hash.len() == 32
            && message.0@ == seq![0u8] + hash),
{
    assert((seq![0u8] + hash).skip(1) =~= hash);
    if message.0@.len() == 33 && message.0@[0] == 0 {
        assert(message.0@ =~= seq![0u8] + message.0@.skip(1));
    }
}

} // verus!
