//! Messages that the kernel hands to programs, and their encoding.

use crate::ids::{MessageId, Pid};
use crate::wire::{read_tag, tagged, DecodeError, Encoded, Wire};
use vstd::prelude::*;

verus! {

/// Message that a program receives.
#[derive(Debug)]
pub enum Message {
    /// A message has arrived on one of our interfaces.
    Interface(InterfaceMessage),
    /// A message that we have emitted got its response.
    Response(ResponseMessage),
    /// Whenever a process that has emitted events on one of our interfaces stops, a
    /// `ProcessDestroyed` message is sent.
    ProcessDestroyed(ProcessDestroyedMessage),
}

/// Message that has arrived on one of our interfaces.
#[derive(Debug, PartialEq, Eq)]
pub struct InterfaceMessage {
    /// Interface the message concerns.
    pub interface: [u8; 32],
    /// Id of the message. Can be used for answering. `None` if no answer is expected.
    pub message_id: Option<MessageId>,
    /// Id of the process that emitted the message.
    ///
    /// This should be used for security purposes, so that a process can't modify another process'
    /// resources.
    pub emitter_pid: Pid,
    /// Index within the list to poll where this message was.
    pub index_in_list: u32,
    /// Body of the message.
    pub actual_data: Vec<u8>,
}

/// Notice that a process has stopped.
#[derive(Debug, Clone, Copy, PartialEq, Eq)]
pub struct ProcessDestroyedMessage {
    /// Identifier of the process that got destroyed.
    pub pid: Pid,
    /// Index within the list to poll where this message was.
    pub index_in_list: u32,
}

/// The messages that do not answer one of ours.
#[derive(Debug, PartialEq, Eq)]
pub enum InterfaceOrDestroyed {
    /// A message has arrived on one of our interfaces.
    Interface(InterfaceMessage),
    /// A process has stopped.
    ProcessDestroyed(ProcessDestroyedMessage),
}

/// Response to a message that we have emitted.
#[derive(Debug)]
pub struct ResponseMessage {
    /// Identifier of the message whose answer we are receiving.
    pub message_id: MessageId,
    /// Index within the list to poll where this message was.
    pub index_in_list: u32,
    /// The response, or `Err` if:
    ///
    /// - The interface handler has crashed.
    /// - The interface handler marked our message as invalid.
    ///
    pub actual_data: Result<Vec<u8>, ()>,
}

impl Clone for InterfaceMessage {
    fn clone(&self) -> (copy: Self)
        ensures
            copy.model() == self.model(),
    {
        let actual_data = self.actual_data.clone();
        InterfaceMessage {
            interface: self.interface,
            message_id: self.message_id,
            emitter_pid: self.emitter_pid,
            index_in_list: self.index_in_list,
            actual_data,
        }
    }
}

impl Clone for ResponseMessage {
    fn clone(&self) -> (copy: Self)
        ensures
            copy.model() == self.model(),
    {
        let actual_data = match &self.actual_data {
            Ok(data) => {
                let copy = data.clone();
                Ok(copy)
            },
            Err(_) => Err(()),
        };
        ResponseMessage {
            message_id: self.message_id,
            index_in_list: self.index_in_list,
            actual_data,
        }
    }
}

impl Clone for Message {
    fn clone(&self) -> (copy: Self)
        ensures
            copy.model() == self.model(),
    {
        match self {
            Message::Interface(message) => Message::Interface(message.clone()),
            Message::Response(message) => Message::Response(message.clone()),
            Message::ProcessDestroyed(message) => Message::ProcessDestroyed(*message),
        }
    }
}

impl Clone for InterfaceOrDestroyed {
    fn clone(&self) -> (copy: Self)
        ensures
            copy.model() == self.model(),
    {
        match self {
            InterfaceOrDestroyed::Interface(message) => {
                InterfaceOrDestroyed::Interface(message.clone())
            },
            InterfaceOrDestroyed::ProcessDestroyed(message) => {
                InterfaceOrDestroyed::ProcessDestroyed(*message)
            },
        }
    }
}

/// What an [`InterfaceMessage`] holds.
pub struct InterfaceMessageModel {
    pub interface: Seq<u8>,
    pub message_id: Option<MessageId>,
    pub emitter_pid: Pid,
    pub index_in_list: u32,
    pub actual_data: Seq<u8>,
}

/// What a [`ProcessDestroyedMessage`] holds.
pub struct ProcessDestroyedMessageModel {
    pub pid: Pid,
    pub index_in_list: u32,
}

/// What a [`ResponseMessage`] holds.
pub struct ResponseMessageModel {
    pub message_id: MessageId,
    pub index_in_list: u32,
    pub actual_data: Result<Seq<u8>, ()>,
}

/// What a [`Message`] holds.
pub enum MessageModel {
    Interface(InterfaceMessageModel),
    Response(ResponseMessageModel),
    ProcessDestroyed(ProcessDestroyedMessageModel),
}

/// What an [`InterfaceOrDestroyed`] holds.
pub enum InterfaceOrDestroyedModel {
    Interface(InterfaceMessageModel),
    ProcessDestroyed(ProcessDestroyedMessageModel),
}

/// The fields of an [`InterfaceMessage`] in order, as nested pairs.
pub type InterfaceMessageFields = ([u8; 32], (Option<MessageId>, (Pid, (u32, Vec<u8>))));

impl InterfaceMessageModel {
    /// The fields in order, as nested pairs.
    pub open spec fn fields(self) -> <InterfaceMessageFields as Encoded>::Model {
        (
            self.interface,
            (self.message_id, (self.emitter_pid, (self.index_in_list, self.actual_data))),
        )
    }
}

/// An [`InterfaceMessage`] is written as its fields, one after the other.
impl Encoded for InterfaceMessage {
    type Model = InterfaceMessageModel;

    open spec fn model(&self) -> InterfaceMessageModel {
        InterfaceMessageModel {
            interface: self.interface.model(),
            message_id: self.message_id.model(),
            emitter_pid: self.emitter_pid.model(),
            index_in_list: self.index_in_list.model(),
            actual_data: self.actual_data.model(),
        }
    }

    open spec fn encodable(value: InterfaceMessageModel) -> bool {
        InterfaceMessageFields::encodable(value.fields())
    }

    open spec fn encoding(value: InterfaceMessageModel) -> Seq<u8> {
        InterfaceMessageFields::encoding(value.fields())
    }

    proof fn prefix_free(
        a: InterfaceMessageModel,
        x: Seq<u8>,
        b: InterfaceMessageModel,
        y: Seq<u8>,
    ) {
        InterfaceMessageFields::prefix_free(a.fields(), x, b.fields(), y);
    }
}

impl Wire for InterfaceMessage {
    fn encode_to(&self, dest: &mut Vec<u8>) {
        self.interface.encode_to(dest);
        self.message_id.encode_to(dest);
        self.emitter_pid.encode_to(dest);
        self.index_in_list.encode_to(dest);
        self.actual_data.encode_to(dest);
    }

    fn decode(input: &[u8]) -> (decoded: Result<(Self, &[u8]), DecodeError>) {
        match InterfaceMessageFields::decode(input) {
            Ok(((interface, (message_id, (emitter_pid, (index_in_list, actual_data)))), rest)) => {
                Ok((InterfaceMessage {
                    interface,
                    message_id,
                    emitter_pid,
                    index_in_list,
                    actual_data,
                }, rest))
            },
            Err(error) => Err(error),
        }
    }
}

/// The fields of a [`ProcessDestroyedMessage`] in order, as nested pairs.
pub type ProcessDestroyedMessageFields = (Pid, u32);

impl ProcessDestroyedMessageModel {
    /// The fields in order, as nested pairs.
    pub open spec fn fields(self) -> <ProcessDestroyedMessageFields as Encoded>::Model {
        (self.pid, self.index_in_list)
    }
}

/// A [`ProcessDestroyedMessage`] is written as its fields, one after the other.
impl Encoded for ProcessDestroyedMessage {
    type Model = ProcessDestroyedMessageModel;

    open spec fn model(&self) -> ProcessDestroyedMessageModel {
        ProcessDestroyedMessageModel {
            pid: self.pid.model(),
            index_in_list: self.index_in_list.model(),
        }
    }

    open spec fn encodable(value: ProcessDestroyedMessageModel) -> bool {
        ProcessDestroyedMessageFields::encodable(value.fields())
    }

    open spec fn encoding(value: ProcessDestroyedMessageModel) -> Seq<u8> {
        ProcessDestroyedMessageFields::encoding(value.fields())
    }

    proof fn prefix_free(
        a: ProcessDestroyedMessageModel,
        x: Seq<u8>,
        b: ProcessDestroyedMessageModel,
        y: Seq<u8>,
    ) {
        ProcessDestroyedMessageFields::prefix_free(a.fields(), x, b.fields(), y);
    }
}

impl Wire for ProcessDestroyedMessage {
    fn encode_to(&self, dest: &mut Vec<u8>) {
        self.pid.encode_to(dest);
        self.index_in_list.encode_to(dest);
    }

    fn decode(input: &[u8]) -> (decoded: Result<(Self, &[u8]), DecodeError>) {
        match ProcessDestroyedMessageFields::decode(input) {
            Ok(((pid, index_in_list), rest)) => {
                Ok((ProcessDestroyedMessage { pid, index_in_list }, rest))
            },
            Err(error) => Err(error),
        }
    }
}

/// The fields of a [`ResponseMessage`] in order, as nested pairs.
pub type ResponseMessageFields = (MessageId, (u32, Result<Vec<u8>, ()>));

impl ResponseMessageModel {
    /// The fields in order, as nested pairs.
    pub open spec fn fields(self) -> <ResponseMessageFields as Encoded>::Model {
        (self.message_id, (self.index_in_list, self.actual_data))
    }
}

/// A [`ResponseMessage`] is written as its fields, one after the other.
impl Encoded for ResponseMessage {
    type Model = ResponseMessageModel;

    open spec fn model(&self) -> ResponseMessageModel {
        ResponseMessageModel {
            message_id: self.message_id.model(),
            index_in_list: self.index_in_list.model(),
            actual_data: self.actual_data.model(),
        }
    }

    open spec fn encodable(value: ResponseMessageModel) -> bool {
        ResponseMessageFields::encodable(value.fields())
    }

    open spec fn encoding(value: ResponseMessageModel) -> Seq<u8> {
        ResponseMessageFields::encoding(value.fields())
    }

    proof fn prefix_free(
        a: ResponseMessageModel,
        x: Seq<u8>,
        b: ResponseMessageModel,
        y: Seq<u8>,
    ) {
        ResponseMessageFields::prefix_free(a.fields(), x, b.fields(), y);
    }
}

impl Wire for ResponseMessage {
    fn encode_to(&self, dest: &mut Vec<u8>) {
        self.message_id.encode_to(dest);
        self.index_in_list.encode_to(dest);
        self.actual_data.encode_to(dest);
    }

    fn decode(input: &[u8]) -> (decoded: Result<(Self, &[u8]), DecodeError>) {
        match ResponseMessageFields::decode(input) {
            Ok(((message_id, (index_in_list, actual_data)), rest)) => {
                Ok((ResponseMessage { message_id, index_in_list, actual_data }, rest))
            },
            Err(error) => Err(error),
        }
    }
}

/// A [`Message`] is written as a byte that says which variant it is, and then what the
/// variant holds.
impl Encoded for Message {
    type Model = MessageModel;

    open spec fn model(&self) -> MessageModel {
        match self {
            Message::Interface(value) => MessageModel::Interface(value.model()),
            Message::Response(value) => MessageModel::Response(value.model()),
            Message::ProcessDestroyed(value) => MessageModel::ProcessDestroyed(value.model()),
        }
    }

    open spec fn encodable(value: MessageModel) -> bool {
        match value {
            MessageModel::Interface(value) => InterfaceMessage::encodable(value),
            MessageModel::Response(value) => ResponseMessage::encodable(value),
            MessageModel::ProcessDestroyed(value) => ProcessDestroyedMessage::encodable(value),
        }
    }

    open spec fn encoding(value: MessageModel) -> Seq<u8> {
        match value {
            MessageModel::Interface(value) => tagged(0, InterfaceMessage::encoding(value)),
            MessageModel::Response(value) => tagged(1, ResponseMessage::encoding(value)),
            MessageModel::ProcessDestroyed(value) => {
                tagged(2, ProcessDestroyedMessage::encoding(value))
            },
        }
    }

    proof fn prefix_free(
        a: MessageModel,
        x: Seq<u8>,
        b: MessageModel,
        y: Seq<u8>,
    ) {
        broadcast use crate::wire::group_tagged;

        match (a, b) {
            (
                MessageModel::Interface(value_a),
                MessageModel::Interface(value_b),
            ) => {
                InterfaceMessage::prefix_free(value_a, x, value_b, y);
            },
            (
                MessageModel::Response(value_a),
                MessageModel::Response(value_b),
            ) => {
                ResponseMessage::prefix_free(value_a, x, value_b, y);
            },
            (
                MessageModel::ProcessDestroyed(value_a),
                MessageModel::ProcessDestroyed(value_b),
            ) => {
                ProcessDestroyedMessage::prefix_free(value_a, x, value_b, y);
            },
            _ => {},
        }
    }
}

impl Wire for Message {
    fn encode_to(&self, dest: &mut Vec<u8>) {
        match self {
            Message::Interface(value) => {
                dest.push(0);
                value.encode_to(dest);
            },
            Message::Response(value) => {
                dest.push(1);
                value.encode_to(dest);
            },
            Message::ProcessDestroyed(value) => {
                dest.push(2);
                value.encode_to(dest);
            },
        }
    }

    fn decode(input: &[u8]) -> (decoded: Result<(Self, &[u8]), DecodeError>) {
        broadcast use crate::wire::group_tagged;

        match read_tag(input) {
            Ok((0, rest)) => match InterfaceMessage::decode(rest) {
                Ok((value, rest)) => Ok((Message::Interface(value), rest)),
                Err(error) => Err(error),
            },
            Ok((1, rest)) => match ResponseMessage::decode(rest) {
                Ok((value, rest)) => Ok((Message::Response(value), rest)),
                Err(error) => Err(error),
            },
            Ok((2, rest)) => match ProcessDestroyedMessage::decode(rest) {
                Ok((value, rest)) => Ok((Message::ProcessDestroyed(value), rest)),
                Err(error) => Err(error),
            },
            _ => Err(DecodeError),
        }
    }
}

/// An [`InterfaceOrDestroyed`] is written as a byte that says which variant it is, and then what
/// the variant holds.
impl Encoded for InterfaceOrDestroyed {
    type Model = InterfaceOrDestroyedModel;

    open spec fn model(&self) -> InterfaceOrDestroyedModel {
        match self {
            InterfaceOrDestroyed::Interface(value) => {
                InterfaceOrDestroyedModel::Interface(value.model())
            },
            InterfaceOrDestroyed::ProcessDestroyed(value) => {
                InterfaceOrDestroyedModel::ProcessDestroyed(value.model())
            },
        }
    }

    open spec fn encodable(value: InterfaceOrDestroyedModel) -> bool {
        match value {
            InterfaceOrDestroyedModel::Interface(value) => InterfaceMessage::encodable(value),
            InterfaceOrDestroyedModel::ProcessDestroyed(value) => {
                ProcessDestroyedMessage::encodable(value)
            },
        }
    }

    open spec fn encoding(value: InterfaceOrDestroyedModel) -> Seq<u8> {
        match value {
            InterfaceOrDestroyedModel::Interface(value) => {
                tagged(0, InterfaceMessage::encoding(value))
            },
            InterfaceOrDestroyedModel::ProcessDestroyed(value) => {
                tagged(1, ProcessDestroyedMessage::encoding(value))
            },
        }
    }

    proof fn prefix_free(
        a: InterfaceOrDestroyedModel,
        x: Seq<u8>,
        b: InterfaceOrDestroyedModel,
        y: Seq<u8>,
    ) {
        broadcast use crate::wire::group_tagged;

        match (a, b) {
            (
                InterfaceOrDestroyedModel::Interface(value_a),
                InterfaceOrDestroyedModel::Interface(value_b),
            ) => {
                InterfaceMessage::prefix_free(value_a, x, value_b, y);
            },
            (
                InterfaceOrDestroyedModel::ProcessDestroyed(value_a),
                InterfaceOrDestroyedModel::ProcessDestroyed(value_b),
            ) => {
                ProcessDestroyedMessage::prefix_free(value_a, x, value_b, y);
            },
            _ => {},
        }
    }
}

impl Wire for InterfaceOrDestroyed {
    fn encode_to(&self, dest: &mut Vec<u8>) {
        match self {
            InterfaceOrDestroyed::Interface(value) => {
                dest.push(0);
                value.encode_to(dest);
            },
            InterfaceOrDestroyed::ProcessDestroyed(value) => {
                dest.push(1);
                value.encode_to(dest);
            },
        }
    }

    fn decode(input: &[u8]) -> (decoded: Result<(Self, &[u8]), DecodeError>) {
        broadcast use crate::wire::group_tagged;

        match read_tag(input) {
            Ok((0, rest)) => match InterfaceMessage::decode(rest) {
                Ok((value, rest)) => Ok((InterfaceOrDestroyed::Interface(value), rest)),
                Err(error) => Err(error),
            },
            Ok((1, rest)) => match ProcessDestroyedMessage::decode(rest) {
                Ok((value, rest)) => Ok((InterfaceOrDestroyed::ProcessDestroyed(value), rest)),
                Err(error) => Err(error),
            },
            _ => Err(DecodeError),
        }
    }
}

} // verus!
