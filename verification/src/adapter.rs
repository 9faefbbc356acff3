//! What is kept about one native program, and the decisions that depend on it.

use crate::ids::{EncodedMessage, InterfaceHash, MessageId, Pid};
use crate::interface::{registered_by, InterfaceMessage};
use crate::sets::{
    contains_hash, contains_number, hashes_in, insert_hash, insert_number, new_hashes, new_numbers,
    numbers_in, remove_number,
};
use hashbrown::HashSet;
use vstd::prelude::*;

verus! {

/// Outcome of polling a program once.
#[derive(Debug)]
pub enum Poll<E> {
    /// The program has produced an event.
    Ready(E),
    /// The program has nothing to report for now.
    Pending,
}

/// Event generated by a program. `W` writes the [`MessageId`] of an emitted message back to
/// the program.
#[derive(Debug)]
pub enum NativeProgramEvent<W> {
    /// Request to emit a message.
    Emit {
        /// Interface to emit the message on.
        interface: InterfaceHash,
        /// If `Some`, the program waits for an answer and must be told the [`MessageId`].
        message_id_write: Option<W>,
        /// Emitted message.
        message: EncodedMessage,
    },
    /// Request to cancel a previously-emitted message.
    CancelMessage {
        /// Message to cancel.
        message_id: MessageId,
    },
    /// Request to answer a message that was delivered to the program.
    Answer {
        /// Message to answer.
        message_id: MessageId,
        /// The produced answer, or an `Err` if the message is invalid.
        answer: Result<EncodedMessage, ()>,
    },
}

/// Call that has to be made on a program.
#[derive(Debug)]
#[allow(inconsistent_fields)]
pub enum ProgramCall {
    /// A message has arrived on one of the interfaces that the program has registered.
    InterfaceMessage {
        /// Interface that the message arrived on.
        interface: InterfaceHash,
        /// Identifier to answer with, or `None` if no answer is expected.
        message_id: Option<MessageId>,
        /// Process that has emitted the message.
        emitter_pid: Pid,
        /// Body of the message.
        message: EncodedMessage,
    },
    /// A process has terminated.
    ProcessDestroyed {
        /// Process that has terminated.
        pid: Pid,
    },
    /// A message that the program has emitted got its response.
    MessageResponse {
        /// Message that the response is about.
        message_id: MessageId,
        /// The response, or an `Err` if there is none.
        response: Result<EncodedMessage, ()>,
    },
}

/// Wraps around a program, together with the interfaces that it has registered and the messages
/// whose response it waits for.
pub struct Adapter<T> {
    inner: T,
    registered_interfaces: HashSet<[u8; 32]>,
    expected_responses: HashSet<u64>,
}

/// Writes a [`MessageId`] back to a program, once.
#[derive(Debug)]
pub struct MessageIdWriteAdapter<W> {
    /// Writer that the program has supplied, until it is used.
    pub inner: Option<W>,
}

/// The interface whose registration `event` asks for: that of a well-formed message emitted on
/// the registration interface `registry`.
pub open spec fn registration<W>(
    registry: Seq<u8>,
    event: NativeProgramEvent<W>,
) -> Option<Seq<u8>> {
    match event {
        NativeProgramEvent::Emit { interface, message, .. } => if interface@ == registry {
            registered_by(message@)
        } else {
            None
        },
        _ => None,
    }
}

/// `interfaces` once the registration that `event` may ask for is made.
pub open spec fn interfaces_after<W>(
    interfaces: Set<Seq<u8>>,
    registry: Seq<u8>,
    event: NativeProgramEvent<W>,
) -> Set<Seq<u8>> {
    match registration(registry, event) {
        Some(hash) => interfaces.insert(hash),
        None => interfaces,
    }
}

/// `event` with its writer, if any, made usable only once.
pub open spec fn with_write_adapter<W>(
    event: NativeProgramEvent<W>,
) -> NativeProgramEvent<MessageIdWriteAdapter<W>> {
    match event {
        NativeProgramEvent::Emit { interface, message_id_write, message } => {
            NativeProgramEvent::Emit {
                interface,
                message_id_write: match message_id_write {
                    Some(write) => Some(MessageIdWriteAdapter { inner: Some(write) }),
                    None => None,
                },
                message,
            }
        },
        NativeProgramEvent::CancelMessage { message_id } => {
            NativeProgramEvent::CancelMessage { message_id }
        },
        NativeProgramEvent::Answer { message_id, answer } => {
            NativeProgramEvent::Answer { message_id, answer }
        },
    }
}

/// `polled` as it is passed on: an event has its writer, if any, made usable only once.
pub open spec fn passed_on<W>(
    polled: Poll<NativeProgramEvent<W>>,
) -> Poll<NativeProgramEvent<MessageIdWriteAdapter<W>>> {
    match polled {
        Poll::Ready(event) => Poll::Ready(with_write_adapter(event)),
        Poll::Pending => Poll::Pending,
    }
}

/// `interfaces` once the registration that an event in `polled` may ask for is made.
pub open spec fn interfaces_after_poll<W>(
    interfaces: Set<Seq<u8>>,
    registry: Seq<u8>,
    polled: Poll<NativeProgramEvent<W>>,
) -> Set<Seq<u8>> {
    match polled {
        Poll::Ready(event) => interfaces_after(interfaces, registry, event),
        Poll::Pending => interfaces,
    }
}

/// One call of `poll` on `program`, given `cx`, may come back with `polled` and with what it has
/// made of `cx`, which is `next`.
pub open spec fn gives<T, W, S, F>(
    poll: F,
    cx: S,
    program: T,
    polled: Poll<NativeProgramEvent<W>>,
    next: S,
) -> bool where F: FnOnce(S, &T) -> (Poll<NativeProgramEvent<W>>, S) {
    call_ensures(poll, (cx, &program), (polled, next))
}

impl<T> Adapter<T> {
    /// The program.
    pub closed spec fn program(&self) -> T {
        self.inner
    }

    /// Interfaces that the program has registered.
    pub closed spec fn interfaces(&self) -> Set<Seq<u8>> {
        hashes_in(self.registered_interfaces)
    }

    /// Messages that the program has emitted and whose response has not come yet.
    pub closed spec fn responses(&self) -> Set<u64> {
        numbers_in(self.expected_responses)
    }

    /// Wraps around a program that has registered nothing and waits for nothing.
    pub fn new(inner: T) -> (adapter: Self)
        ensures
            adapter.program() == inner,
            adapter.interfaces() == Set::<Seq<u8>>::empty(),
            adapter.responses() == Set::<u64>::empty(),
    {
        Adapter { inner, registered_interfaces: new_hashes(), expected_responses: new_numbers() }
    }

    /// The program.
    pub fn inner(&self) -> (inner: &T)
        ensures
            *inner == self.program(),
    {
        &self.inner
    }

    /// Takes note of the outcome of a poll of the program: makes the registration that it may
    /// ask for, and passes the event on.
    pub fn handle_poll<W>(
        &mut self,
        registry: &InterfaceHash,
        polled: Poll<NativeProgramEvent<W>>,
    ) -> (outcome: Poll<NativeProgramEvent<MessageIdWriteAdapter<W>>>)
        ensures
            final(self).program() == old(self).program(),
            final(self).responses() == old(self).responses(),
            final(self).interfaces() == interfaces_after_poll(
                old(self).interfaces(),
                registry@,
                polled,
            ),
            outcome == passed_on(polled),
    {
        match polled {
            Poll::Ready(NativeProgramEvent::Emit { interface, message_id_write, message }) => {
                if interface == *registry {
                    match InterfaceMessage::decode(&message) {
                        Ok(InterfaceMessage::Register(to_reg)) => {
                            let _ = insert_hash(&mut self.registered_interfaces, to_reg.0);
                        },
                        Err(_) => {},
                    }
                }
                let message_id_write = match message_id_write {
                    Some(inner) => Some(MessageIdWriteAdapter { inner: Some(inner) }),
                    None => None,
                };
                Poll::Ready(NativeProgramEvent::Emit { interface, message_id_write, message })
            },
            Poll::Ready(NativeProgramEvent::CancelMessage { message_id }) => {
                Poll::Ready(NativeProgramEvent::CancelMessage { message_id })
            },
            Poll::Ready(NativeProgramEvent::Answer { message_id, answer }) => {
                Poll::Ready(NativeProgramEvent::Answer { message_id, answer })
            },
            Poll::Pending => Poll::Pending,
        }
    }

    /// Polls the program once with `poll`, which is given `cx`, and takes note of the outcome. The
    /// second result is what the poll has made of `cx`. Nothing but a poll turns one context into
    /// another, so that the two contexts tell the polls in between.
    pub fn poll_next_event<W, S, F>(
        &mut self,
        registry: &InterfaceHash,
        cx: S,
        poll: F,
    ) -> (outcome: (Poll<NativeProgramEvent<MessageIdWriteAdapter<W>>>, S)) where
        F: FnOnce(S, &T) -> (Poll<NativeProgramEvent<W>>, S),

        requires
            call_requires(poll, (cx, &old(self).program())),
        ensures
            final(self).program() == old(self).program(),
            final(self).responses() == old(self).responses(),
            exists|polled: Poll<NativeProgramEvent<W>>|
                {
                    &&& #[trigger] gives(poll, cx, old(self).program(), polled, outcome.1)
                    &&& outcome.0 == passed_on(polled)
                    &&& final(self).interfaces() == interfaces_after_poll(
                        old(self).interfaces(),
                        registry@,
                        polled,
                    )
                },
    {
        let (polled, next) = poll(cx, &self.inner);
        let outcome = (self.handle_poll(registry, polled), next);
        assert(gives(poll, cx, old(self).program(), polled, outcome.1));
        outcome
    }

    /// Says whether the program has registered `interface`.
    pub fn has_registered(&self, interface: &InterfaceHash) -> (registered: bool)
        ensures
            registered == self.interfaces().contains(interface@),
    {
        contains_hash(&self.registered_interfaces, &interface.0)
    }

    /// Says whether the program waits for the response to a message.
    pub fn waits_for(&self, message_id: MessageId) -> (waits: bool)
        ensures
            waits == self.responses().contains(message_id.0),
    {
        contains_number(&self.expected_responses, &message_id.0)
    }

    /// Gives the call that delivers a message which has arrived on `interface`, or gives the
    /// message back if the program has not registered `interface`.
    pub fn deliver_interface_message(
        &self,
        interface: InterfaceHash,
        message_id: Option<MessageId>,
        emitter_pid: Pid,
        message: EncodedMessage,
    ) -> (delivered: Result<ProgramCall, EncodedMessage>)
        ensures
            delivered == if self.interfaces().contains(interface@) {
                Ok::<ProgramCall, EncodedMessage>(
                    ProgramCall::InterfaceMessage { interface, message_id, emitter_pid, message },
                )
            } else {
                Err(message)
            },
    {
        if self.has_registered(&interface) {
            Ok(ProgramCall::InterfaceMessage { interface, message_id, emitter_pid, message })
        } else {
            Err(message)
        }
    }

    /// Gives the call that delivers the response to a message, which is then no longer waited
    /// for, or gives the response back if the program does not wait for it.
    pub fn deliver_response(
        &mut self,
        message_id: MessageId,
        response: Result<EncodedMessage, ()>,
    ) -> (delivered: Result<ProgramCall, Result<EncodedMessage, ()>>)
        ensures
            final(self).program() == old(self).program(),
            final(self).interfaces() == old(self).interfaces(),
            final(self).responses() == old(self).responses().remove(message_id.0),
            delivered == if old(self).responses().contains(message_id.0) {
                Ok::<ProgramCall, Result<EncodedMessage, ()>>(
                    ProgramCall::MessageResponse { message_id, response },
                )
            } else {
                Err(response)
            },
    {
        if remove_number(&mut self.expected_responses, &message_id.0) {
            Ok(ProgramCall::MessageResponse { message_id, response })
        } else {
            Err(response)
        }
    }

    /// Makes the program wait for the response to a message. The result says whether it did not
    /// wait for it already.
    pub fn expect_response(&mut self, message_id: MessageId) -> (was_inserted: bool)
        ensures
            final(self).program() == old(self).program(),
            final(self).interfaces() == old(self).interfaces(),
            final(self).responses() == old(self).responses().insert(message_id.0),
            was_inserted == !old(self).responses().contains(message_id.0),
    {
        insert_number(&mut self.expected_responses, message_id.0)
    }

    /// Gives the call that tells the program that a process has terminated.
    pub fn process_destroyed(&self, pid: Pid) -> (call: ProgramCall)
        ensures
            call == (ProgramCall::ProcessDestroyed { pid }),
    {
        ProgramCall::ProcessDestroyed { pid }
    }
}

impl<W> MessageIdWriteAdapter<W> {
    /// Uses up the writer.
    pub fn take(&mut self) -> (inner: W)
        requires
            old(self).inner is Some,
        ensures
            final(self).inner is None,
            old(self).inner == Some(inner),
    {
        self.inner.take().unwrap()
    }

    /// Uses up the writer, which the caller has to give `id` to, and makes the program behind
    /// `adapter` wait for the response to `id`. The second result says whether the program did
    /// not wait for it already.
    pub fn acknowledge<T>(
        &mut self,
        adapter: &mut Adapter<T>,
        id: MessageId,
    ) -> (acknowledged: (W, bool))
        requires
            old(self).inner is Some,
        ensures
            final(self).inner is None,
            old(self).inner == Some(acknowledged.0),
            acknowledged.1 == !old(adapter).responses().contains(id.0),
            final(adapter).program() == old(adapter).program(),
            final(adapter).interfaces() == old(adapter).interfaces(),
            final(adapter).responses() == old(adapter).responses().insert(id.0),
    {
        let inner = self.take();
        let was_inserted = adapter.expect_response(id);
        (inner, was_inserted)
    }
}

} // verus!
