//! What calls on the adapter of one program give, and how calls relate to each other.
//!
//! `call_ensures(f, arguments, result)` reads: a call of `f` with these arguments may give this
//! result. A parameter that is a mutable reference stands for an adapter that is handed to a call,
//! as it is before the call and as it is after.

use crate::adapter::{
    gives, Adapter, MessageIdWriteAdapter, NativeProgramEvent, Poll, ProgramCall,
};
use crate::ids::{EncodedMessage, InterfaceHash, MessageId, Pid};
use vstd::prelude::*;

verus! {

broadcast use vstd::array::group_array_axioms;

/// A new adapter holds its program, which has registered nothing and waits for nothing.
pub proof fn law_new_adapter_is_blank<T>(
    program: T,
    adapter: Adapter<T>,
    inner: &T,
    interface: InterfaceHash,
    registered: bool,
    id: MessageId,
    waits: bool,
)
    requires
        call_ensures(Adapter::<T>::new, (program,), adapter),
        call_ensures(Adapter::<T>::inner, (&adapter,), inner),
        call_ensures(Adapter::<T>::has_registered, (&adapter, &interface), registered),
        call_ensures(Adapter::<T>::waits_for, (&adapter, id), waits),
    ensures
        *inner == program,
        adapter.program() == program,
        !registered,
        !waits,
{
}

/// What an adapter says of its program is what is known of it.
pub proof fn law_adapter_says_what_it_knows<T>(
    adapter: Adapter<T>,
    inner: &T,
    interface: InterfaceHash,
    registered: bool,
    id: MessageId,
    waits: bool,
)
    requires
        call_ensures(Adapter::<T>::inner, (&adapter,), inner),
        call_ensures(Adapter::<T>::has_registered, (&adapter, &interface), registered),
        call_ensures(Adapter::<T>::waits_for, (&adapter, id), waits),
    ensures
        *inner == adapter.program(),
        registered <==> adapter.interfaces().contains(interface.0@),
        waits <==> adapter.responses().contains(id.0),
{
}

/// The outcome of a poll is passed on as it is, but that the writer of an emission is handed on for
/// one use. If it is the emission, on the registration interface, of a zero byte followed by the 32
/// bytes of a hash, the program has then registered this hash too. Nothing else changes.
pub proof fn law_poll_is_noted_and_passed_on<T, W>(
    adapter: &mut Adapter<T>,
    registry: InterfaceHash,
    polled: Poll<NativeProgramEvent<W>>,
    outcome: Poll<NativeProgramEvent<MessageIdWriteAdapter<W>>>,
)
    ensures
        call_requires(Adapter::<T>::handle_poll::<W>, (adapter, &registry, polled)),
        call_ensures(Adapter::<T>::handle_poll::<W>, (adapter, &registry, polled), outcome) ==> {
            &&& match polled {
                Poll::Pending => outcome is Pending,
                Poll::Ready(NativeProgramEvent::CancelMessage { message_id }) => {
                    &&& outcome is Ready
                    &&& outcome->Ready_0 is CancelMessage
                    &&& (outcome->Ready_0)->CancelMessage_message_id.0 == message_id.0
                },
                Poll::Ready(NativeProgramEvent::Answer { message_id, answer }) => {
                    &&& outcome is Ready
                    &&& outcome->Ready_0 is Answer
                    &&& (outcome->Ready_0)->Answer_message_id.0 == message_id.0
                    &&& (outcome->Ready_0)->answer == answer
                },
                Poll::Ready(NativeProgramEvent::Emit { interface, message_id_write, message }) => {
                    &&& outcome is Ready
                    &&& outcome->Ready_0 is Emit
                    &&& (outcome->Ready_0)->interface.0@ == interface.0@
                    &&& (outcome->Ready_0)->message.0@ == message.0@
                    &&& (outcome->Ready_0)->message_id_write is Some <==> message_id_write is Some
                    &&& message_id_write is Some ==> (
                    outcome->Ready_0)->message_id_write->Some_0.inner == message_id_write
                },
            }
            &&& final(adapter).program() == old(adapter).program()
            &&& final(adapter).responses() == old(adapter).responses()
            &&& forall|hash: Seq<u8>| #[trigger]
                final(adapter).interfaces().contains(hash) <==> {
                    ||| old(adapter).interfaces().contains(hash)
                    ||| {
                        &&& polled is Ready
                        &&& polled->Ready_0 is Emit
                        &&& (polled->Ready_0)->interface.0@ == registry.0@
                        &&& hash.len() == 32
                        &&& (polled->Ready_0)->message.0@ == seq![0u8] + hash
                    }
                }
        },
{
    assert(forall|hash: Seq<u8>| (seq![0u8] + hash).skip(1) =~= hash);
    assert forall|bytes: Seq<u8>| bytes.len() == 33 && bytes[0] == 0 implies bytes == seq![0u8]
        + #[trigger] bytes.skip(1) by {
        assert(bytes =~= seq![0u8] + bytes.skip(1));
    }
}

/// The program is polled once, with the context that is given, and the outcome of this poll is
/// noted and passed on. The context that the poll has made is handed back.
pub proof fn law_program_is_polled_once<T, W, S, F>(
    adapter: &mut Adapter<T>,
    registry: InterfaceHash,
    cx: S,
    poll: F,
    outcome: (Poll<NativeProgramEvent<MessageIdWriteAdapter<W>>>, S),
) where F: FnOnce(S, &T) -> (Poll<NativeProgramEvent<W>>, S)
    ensures
        call_requires(poll, (cx, &old(adapter).program())) ==> call_requires(
            Adapter::<T>::poll_next_event::<W, S, F>,
            (adapter, &registry, cx, poll),
        ),
        call_ensures(
            Adapter::<T>::poll_next_event::<W, S, F>,
            (adapter, &registry, cx, poll),
            outcome,
        ) ==> exists|polled: Poll<NativeProgramEvent<W>>|
            {
                &&& #[trigger] gives(poll, cx, old(adapter).program(), polled, outcome.1)
                &&& call_ensures(poll, (cx, &old(adapter).program()), (polled, outcome.1))
                &&& match polled {
                    Poll::Pending => outcome.0 is Pending,
                    Poll::Ready(NativeProgramEvent::CancelMessage { message_id }) => {
                        &&& outcome.0 is Ready
                        &&& outcome.0->Ready_0 is CancelMessage
                        &&& (outcome.0->Ready_0)->CancelMessage_message_id.0 == message_id.0
                    },
                    Poll::Ready(NativeProgramEvent::Answer { message_id, answer }) => {
                        &&& outcome.0 is Ready
                        &&& outcome.0->Ready_0 is Answer
                        &&& (outcome.0->Ready_0)->Answer_message_id.0 == message_id.0
                        &&& (outcome.0->Ready_0)->answer == answer
                    },
                    Poll::Ready(
                        NativeProgramEvent::Emit { interface, message_id_write, message },
                    ) => {
                        let passed_on = outcome.0->Ready_0;
                        &&& outcome.0 is Ready
                        &&& passed_on is Emit
                        &&& passed_on->interface.0@ == interface.0@
                        &&& passed_on->message.0@ == message.0@
                        &&& passed_on->message_id_write is Some <==> message_id_write is Some
                        &&& message_id_write is Some ==> passed_on->message_id_write->Some_0.inner
                            == message_id_write
                    },
                }
                &&& final(adapter).program() == old(adapter).program()
                &&& final(adapter).responses() == old(adapter).responses()
                &&& forall|hash: Seq<u8>| #[trigger]
                    final(adapter).interfaces().contains(hash) <==> {
                        ||| old(adapter).interfaces().contains(hash)
                        ||| {
                            &&& polled is Ready
                            &&& polled->Ready_0 is Emit
                            &&& (polled->Ready_0)->interface.0@ == registry.0@
                            &&& hash.len() == 32
                            &&& (polled->Ready_0)->message.0@ == seq![0u8] + hash
                        }
                    }
            },
{
    assert(forall|hash: Seq<u8>| (seq![0u8] + hash).skip(1) =~= hash);
    assert forall|bytes: Seq<u8>| bytes.len() == 33 && bytes[0] == 0 implies bytes == seq![0u8]
        + #[trigger] bytes.skip(1) by {
        assert(bytes =~= seq![0u8] + bytes.skip(1));
    }
}

/// Once a program has emitted a zero byte followed by a hash on the registration interface, it has
/// registered this hash. Of the others, it has registered those that it had before.
pub proof fn law_emitted_hash_is_registered<T, W>(
    adapter: &mut Adapter<T>,
    registry: InterfaceHash,
    polled: Poll<NativeProgramEvent<W>>,
    outcome: Poll<NativeProgramEvent<MessageIdWriteAdapter<W>>>,
    interface: InterfaceHash,
    before: bool,
    after: bool,
)
    ensures
        ({
            &&& call_ensures(Adapter::<T>::has_registered, (old(adapter), &interface), before)
            &&& call_ensures(
                Adapter::<T>::handle_poll::<W>,
                (adapter, &registry, polled),
                outcome,
            )
            &&& call_ensures(Adapter::<T>::has_registered, (final(adapter), &interface), after)
        }) ==> (after <==> {
            ||| before
            ||| {
                &&& polled is Ready
                &&& polled->Ready_0 is Emit
                &&& (polled->Ready_0)->interface.0@ == registry.0@
                &&& (polled->Ready_0)->message.0@ == seq![0u8] + interface.0@
            }
        }),
{
    law_poll_is_noted_and_passed_on(adapter, registry, polled, outcome);
}

/// A message is delivered, as it is, exactly if the program has registered the interface that it
/// has arrived on, and given back otherwise.
pub proof fn law_registered_program_gets_message<T>(
    adapter: Adapter<T>,
    interface: InterfaceHash,
    registered: bool,
    message_id: Option<MessageId>,
    emitter_pid: Pid,
    message: EncodedMessage,
    delivered: Result<ProgramCall, EncodedMessage>,
)
    requires
        call_ensures(Adapter::<T>::has_registered, (&adapter, &interface), registered),
        call_ensures(
            Adapter::<T>::deliver_interface_message,
            (&adapter, interface, message_id, emitter_pid, message),
            delivered,
        ),
    ensures
        match delivered {
            Ok(call) => {
                &&& registered
                &&& call is InterfaceMessage
                &&& call->interface.0@ == interface.0@
                &&& call->InterfaceMessage_message_id == message_id
                &&& call->emitter_pid.0 == emitter_pid.0
                &&& call->message.0@ == message.0@
            },
            Err(back) => {
                &&& !registered
                &&& back.0@ == message.0@
            },
        },
{
}

/// A response is delivered, as it is, exactly if the program waits for it, and given back
/// otherwise. In either case the program does not wait for it afterwards, and goes on waiting for
/// the others.
pub proof fn law_waiting_program_gets_response<T>(
    adapter: &mut Adapter<T>,
    id: MessageId,
    response: Result<EncodedMessage, ()>,
    delivered: Result<ProgramCall, Result<EncodedMessage, ()>>,
    other: MessageId,
    waited: bool,
    before: bool,
    after: bool,
)
    ensures
        ({
            &&& call_ensures(Adapter::<T>::waits_for, (old(adapter), id), waited)
            &&& call_ensures(Adapter::<T>::waits_for, (old(adapter), other), before)
            &&& call_ensures(Adapter::<T>::deliver_response, (adapter, id, response), delivered)
            &&& call_ensures(Adapter::<T>::waits_for, (final(adapter), other), after)
        }) ==> {
            &&& match delivered {
                Ok(call) => {
                    &&& waited
                    &&& call is MessageResponse
                    &&& call->MessageResponse_message_id.0 == id.0
                    &&& call->response == response
                },
                Err(back) => {
                    &&& !waited
                    &&& back == response
                },
            }
            &&& after <==> before && other.0 != id.0
            &&& final(adapter).program() == old(adapter).program()
            &&& final(adapter).interfaces() == old(adapter).interfaces()
        },
{
}

/// Once the response to a message is to be waited for, the program waits for it, and for what it
/// has waited for before.
pub proof fn law_expected_response_is_waited_for<T>(
    adapter: &mut Adapter<T>,
    id: MessageId,
    was_inserted: bool,
    other: MessageId,
    waited: bool,
    before: bool,
    after: bool,
)
    ensures
        ({
            &&& call_ensures(Adapter::<T>::waits_for, (old(adapter), id), waited)
            &&& call_ensures(Adapter::<T>::waits_for, (old(adapter), other), before)
            &&& call_ensures(Adapter::<T>::expect_response, (adapter, id), was_inserted)
            &&& call_ensures(Adapter::<T>::waits_for, (final(adapter), other), after)
        }) ==> {
            &&& was_inserted <==> !waited
            &&& after <==> before || other.0 == id.0
            &&& final(adapter).program() == old(adapter).program()
            &&& final(adapter).interfaces() == old(adapter).interfaces()
        },
{
}

/// Acknowledging uses up the writer and makes the program wait for the response.
pub proof fn law_acknowledging_uses_up_writer<T, W>(
    write: &mut MessageIdWriteAdapter<W>,
    adapter: &mut Adapter<T>,
    id: MessageId,
    acknowledged: (W, bool),
    other: MessageId,
    waited: bool,
    before: bool,
    after: bool,
)
    ensures
        old(write).inner is Some ==> call_requires(
            MessageIdWriteAdapter::<W>::acknowledge::<T>,
            (write, adapter, id),
        ),
        ({
            &&& call_ensures(Adapter::<T>::waits_for, (old(adapter), id), waited)
            &&& call_ensures(Adapter::<T>::waits_for, (old(adapter), other), before)
            &&& call_ensures(
                MessageIdWriteAdapter::<W>::acknowledge::<T>,
                (write, adapter, id),
                acknowledged,
            )
            &&& call_ensures(Adapter::<T>::waits_for, (final(adapter), other), after)
        }) ==> {
            &&& old(write).inner == Some(acknowledged.0)
            &&& final(write).inner is None
            &&& acknowledged.1 <==> !waited
            &&& after <==> before || other.0 == id.0
            &&& final(adapter).program() == old(adapter).program()
            &&& final(adapter).interfaces() == old(adapter).interfaces()
        },
{
}

/// Taking a writer uses it up.
pub proof fn law_taking_uses_up_writer<W>(write: &mut MessageIdWriteAdapter<W>, inner: W)
    ensures
        old(write).inner is Some ==> call_requires(MessageIdWriteAdapter::<W>::take, (write,)),
        call_ensures(MessageIdWriteAdapter::<W>::take, (write,), inner) ==> {
            &&& old(write).inner == Some(inner)
            &&& final(write).inner is None
        },
{
}

/// A program is told of the process that has terminated, and of no other.
pub proof fn law_program_is_told_of_destroyed_process<T>(
    adapter: Adapter<T>,
    pid: Pid,
    call: ProgramCall,
)
    requires
        call_ensures(Adapter::<T>::process_destroyed, (&adapter, pid), call),
    ensures
        call is ProcessDestroyed,
        call->pid.0 == pid.0,
{
}

} // verus!
