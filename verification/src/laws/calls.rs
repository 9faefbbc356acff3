//! What calls on a collection give, and how calls relate to each other.
//!
//! `call_ensures(f, arguments, result)` reads: a call of `f` with these arguments may give this
//! result. A parameter that is a mutable reference stands for a collection that is handed to a
//! call, as it is before the call and as it is after.

use crate::adapter::{NativeProgramEvent, Poll};
use crate::collection::{
    all_pending, awaits, first_ready, Delivery, NativeProgramsCollection,
    NativeProgramsCollectionEvent, NativeProgramsCollectionMessageIdWrite, PollStep,
};
use crate::ids::{EncodedMessage, InterfaceHash, MessageId, Pid};
use crate::laws::{after_step, law_some_receiver, possible, Step};
use vstd::prelude::*;

verus! {

broadcast use vstd::array::group_array_axioms;

/// A new collection has no programs. Its registration interface is the one that it was built with.
pub proof fn law_new_is_empty<T>(registry: InterfaceHash, c: NativeProgramsCollection<T>)
    requires
        call_ensures(NativeProgramsCollection::<T>::new, (registry,), c),
    ensures
        c@.len() == 0,
        c.registry() == registry.0@,
{
}

/// A `Pid` is found exactly if it is that of one of the programs.
pub proof fn law_contains_finds_pids<T>(c: NativeProgramsCollection<T>, pid: Pid, found: bool)
    requires
        call_ensures(NativeProgramsCollection::<T>::contains, (&c, pid), found),
    ensures
        found <==> exists|i: int| 0 <= i < c@.len() && (#[trigger] c@[i]).pid.0 == pid.0,
{
}

/// A program can be pushed under any `Pid` that no program of the collection has. It comes after
/// the programs that are there, which stay as they are, and has registered nothing and waits for
/// nothing.
pub proof fn law_push_adds_program<T>(c: &mut NativeProgramsCollection<T>, pid: Pid, program: T)
    ensures
        (forall|i: int| 0 <= i < old(c)@.len() ==> (#[trigger] old(c)@[i]).pid.0 != pid.0)
            ==> call_requires(NativeProgramsCollection::<T>::push, (c, pid, program)),
        call_ensures(NativeProgramsCollection::<T>::push, (c, pid, program), ()) ==> {
            let added = final(c)@.last();
            &&& final(c)@.len() == old(c)@.len() + 1
            &&& final(c)@.drop_last() == old(c)@
            &&& added.pid.0 == pid.0
            &&& added.program == program
            &&& forall|interface: Seq<u8>| !added.interfaces.contains(interface)
            &&& forall|id: u64| !added.responses.contains(id)
            &&& final(c).registry() == old(c).registry()
        },
{
}

/// After a push, the `Pid`s that are found are those that were found before and the pushed one.
pub proof fn law_pushed_pid_is_found<T>(
    c: &mut NativeProgramsCollection<T>,
    pid: Pid,
    program: T,
    other: Pid,
    before: bool,
    after: bool,
)
    ensures
        ({
            &&& call_ensures(NativeProgramsCollection::<T>::contains, (old(c), other), before)
            &&& call_ensures(NativeProgramsCollection::<T>::push, (c, pid, program), ())
            &&& call_ensures(NativeProgramsCollection::<T>::contains, (final(c), other), after)
        }) ==> (after <==> before || other.0 == pid.0),
{
    let later = final(c)@;
    assert(later[later.len() - 1] == later.last());
    assert(forall|i: int| 0 <= i < later.len() - 1 ==> later.drop_last()[i] == #[trigger] later[i]);
}

/// The search for an event starts with the first program, if there is one.
pub proof fn law_first_program_is_polled_first<T, W>(
    c: NativeProgramsCollection<T>,
    step: PollStep<W>,
)
    requires
        call_ensures(NativeProgramsCollection::<T>::start_poll::<W>, (&c,), step),
    ensures
        c@.len() == 0 ==> step == PollStep::<W>::Done(Poll::Pending),
        c@.len() > 0 ==> step == PollStep::<W>::Poll(0),
{
}

/// A program that is pending changes nothing, and the next one is to be polled, until there is none
/// left.
pub proof fn law_pending_program_is_passed_over<T, W>(
    c: &mut NativeProgramsCollection<T>,
    index: usize,
    step: PollStep<W>,
)
    requires
        index < old(c)@.len(),
    ensures
        call_ensures(
            NativeProgramsCollection::<T>::after_poll::<W>,
            (c, index, Poll::<NativeProgramEvent<W>>::Pending),
            step,
        ) ==> {
            &&& final(c)@ == old(c)@
            &&& final(c).registry() == old(c).registry()
            &&& index + 1 == old(c)@.len() ==> step == PollStep::<W>::Done(Poll::Pending)
            &&& index + 1 < old(c)@.len() ==> step == PollStep::<W>::Poll((index + 1) as usize)
        },
{
}

/// The outcome of a poll of any of the programs can be taken note of.
pub proof fn law_any_poll_can_be_noted<T, W>(
    c: &mut NativeProgramsCollection<T>,
    index: usize,
    polled: Poll<NativeProgramEvent<W>>,
)
    requires
        index < old(c)@.len(),
    ensures
        call_requires(NativeProgramsCollection::<T>::after_poll::<W>, (c, index, polled)),
{
}

/// A polled cancellation is reported as it is, and changes nothing.
pub proof fn law_polled_cancellation_is_passed_on<T, W>(
    c: &mut NativeProgramsCollection<T>,
    index: usize,
    message_id: MessageId,
    step: PollStep<W>,
)
    requires
        index < old(c)@.len(),
    ensures
        call_ensures(
            NativeProgramsCollection::<T>::after_poll::<W>,
            (c, index, Poll::Ready(NativeProgramEvent::<W>::CancelMessage { message_id })),
            step,
        ) ==> {
            &&& final(c)@ == old(c)@
            &&& final(c).registry() == old(c).registry()
            &&& step == PollStep::Done(
                Poll::Ready(NativeProgramsCollectionEvent::<W>::CancelMessage { message_id }),
            )
        },
{
}

/// A polled answer is reported as it is, and changes nothing.
pub proof fn law_polled_answer_is_passed_on<T, W>(
    c: &mut NativeProgramsCollection<T>,
    index: usize,
    message_id: MessageId,
    answer: Result<EncodedMessage, ()>,
    step: PollStep<W>,
)
    requires
        index < old(c)@.len(),
    ensures
        call_ensures(
            NativeProgramsCollection::<T>::after_poll::<W>,
            (c, index, Poll::Ready(NativeProgramEvent::<W>::Answer { message_id, answer })),
            step,
        ) ==> {
            &&& final(c)@ == old(c)@
            &&& final(c).registry() == old(c).registry()
            &&& step == PollStep::Done(
                Poll::Ready(NativeProgramsCollectionEvent::<W>::Answer { message_id, answer }),
            )
        },
{
}

/// A polled emission is reported as it is, with the `Pid` of the polled program. A handle comes
/// with it exactly if the program has supplied a writer, and holds that writer. If the message is a
/// zero byte followed by a hash, and was emitted on the registration interface, then the polled
/// program has registered this hash too. Nothing else changes.
pub proof fn law_polled_emission_is_reported<T, W>(
    c: &mut NativeProgramsCollection<T>,
    index: usize,
    interface: InterfaceHash,
    message_id_write: Option<W>,
    message: EncodedMessage,
    step: PollStep<W>,
)
    requires
        index < old(c)@.len(),
    ensures
        call_ensures(
            NativeProgramsCollection::<T>::after_poll::<W>,
            (
                c,
                index,
                Poll::Ready(NativeProgramEvent::Emit { interface, message_id_write, message }),
            ),
            step,
        ) ==> {
            let k = index as int;
            &&& step matches PollStep::Done(Poll::Ready(reported))
            &&& reported is Emit
            &&& reported->interface.0@ == interface.0@
            &&& reported->emitter_pid.0 == old(c)@[k].pid.0
            &&& reported->message.0@ == message.0@
            &&& reported->message_id_write is Some <==> message_id_write is Some
            &&& reported->message_id_write matches Some(handle) ==> {
                &&& handle.process() == k
                &&& handle.writer() == message_id_write
            }
            &&& final(c)@.len() == old(c)@.len()
            &&& forall|i: int| 0 <= i < old(c)@.len() && i != k ==> final(c)@[i] == old(c)@[i]
            &&& final(c)@[k].pid == old(c)@[k].pid
            &&& final(c)@[k].program == old(c)@[k].program
            &&& final(c)@[k].responses == old(c)@[k].responses
            &&& forall|hash: Seq<u8>| #[trigger]
                final(c)@[k].interfaces.contains(hash) <==> {
                    ||| old(c)@[k].interfaces.contains(hash)
                    ||| {
                        &&& interface.0@ == old(c).registry()
                        &&& hash.len() == 32
                        &&& message.0@ == seq![0u8] + hash
                    }
                }
            &&& final(c).registry() == old(c).registry()
        },
{
    assert(forall|hash: Seq<u8>| (seq![0u8] + hash).skip(1) =~= hash);
    if message.0@.len() == 33 && message.0@[0] == 0 {
        assert(message.0@ =~= seq![0u8] + message.0@.skip(1));
    }
}

/// Programs are polled in order, from the first on, each with the context that the poll before it
/// has made, until one is ready. Its event is what is reported: a cancellation and an answer as
/// they are, an emission with the `Pid` of the program, and with a handle exactly if the program
/// has supplied a writer. If the message of an emission is a zero byte followed by a hash, and was
/// emitted on the registration interface, then the program has registered this hash too. Nothing
/// else changes.
pub proof fn law_next_event_reports_first_event<T, W, S, F>(
    c: &mut NativeProgramsCollection<T>,
    cx: S,
    poll: F,
    outcome: (Poll<NativeProgramsCollectionEvent<W>>, S),
) where F: Fn(S, &T) -> (Poll<NativeProgramEvent<W>>, S)
    ensures
        call_ensures(
            NativeProgramsCollection::<T>::next_event::<W, S, F>,
            (c, cx, poll),
            outcome,
        ) ==> match outcome.0 {
            Poll::Pending => exists|cxs: Seq<S>|
                {
                    &&& #[trigger] all_pending(old(c)@, poll, cxs)
                    &&& cxs.len() == old(c)@.len() + 1
                    &&& cxs[0] == cx
                    &&& cxs[old(c)@.len() as int] == outcome.1
                    &&& forall|i: int|
                        0 <= i < old(c)@.len() ==> call_ensures(
                            poll,
                            (cxs[i], &(#[trigger] old(c)@[i]).program),
                            (Poll::<NativeProgramEvent<W>>::Pending, cxs[i + 1]),
                        )
                    &&& final(c)@ == old(c)@
                    &&& final(c).registry() == old(c).registry()
                },
            Poll::Ready(reported) => exists|cxs: Seq<S>, k: int, event: NativeProgramEvent<W>|
                {
                    &&& #[trigger] first_ready(old(c)@, poll, cxs, k, event)
                    &&& 0 <= k < old(c)@.len()
                    &&& cxs.len() == k + 2
                    &&& cxs[0] == cx
                    &&& cxs[k + 1] == outcome.1
                    &&& forall|i: int|
                        0 <= i < k ==> call_ensures(
                            poll,
                            (cxs[i], &(#[trigger] old(c)@[i]).program),
                            (Poll::<NativeProgramEvent<W>>::Pending, cxs[i + 1]),
                        )
                    &&& call_ensures(
                        poll,
                        (cxs[k], &old(c)@[k].program),
                        (Poll::Ready(event), cxs[k + 1]),
                    )
                    &&& match event {
                        NativeProgramEvent::CancelMessage { message_id } => {
                            &&& reported is CancelMessage
                            &&& reported->CancelMessage_message_id == message_id
                        },
                        NativeProgramEvent::Answer { message_id, answer } => {
                            &&& reported is Answer
                            &&& reported->Answer_message_id == message_id
                            &&& reported->answer == answer
                        },
                        NativeProgramEvent::Emit { interface, message_id_write, message } => {
                            &&& reported is Emit
                            &&& reported->interface.0@ == interface.0@
                            &&& reported->emitter_pid.0 == old(c)@[k].pid.0
                            &&& reported->message.0@ == message.0@
                            &&& reported->message_id_write is Some <==> message_id_write is Some
                            &&& reported->message_id_write matches Some(handle) ==> {
                                &&& handle.process() == k
                                &&& handle.writer() == message_id_write
                            }
                        },
                    }
                    &&& final(c)@.len() == old(c)@.len()
                    &&& forall|i: int|
                        0 <= i < old(c)@.len() && i != k ==> final(c)@[i] == old(c)@[i]
                    &&& final(c)@[k].pid == old(c)@[k].pid
                    &&& final(c)@[k].program == old(c)@[k].program
                    &&& final(c)@[k].responses == old(c)@[k].responses
                    &&& forall|hash: Seq<u8>| #[trigger]
                        final(c)@[k].interfaces.contains(hash) <==> {
                            ||| old(c)@[k].interfaces.contains(hash)
                            ||| {
                                &&& event is Emit
                                &&& event->interface.0@ == old(c).registry()
                                &&& hash.len() == 32
                                &&& event->message.0@ == seq![0u8] + hash
                            }
                        }
                    &&& final(c).registry() == old(c).registry()
                },
        },
{
    assert(forall|hash: Seq<u8>| (seq![0u8] + hash).skip(1) =~= hash);
    assert forall|bytes: Seq<u8>| bytes.len() == 33 && bytes[0] == 0 implies bytes == seq![0u8]
        + #[trigger] bytes.skip(1) by {
        assert(bytes =~= seq![0u8] + bytes.skip(1));
    }
    let polled = old(c)@;
    assert forall|cxs: Seq<S>, k: int, event: NativeProgramEvent<W>, i: int|
        #[trigger] first_ready(polled, poll, cxs, k, event) && 0 <= i < k implies call_ensures(
        poll,
        (cxs[i], &(#[trigger] polled[i]).program),
        (Poll::<NativeProgramEvent<W>>::Pending, cxs[i + 1]),
    ) by {
        assert(polled.take(k)[i] == polled[i]);
        assert(cxs.drop_last()[i] == cxs[i]);
        assert(cxs.drop_last()[i + 1] == cxs[i + 1]);
    }
}

/// An event can be searched for whenever the programs can be polled.
pub proof fn law_next_event_is_possible<T, W, S, F>(
    c: &mut NativeProgramsCollection<T>,
    cx: S,
    poll: F,
) where F: Fn(S, &T) -> (Poll<NativeProgramEvent<W>>, S)
    requires
        forall|given: S, program: &T| #[trigger] call_requires(poll, (given, program)),
    ensures
        call_requires(NativeProgramsCollection::<T>::next_event::<W, S, F>, (c, cx, poll)),
{
}

/// An interface is handled exactly if one of the programs has registered it.
pub proof fn law_registered_interfaces_are_handled<T>(
    c: NativeProgramsCollection<T>,
    interface: InterfaceHash,
    handled: bool,
)
    requires
        call_ensures(NativeProgramsCollection::<T>::handles_interface, (&c, &interface), handled),
    ensures
        handled <==> exists|i: int|
            0 <= i < c@.len() && (#[trigger] c@[i]).interfaces.contains(interface.0@),
{
    law_some_receiver(c@, interface@, 0);
}

/// Once a program has emitted a zero byte followed by a hash on the registration interface, this
/// hash is handled. The other interfaces are handled exactly if they were before.
pub proof fn law_emission_makes_interface_handled<T, W, S, F>(
    c: &mut NativeProgramsCollection<T>,
    cx: S,
    poll: F,
    outcome: (Poll<NativeProgramsCollectionEvent<W>>, S),
    interface: InterfaceHash,
    before: bool,
    after: bool,
) where F: Fn(S, &T) -> (Poll<NativeProgramEvent<W>>, S)
    ensures
        ({
            &&& call_ensures(
                NativeProgramsCollection::<T>::handles_interface,
                (old(c), &interface),
                before,
            )
            &&& call_ensures(
                NativeProgramsCollection::<T>::next_event::<W, S, F>,
                (c, cx, poll),
                outcome,
            )
            &&& call_ensures(
                NativeProgramsCollection::<T>::handles_interface,
                (final(c), &interface),
                after,
            )
        }) ==> (after <==> {
            ||| before
            ||| {
                &&& outcome.0 matches Poll::Ready(reported)
                &&& reported is Emit
                &&& reported->interface.0@ == old(c).registry()
                &&& reported->message.0@ == seq![0u8] + interface.0@
            }
        }),
{
    law_next_event_reports_first_event(c, cx, poll, outcome);
    law_some_receiver(old(c)@, interface@, 0);
    law_some_receiver(final(c)@, interface@, 0);
}

/// A message that arrives on an interface that some program has registered can be delivered. It
/// goes, as it is, to the first program that has registered the interface.
pub proof fn law_message_is_delivered<T>(
    c: NativeProgramsCollection<T>,
    interface: InterfaceHash,
    message_id: Option<MessageId>,
    emitter_pid: Pid,
    message: EncodedMessage,
    delivery: Delivery<'_, T>,
)
    ensures
        (exists|i: int| 0 <= i < c@.len() && (#[trigger] c@[i]).interfaces.contains(interface.0@))
            ==> call_requires(
            NativeProgramsCollection::<T>::interface_message,
            (&c, interface, message_id, emitter_pid, message),
        ),
        call_ensures(
            NativeProgramsCollection::<T>::interface_message,
            (&c, interface, message_id, emitter_pid, message),
            delivery,
        ) ==> {
            &&& delivery.call is InterfaceMessage
            &&& delivery.call->interface.0@ == interface.0@
            &&& delivery.call->InterfaceMessage_message_id == message_id
            &&& delivery.call->emitter_pid.0 == emitter_pid.0
            &&& delivery.call->message.0@ == message.0@
            &&& exists|k: int|
                {
                    &&& 0 <= k < c@.len()
                    &&& (#[trigger] c@[k]).interfaces.contains(interface.0@)
                    &&& delivery.pid.0 == c@[k].pid.0
                    &&& *delivery.program == c@[k].program
                    &&& forall|i: int|
                        0 <= i < k ==> !(#[trigger] c@[i]).interfaces.contains(interface.0@)
                }
        },
{
    law_some_receiver(c@, interface@, 0);
}

/// A response is expected exactly if one of the programs waits for it.
pub proof fn law_awaited_responses_are_expected<T>(
    c: NativeProgramsCollection<T>,
    id: MessageId,
    expected: bool,
)
    requires
        call_ensures(NativeProgramsCollection::<T>::expects_response, (&c, id), expected),
    ensures
        expected <==> exists|i: int|
            0 <= i < c@.len() && (#[trigger] c@[i]).responses.contains(id.0),
{
    law_some_receiver(c@, Seq::empty(), id.0);
}

/// A response that some program waits for can be delivered. It goes, as it is, to the first program
/// that waits for it, which waits for it no longer. Nothing else changes.
pub proof fn law_response_is_delivered<T>(
    c: &mut NativeProgramsCollection<T>,
    id: MessageId,
    response: Result<EncodedMessage, ()>,
    delivery: Delivery<'_, T>,
)
    ensures
        (exists|i: int| 0 <= i < old(c)@.len() && (#[trigger] old(c)@[i]).responses.contains(id.0))
            ==> call_requires(NativeProgramsCollection::<T>::message_response, (c, id, response)),
        call_ensures(
            NativeProgramsCollection::<T>::message_response,
            (c, id, response),
            delivery,
        ) ==> {
            &&& delivery.call is MessageResponse
            &&& delivery.call->MessageResponse_message_id.0 == id.0
            &&& delivery.call->response == response
            &&& exists|k: int|
                {
                    &&& 0 <= k < old(c)@.len()
                    &&& (#[trigger] old(c)@[k]).responses.contains(id.0)
                    &&& delivery.pid.0 == old(c)@[k].pid.0
                    &&& *delivery.program == old(c)@[k].program
                    &&& forall|i: int|
                        0 <= i < k ==> !(#[trigger] old(c)@[i]).responses.contains(id.0)
                    &&& final(c)@.len() == old(c)@.len()
                    &&& forall|i: int|
                        0 <= i < old(c)@.len() && i != k ==> final(c)@[i] == old(c)@[i]
                    &&& final(c)@[k].pid == old(c)@[k].pid
                    &&& final(c)@[k].program == old(c)@[k].program
                    &&& final(c)@[k].interfaces == old(c)@[k].interfaces
                    &&& forall|other: u64| #[trigger]
                        final(c)@[k].responses.contains(other) <==> old(
                            c,
                        )@[k].responses.contains(other) && other != id.0
                }
            &&& final(c).registry() == old(c).registry()
        },
{
    law_some_receiver(old(c)@, Seq::empty(), id.0);
}

/// Acknowledging a handle gives back its writer and makes the process of the handle, and no other,
/// wait for the response. Nothing else changes.
pub proof fn law_acknowledged_message_is_waited_for<T, W>(
    handle: NativeProgramsCollectionMessageIdWrite<W>,
    c: &mut NativeProgramsCollection<T>,
    id: MessageId,
    acknowledged: (W, bool),
)
    requires
        0 <= handle.process() < old(c)@.len(),
    ensures
        handle.writer() is Some ==> call_requires(
            NativeProgramsCollectionMessageIdWrite::<W>::acknowledge::<T>,
            (handle, c, id),
        ),
        call_ensures(
            NativeProgramsCollectionMessageIdWrite::<W>::acknowledge::<T>,
            (handle, c, id),
            acknowledged,
        ) ==> {
            let k = handle.process();
            &&& handle.writer() == Some(acknowledged.0)
            &&& acknowledged.1 <==> !old(c)@[k].responses.contains(id.0)
            &&& final(c)@.len() == old(c)@.len()
            &&& forall|i: int| 0 <= i < old(c)@.len() && i != k ==> final(c)@[i] == old(c)@[i]
            &&& final(c)@[k].pid == old(c)@[k].pid
            &&& final(c)@[k].program == old(c)@[k].program
            &&& final(c)@[k].interfaces == old(c)@[k].interfaces
            &&& forall|other: u64| #[trigger]
                final(c)@[k].responses.contains(other) <==> old(c)@[k].responses.contains(other)
                    || other == id.0
            &&& final(c).registry() == old(c).registry()
        },
{
}

/// Taking the writer of a handle and then noting that the response is waited for comes to the same
/// as acknowledging the handle.
pub proof fn law_acknowledging_in_two_parts<T, W>(
    handle: &mut NativeProgramsCollectionMessageIdWrite<W>,
    a: &mut NativeProgramsCollection<T>,
    b: &mut NativeProgramsCollection<T>,
    id: MessageId,
    acknowledged: (W, bool),
    write: W,
    was_inserted: bool,
)
    requires
        *old(a) == *old(b),
        0 <= old(handle).process() < old(a)@.len(),
    ensures
        old(handle).writer() is Some ==> call_requires(
            NativeProgramsCollectionMessageIdWrite::<W>::take_writer,
            (handle,),
        ),
        call_ensures(NativeProgramsCollectionMessageIdWrite::<W>::take_writer, (handle,), write)
            ==> call_requires(
            NativeProgramsCollectionMessageIdWrite::<W>::expect_response::<T>,
            (*final(handle), b, id),
        ),
        ({
            &&& call_ensures(
                NativeProgramsCollectionMessageIdWrite::<W>::acknowledge::<T>,
                (*old(handle), a, id),
                acknowledged,
            )
            &&& call_ensures(
                NativeProgramsCollectionMessageIdWrite::<W>::take_writer,
                (handle,),
                write,
            )
            &&& call_ensures(
                NativeProgramsCollectionMessageIdWrite::<W>::expect_response::<T>,
                (*final(handle), b, id),
                was_inserted,
            )
        }) ==> {
            &&& acknowledged == (write, was_inserted)
            &&& final(a)@ == final(b)@
            &&& final(a).registry() == final(b).registry()
        },
{
}

/// Once a handle is acknowledged, the responses that are expected are those that were before and
/// the one to the acknowledged message.
pub proof fn law_acknowledged_message_is_expected<T, W>(
    handle: NativeProgramsCollectionMessageIdWrite<W>,
    c: &mut NativeProgramsCollection<T>,
    id: MessageId,
    acknowledged: (W, bool),
    other: MessageId,
    before: bool,
    after: bool,
)
    requires
        0 <= handle.process() < old(c)@.len(),
    ensures
        ({
            &&& call_ensures(
                NativeProgramsCollection::<T>::expects_response,
                (old(c), other),
                before,
            )
            &&& call_ensures(
                NativeProgramsCollectionMessageIdWrite::<W>::acknowledge::<T>,
                (handle, c, id),
                acknowledged,
            )
            &&& call_ensures(
                NativeProgramsCollection::<T>::expects_response,
                (final(c), other),
                after,
            )
        }) ==> (after <==> before || other.0 == id.0),
{
    law_acknowledged_message_is_waited_for(handle, c, id, acknowledged);
    law_some_receiver(old(c)@, Seq::empty(), other.0);
    law_some_receiver(final(c)@, Seq::empty(), other.0);
}

/// The response to a message goes to the program that has emitted it: if an emission is reported
/// with a handle, the handle is acknowledged with an identifier that nobody waited for, and the
/// response to it comes, then the response is delivered, as it is, under the `Pid` that was
/// reported, and is expected no longer.
pub proof fn law_response_goes_to_emitter<T, W, S, F>(
    c: &mut NativeProgramsCollection<T>,
    cx: S,
    poll: F,
    outcome: (Poll<NativeProgramsCollectionEvent<W>>, S),
    handle: NativeProgramsCollectionMessageIdWrite<W>,
    d: &mut NativeProgramsCollection<T>,
    id: MessageId,
    acknowledged: (W, bool),
    e: &mut NativeProgramsCollection<T>,
    response: Result<EncodedMessage, ()>,
    delivery: Delivery<'_, T>,
    before: bool,
    after: bool,
) where F: Fn(S, &T) -> (Poll<NativeProgramEvent<W>>, S)
    ensures
        ({
            &&& call_ensures(
                NativeProgramsCollection::<T>::expects_response,
                (old(c), id),
                before,
            )
            &&& !before
            &&& call_ensures(
                NativeProgramsCollection::<T>::next_event::<W, S, F>,
                (c, cx, poll),
                outcome,
            )
            &&& outcome.0 matches Poll::Ready(reported)
            &&& reported is Emit
            &&& reported->message_id_write == Some(handle)
            &&& *final(c) == *old(d)
            &&& call_ensures(
                NativeProgramsCollectionMessageIdWrite::<W>::acknowledge::<T>,
                (handle, d, id),
                acknowledged,
            )
            &&& *final(d) == *old(e)
            &&& call_ensures(
                NativeProgramsCollection::<T>::message_response,
                (e, id, response),
                delivery,
            )
            &&& call_ensures(
                NativeProgramsCollection::<T>::expects_response,
                (final(e), id),
                after,
            )
        }) ==> {
            &&& acknowledged.1
            &&& outcome.0 matches Poll::Ready(reported)
            &&& delivery.pid.0 == reported->emitter_pid.0
            &&& delivery.call is MessageResponse
            &&& delivery.call->MessageResponse_message_id.0 == id.0
            &&& delivery.call->response == response
            &&& !after
        },
{
    law_next_event_reports_first_event(c, cx, poll, outcome);
    law_some_receiver(old(c)@, Seq::empty(), id.0);
    law_some_receiver(final(e)@, Seq::empty(), id.0);
    law_response_is_delivered(e, id, response, delivery);
}

/// All the programs, in order, are told of a process that has terminated, and nothing changes.
pub proof fn law_all_are_told_of_destroyed_process<T>(
    c: &mut NativeProgramsCollection<T>,
    pid: Pid,
    deliveries: Vec<Delivery<'_, T>>,
)
    ensures
        call_requires(NativeProgramsCollection::<T>::process_destroyed, (c, pid)),
        call_ensures(NativeProgramsCollection::<T>::process_destroyed, (c, pid), deliveries) ==> {
            &&& deliveries@.len() == old(c)@.len()
            &&& forall|i: int|
                0 <= i < old(c)@.len() ==> {
                    &&& (#[trigger] deliveries@[i]).pid.0 == old(c)@[i].pid.0
                    &&& *deliveries@[i].program == old(c)@[i].program
                    &&& deliveries@[i].call is ProcessDestroyed
                    &&& deliveries@[i].call->pid.0 == pid.0
                }
            &&& final(c)@ == old(c)@
            &&& final(c).registry() == old(c).registry()
        },
{
}

/// Calls that change a collection are steps, so that what holds after any steps holds after any
/// calls.
pub proof fn law_calls_are_steps<T, W>(
    c: &mut NativeProgramsCollection<T>,
    pid: Pid,
    program: T,
    index: usize,
    event: NativeProgramEvent<W>,
    step: PollStep<W>,
    handle: NativeProgramsCollectionMessageIdWrite<W>,
    id: MessageId,
    acknowledged: (W, bool),
)
    requires
        index < old(c)@.len(),
        0 <= handle.process() < old(c)@.len(),
    ensures
        call_ensures(NativeProgramsCollection::<T>::push, (c, pid, program), ()) ==> final(c)@
            == after_step(old(c)@, old(c).registry(), Step::<T, W>::Push { pid, program }),
        call_ensures(
            NativeProgramsCollection::<T>::after_poll::<W>,
            (c, index, Poll::Ready(event)),
            step,
        ) ==> final(c)@ == after_step(
            old(c)@,
            old(c).registry(),
            Step::Event { process: index as int, event },
        ),
        call_ensures(
            NativeProgramsCollectionMessageIdWrite::<W>::acknowledge::<T>,
            (handle, c, id),
            acknowledged,
        ) ==> final(c)@ == after_step(
            old(c)@,
            old(c).registry(),
            Step::<T, W>::Acknowledge { process: handle.process(), id: id.0 },
        ),
{
}

/// The delivery of a response is a step of the program that the response goes to.
pub proof fn law_delivery_is_step<T, W>(
    c: &mut NativeProgramsCollection<T>,
    id: MessageId,
    response: Result<EncodedMessage, ()>,
    delivery: Delivery<'_, T>,
)
    ensures
        call_ensures(
            NativeProgramsCollection::<T>::message_response,
            (c, id, response),
            delivery,
        ) ==> exists|k: int|
            {
                let step = Step::<T, W>::Response { process: k, id: id.0 };
                &&& #[trigger] awaits(old(c)@, id.0, k)
                &&& possible(old(c)@, step)
                &&& delivery.pid.0 == old(c)@[k].pid.0
                &&& final(c)@ == after_step(old(c)@, old(c).registry(), step)
            },
{
}

} // verus!
