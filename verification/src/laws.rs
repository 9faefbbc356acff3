//! What holds of collections, of polls and of encodings as a whole.
//!
//! What is stated here is about steps that happen to a collection. [`calls`] says the same and more
//! of the calls that make these steps, [`adapters`] of the calls on the adapter of one program, and
//! [`bytes`] of the calls that write and read messages.

use crate::adapter::{gives, registration, NativeProgramEvent, Poll};
use crate::collection::{
    all_pending, answered, awaits, distinct_pids, expecting, first_ready, fresh, handles, has_pid,
    is_awaited, is_handled, kept, process_after, Process,
};
use crate::ids::Pid;
use crate::interface::registered_by;
use crate::wire::{decodes_to, Encoded};
use vstd::prelude::*;

pub mod adapters;
pub mod bytes;
pub mod calls;

verus! {

/// Something that happens to a collection.
pub enum Step<T, W> {
    /// A program is pushed.
    Push { pid: Pid, program: T },
    /// The program at index `process` has generated an event.
    Event { process: int, event: NativeProgramEvent<W> },
    /// The emission of a message by the program at index `process` is acknowledged.
    Acknowledge { process: int, id: u64 },
    /// The response to a message is delivered to the program at index `process`.
    Response { process: int, id: u64 },
}

/// `step` can happen to a collection of `processes`.
pub open spec fn possible<T, W>(processes: Seq<Process<T>>, step: Step<T, W>) -> bool {
    match step {
        Step::Push { pid, .. } => !has_pid(processes, pid),
        Step::Event { process, .. } => 0 <= process < processes.len(),
        Step::Acknowledge { process, .. } => 0 <= process < processes.len(),
        Step::Response { process, id } => awaits(processes, id, process),
    }
}

/// What `step` makes of `processes`: what the contracts of `push`, `next_event`, `acknowledge` and
/// `message_response` say of the collection afterwards.
pub open spec fn after_step<T, W>(
    processes: Seq<Process<T>>,
    registry: Seq<u8>,
    step: Step<T, W>,
) -> Seq<Process<T>> {
    match step {
        Step::Push { pid, program } => processes.push(fresh(pid, program)),
        Step::Event { process, event } => processes.update(
            process,
            process_after(processes[process], registry, event),
        ),
        Step::Acknowledge { process, id } => processes.update(
            process,
            expecting(processes[process], id),
        ),
        Step::Response { process, id } => processes.update(
            process,
            answered(processes[process], id),
        ),
    }
}

/// The processes of a collection that was built empty and to which `steps` have happened since.
pub open spec fn after_steps<T, W>(registry: Seq<u8>, steps: Seq<Step<T, W>>) -> Seq<Process<T>>
    decreases steps.len(),
{
    if steps.len() == 0 {
        Seq::empty()
    } else {
        after_step(after_steps(registry, steps.drop_last()), registry, steps.last())
    }
}

/// `steps` can happen one after the other to a collection that was built empty.
pub open spec fn all_possible<T, W>(registry: Seq<u8>, steps: Seq<Step<T, W>>) -> bool
    decreases steps.len(),
{
    steps.len() > 0 ==> {
        &&& all_possible(registry, steps.drop_last())
        &&& possible(after_steps(registry, steps.drop_last()), steps.last())
    }
}

/// `step` is an event of the program at index `k` that asks to register `interface`.
pub open spec fn registers<T, W>(
    step: Step<T, W>,
    registry: Seq<u8>,
    k: int,
    interface: Seq<u8>,
) -> bool {
    step matches Step::Event { process, event } && process == k && registration(registry, event)
        == Some(interface)
}

/// In `steps`, the program at index `k` has asked to register `interface`.
pub open spec fn has_asked<T, W>(
    registry: Seq<u8>,
    steps: Seq<Step<T, W>>,
    k: int,
    interface: Seq<u8>,
) -> bool {
    exists|j: int| 0 <= j < steps.len() && registers(#[trigger] steps[j], registry, k, interface)
}

/// The programs that are pushed in `steps`, in order, each with its `Pid`.
pub open spec fn pushed<T, W>(steps: Seq<Step<T, W>>) -> Seq<(Pid, T)>
    decreases steps.len(),
{
    if steps.len() == 0 {
        Seq::empty()
    } else {
        match steps.last() {
            Step::Push { pid, program } => pushed(steps.drop_last()).push((pid, program)),
            _ => pushed(steps.drop_last()),
        }
    }
}

/// Message `id` is still to be answered after `steps`: the program at index `k` got its emission
/// acknowledged, and got no response to it since.
pub open spec fn unanswered<T, W>(steps: Seq<Step<T, W>>, k: int, id: u64) -> bool {
    exists|j: int|
        {
            &&& 0 <= j < steps.len()
            &&& #[trigger] steps[j] == Step::<T, W>::Acknowledge { process: k, id }
            &&& forall|l: int|
                j < l < steps.len() ==> #[trigger] steps[l] != Step::<T, W>::Response {
                    process: k,
                    id,
                }
        }
}

/// Whatever happens to a collection, no two of its programs have the same `Pid`.
pub proof fn law_pids_stay_distinct<T, W>(registry: Seq<u8>, steps: Seq<Step<T, W>>)
    requires
        all_possible(registry, steps),
    ensures
        distinct_pids(after_steps(registry, steps)),
    decreases steps.len(),
{
    if steps.len() > 0 {
        law_pids_stay_distinct(registry, steps.drop_last());
    }
}

/// The processes of a collection are those that were pushed, in the order in which they were.
pub proof fn law_processes_are_those_pushed<T, W>(registry: Seq<u8>, steps: Seq<Step<T, W>>)
    requires
        all_possible(registry, steps),
    ensures
        after_steps(registry, steps).len() == pushed(steps).len(),
        forall|k: int|
            0 <= k < pushed(steps).len() ==> {
                let process = #[trigger] after_steps(registry, steps)[k];
                pushed(steps)[k] == (process.pid, process.program)
            },
    decreases steps.len(),
{
    if steps.len() > 0 {
        law_processes_are_those_pushed(registry, steps.drop_last());
    }
}

/// A process that is in a collection stays in it, at its index, with its `Pid`, its program and
/// the interfaces that it has registered, whatever happens afterwards.
pub proof fn law_processes_are_kept<T, W>(
    registry: Seq<u8>,
    steps: Seq<Step<T, W>>,
    earlier: int,
)
    requires
        all_possible(registry, steps),
        0 <= earlier <= steps.len(),
    ensures
        kept(after_steps(registry, steps.take(earlier)), after_steps(registry, steps)),
    decreases steps.len(),
{
    if earlier == steps.len() {
        assert(steps.take(earlier) =~= steps);
    } else {
        let before = steps.drop_last();
        law_processes_are_kept(registry, before, earlier);
        assert(before.take(earlier) =~= steps.take(earlier));
    }
}

/// The interfaces that a program has registered are those that its events have asked to
/// register, and no others.
pub proof fn law_interfaces_come_from_events<T, W>(
    registry: Seq<u8>,
    steps: Seq<Step<T, W>>,
    k: int,
    interface: Seq<u8>,
)
    requires
        all_possible(registry, steps),
        0 <= k < after_steps(registry, steps).len(),
    ensures
        after_steps(registry, steps)[k].interfaces.contains(interface) <==> has_asked(
            registry,
            steps,
            k,
            interface,
        ),
    decreases steps.len(),
{
    let before = steps.drop_last();
    let processes = after_steps(registry, before);
    assert(forall|j: int| 0 <= j < before.len() ==> before[j] == #[trigger] steps[j]);
    if k < processes.len() {
        law_interfaces_come_from_events(registry, before, k, interface);
    } else {
        lemma_no_step_of_missing_process(registry, before, k);
    }
}

/// Until a program is pushed at index `k`, no step is about it.
proof fn lemma_no_step_of_missing_process<T, W>(
    registry: Seq<u8>,
    steps: Seq<Step<T, W>>,
    k: int,
)
    requires
        all_possible(registry, steps),
        k >= after_steps(registry, steps).len(),
    ensures
        forall|j: int|
            0 <= j < steps.len() ==> match #[trigger] steps[j] {
                Step::Push { .. } => true,
                Step::Event { process, .. } => process != k,
                Step::Acknowledge { process, .. } => process != k,
                Step::Response { process, .. } => process != k,
            },
    decreases steps.len(),
{
    if steps.len() > 0 {
        let before = steps.drop_last();
        lemma_no_step_of_missing_process(registry, before, k);
        assert(forall|j: int| 0 <= j < before.len() ==> before[j] == #[trigger] steps[j]);
    }
}

/// A program waits for the response to a message exactly if the emission of the message was
/// acknowledged and the response has not been delivered to the program since.
pub proof fn law_responses_are_those_unanswered<T, W>(
    registry: Seq<u8>,
    steps: Seq<Step<T, W>>,
    k: int,
    id: u64,
)
    requires
        all_possible(registry, steps),
        0 <= k < after_steps(registry, steps).len(),
    ensures
        after_steps(registry, steps)[k].responses.contains(id) <==> unanswered(steps, k, id),
    decreases steps.len(),
{
    let before = steps.drop_last();
    let processes = after_steps(registry, before);
    assert(forall|j: int| 0 <= j < before.len() ==> before[j] == #[trigger] steps[j]);
    if k < processes.len() {
        law_responses_are_those_unanswered(registry, before, k, id);
    } else {
        lemma_no_step_of_missing_process(registry, before, k);
    }
}

/// A message that arrives on an interface goes to the first of the programs, in the order in which
/// they were pushed, that has ever asked to register the interface, and to no other.
pub proof fn law_message_goes_to_first_registrant<T, W>(
    registry: Seq<u8>,
    steps: Seq<Step<T, W>>,
    interface: Seq<u8>,
    k: int,
)
    requires
        all_possible(registry, steps),
        0 <= k < after_steps(registry, steps).len(),
    ensures
        handles(after_steps(registry, steps), interface, k) <==> {
            &&& has_asked(registry, steps, k, interface)
            &&& forall|i: int| 0 <= i < k ==> !#[trigger] has_asked(registry, steps, i, interface)
        },
{
    let processes = after_steps(registry, steps);
    assert forall|i: int|
        #![trigger has_asked(registry, steps, i, interface)]
        #![trigger processes[i]]
        0 <= i <= k implies has_asked(registry, steps, i, interface)
        == processes[i].interfaces.contains(interface) by {
        law_interfaces_come_from_events(registry, steps, i, interface);
    }
}

/// The response to a message goes to the first of the programs, in the order in which they were
/// pushed, for which the message is still to be answered, and to no other.
pub proof fn law_response_goes_to_first_unanswered<T, W>(
    registry: Seq<u8>,
    steps: Seq<Step<T, W>>,
    id: u64,
    k: int,
)
    requires
        all_possible(registry, steps),
        0 <= k < after_steps(registry, steps).len(),
    ensures
        awaits(after_steps(registry, steps), id, k) <==> {
            &&& unanswered(steps, k, id)
            &&& forall|i: int| 0 <= i < k ==> !#[trigger] unanswered(steps, i, id)
        },
{
    let processes = after_steps(registry, steps);
    assert forall|i: int|
        #![trigger unanswered(steps, i, id)]
        #![trigger processes[i]]
        0 <= i <= k implies unanswered(steps, i, id) == processes[i].responses.contains(id) by {
        law_responses_are_those_unanswered(registry, steps, i, id);
    }
}

/// At most one program handles an interface, and at most one awaits a response: which program a
/// message or a response goes to is never open.
pub proof fn law_receiver_is_unique<T>(
    processes: Seq<Process<T>>,
    interface: Seq<u8>,
    id: u64,
    a: int,
    b: int,
)
    ensures
        handles(processes, interface, a) && handles(processes, interface, b) ==> a == b,
        awaits(processes, id, a) && awaits(processes, id, b) ==> a == b,
{
}

/// Some program handles an interface exactly if some program has registered it, and the same of
/// programs that await a response.
pub proof fn law_some_receiver<T>(processes: Seq<Process<T>>, interface: Seq<u8>, id: u64)
    ensures
        is_handled(processes, interface) <==> exists|i: int|
            0 <= i < processes.len() && (#[trigger] processes[i]).interfaces.contains(interface),
        is_awaited(processes, id) <==> exists|i: int|
            0 <= i < processes.len() && (#[trigger] processes[i]).responses.contains(id),
{
    if exists|i: int|
        0 <= i < processes.len() && (#[trigger] processes[i]).interfaces.contains(interface) {
        let i = choose|i: int|
            0 <= i < processes.len() && (#[trigger] processes[i]).interfaces.contains(interface);
        lemma_first_handler(processes, interface, i);
    }
    if exists|i: int| 0 <= i < processes.len() && (#[trigger] processes[i]).responses.contains(id) {
        let i = choose|i: int|
            0 <= i < processes.len() && (#[trigger] processes[i]).responses.contains(id);
        lemma_first_waiting(processes, id, i);
    }
}

proof fn lemma_first_handler<T>(processes: Seq<Process<T>>, interface: Seq<u8>, i: int)
    requires
        0 <= i < processes.len(),
        processes[i].interfaces.contains(interface),
    ensures
        exists|k: int| k <= i && handles(processes, interface, k),
    decreases i,
{
    if exists|l: int| 0 <= l < i && (#[trigger] processes[l]).interfaces.contains(interface) {
        let l = choose|l: int|
            0 <= l < i && (#[trigger] processes[l]).interfaces.contains(interface);
        lemma_first_handler(processes, interface, l);
    } else {
        assert(handles(processes, interface, i));
    }
}

proof fn lemma_first_waiting<T>(processes: Seq<Process<T>>, id: u64, i: int)
    requires
        0 <= i < processes.len(),
        processes[i].responses.contains(id),
    ensures
        exists|k: int| k <= i && awaits(processes, id, k),
    decreases i,
{
    if exists|l: int| 0 <= l < i && (#[trigger] processes[l]).responses.contains(id) {
        let l = choose|l: int| 0 <= l < i && (#[trigger] processes[l]).responses.contains(id);
        lemma_first_waiting(processes, id, l);
    } else {
        assert(awaits(processes, id, i));
    }
}

/// Once a program has asked to register an interface, messages on that interface have a
/// receiver: this program, or one that was pushed before it.
pub proof fn law_registration_finds_receiver<T, W>(
    processes: Seq<Process<T>>,
    registry: Seq<u8>,
    process: int,
    event: NativeProgramEvent<W>,
    interface: Seq<u8>,
)
    requires
        0 <= process < processes.len(),
        registration(registry, event) == Some(interface),
    ensures
        exists|k: int|
            k <= process && handles(
                after_step(processes, registry, Step::Event { process, event }),
                interface,
                k,
            ),
{
    let later = after_step(processes, registry, Step::Event { process, event });
    lemma_first_handler(later, interface, process);
}

/// The program that handles an interface goes on handling it, whatever happens to the collection,
/// unless a program that was pushed before it registers the same interface.
pub proof fn law_handler_stays<T, W>(
    processes: Seq<Process<T>>,
    registry: Seq<u8>,
    step: Step<T, W>,
    interface: Seq<u8>,
    k: int,
)
    requires
        possible(processes, step),
        handles(processes, interface, k),
        forall|i: int| 0 <= i < k ==> !registers(step, registry, i, interface),
    ensures
        handles(after_step(processes, registry, step), interface, k),
{
    let later = after_step(processes, registry, step);
    assert forall|i: int| 0 <= i < k implies !(#[trigger] later[i]).interfaces.contains(
        interface,
    ) by {
        assert(!registers(step, registry, i, interface));
    }
}

/// Once the emission of a message is acknowledged, the response to it goes to the program that has
/// emitted it, provided that no program pushed before it waits for a response to the same message.
pub proof fn law_response_finds_emitter<T, W>(
    processes: Seq<Process<T>>,
    registry: Seq<u8>,
    process: int,
    id: u64,
)
    requires
        0 <= process < processes.len(),
        forall|i: int| 0 <= i < process ==> !(#[trigger] processes[i]).responses.contains(id),
    ensures
        awaits(
            after_step(processes, registry, Step::<T, W>::Acknowledge { process, id }),
            id,
            process,
        ),
{
}

/// A response is delivered once: if only one program waits for it, then after the delivery none
/// does.
pub proof fn law_response_is_delivered_once<T, W>(
    processes: Seq<Process<T>>,
    registry: Seq<u8>,
    process: int,
    id: u64,
)
    requires
        awaits(processes, id, process),
        forall|i: int|
            0 <= i < processes.len() && i != process ==> !(
            #[trigger] processes[i]).responses.contains(id),
    ensures
        !exists|k: int|
            awaits(
                after_step(processes, registry, Step::<T, W>::Response { process, id }),
                id,
                k,
            ),
{
}

/// Acknowledging the emission of a message and delivering its response leaves the collection as it
/// was, if nobody waited for that response before.
pub proof fn law_response_undoes_acknowledge<T, W>(
    processes: Seq<Process<T>>,
    registry: Seq<u8>,
    process: int,
    id: u64,
)
    requires
        0 <= process < processes.len(),
        forall|i: int|
            0 <= i < processes.len() ==> !(#[trigger] processes[i]).responses.contains(id),
    ensures
        ({
            let acknowledged = after_step(
                processes,
                registry,
                Step::<T, W>::Acknowledge { process, id },
            );
            let response = Step::<T, W>::Response { process, id };
            &&& possible(acknowledged, response)
            &&& after_step(acknowledged, registry, response) == processes
        }),
{
    let acknowledged = after_step(processes, registry, Step::<T, W>::Acknowledge { process, id });
    let later = after_step(acknowledged, registry, Step::<T, W>::Response { process, id });
    assert(later[process].responses =~= processes[process].responses);
}

/// An event that is not the emission of a well-formed message on the registration interface, such
/// as the cancellation of a message or an answer, leaves the collection as it is.
pub proof fn law_other_events_change_nothing<T, W>(
    processes: Seq<Process<T>>,
    registry: Seq<u8>,
    process: int,
    event: NativeProgramEvent<W>,
)
    requires
        0 <= process < processes.len(),
    ensures
        registration(registry, event) is None ==> after_step(
            processes,
            registry,
            Step::Event { process, event },
        ) == processes,
        event !is Emit ==> after_step(processes, registry, Step::Event { process, event })
            == processes,
{
}

/// Every poll adds the program that it polls to the record that its context holds.
pub open spec fn keeps_record<T, W, S, F>(poll: F, record: spec_fn(S) -> Seq<T>) -> bool where
    F: Fn(S, &T) -> (Poll<NativeProgramEvent<W>>, S),
 {
    forall|cx: S, program: T, polled: Poll<NativeProgramEvent<W>>, next: S| #[trigger]
        gives(poll, cx, program, polled, next) ==> record(next) == record(cx).push(program)
}

/// The programs of `processes`, in order.
pub open spec fn programs_of<T>(processes: Seq<Process<T>>) -> Seq<T> {
    processes.map_values(|process: Process<T>| process.program)
}

/// Where no program has an event, each program is polled once, in the order in which they were
/// pushed: this is what a record of the polls gains.
pub proof fn law_pending_polls_each_once<T, W, S, F>(
    processes: Seq<Process<T>>,
    poll: F,
    cxs: Seq<S>,
    record: spec_fn(S) -> Seq<T>,
) where F: Fn(S, &T) -> (Poll<NativeProgramEvent<W>>, S)
    requires
        keeps_record(poll, record),
        all_pending(processes, poll, cxs),
    ensures
        record(cxs.last()) == record(cxs.first()) + programs_of(processes),
    decreases processes.len(),
{
    if processes.len() == 0 {
        assert(programs_of(processes) =~= Seq::empty());
    } else {
        let n: int = processes.len() - 1;
        let earlier = processes.drop_last();
        assert(processes[n] == processes.last());
        assert forall|i: int| 0 <= i < earlier.len() implies gives(
            poll,
            cxs.drop_last()[i],
            (#[trigger] earlier[i]).program,
            Poll::<NativeProgramEvent<W>>::Pending,
            cxs.drop_last()[i + 1],
        ) by {
            assert(earlier[i] == processes[i]);
        }
        law_pending_polls_each_once(earlier, poll, cxs.drop_last(), record);
        assert(programs_of(processes) =~= programs_of(earlier).push(processes[n].program));
        assert(gives(
            poll,
            cxs[n],
            processes[n].program,
            Poll::<NativeProgramEvent<W>>::Pending,
            cxs[n + 1],
        ));
    }
}

/// Where the program at index `k` has the first event, the programs up to it are each polled once,
/// in the order in which they were pushed, and those after it are not polled: this is what a record
/// of the polls gains.
pub proof fn law_first_event_ends_polls<T, W, S, F>(
    processes: Seq<Process<T>>,
    poll: F,
    cxs: Seq<S>,
    k: int,
    event: NativeProgramEvent<W>,
    record: spec_fn(S) -> Seq<T>,
) where F: Fn(S, &T) -> (Poll<NativeProgramEvent<W>>, S)
    requires
        keeps_record(poll, record),
        first_ready(processes, poll, cxs, k, event),
    ensures
        record(cxs.last()) == record(cxs.first()) + programs_of(processes.take(k + 1)),
{
    law_pending_polls_each_once(processes.take(k), poll, cxs.drop_last(), record);
    assert(programs_of(processes.take(k + 1)) =~= programs_of(processes.take(k)).push(
        processes[k].program,
    ));
    assert(gives(poll, cxs[k], processes[k].program, Poll::Ready(event), cxs[k + 1]));
}

/// A zero byte followed by the 32 bytes of a hash asks to register that hash, and nothing else
/// does.
pub proof fn law_registration_message(bytes: Seq<u8>, hash: Seq<u8>)
    ensures
        registered_by(bytes) == Some(hash) <==> hash.len() == 32 && bytes == seq![0u8] + hash,
{
    assert((seq![0u8] + hash).skip(1) =~= hash);
    if registered_by(bytes) == Some(hash) {
        assert(bytes =~= seq![0u8] + hash);
    }
}

/// An event asks to register a hash exactly if it is the emission, on the registration interface,
/// of a zero byte followed by the 32 bytes of the hash.
pub proof fn law_event_registers_emitted_hash<W>(
    registry: Seq<u8>,
    event: NativeProgramEvent<W>,
    hash: Seq<u8>,
)
    ensures
        registration(registry, event) == Some(hash) <==> {
            &&& event is Emit
            &&& event->interface.0@ == registry
            &&& hash.len() == 32
            &&& event->message.0@ == seq![0u8] + hash
        },
{
    if event is Emit {
        law_registration_message(event->message@, hash);
    }
}

/// After an event, a program has registered what it had before and, if the event is the emission,
/// on the registration interface, of a zero byte followed by the 32 bytes of a hash, that hash.
/// Nothing else about the program changes.
pub proof fn law_event_adds_emitted_hash<T, W>(
    process: Process<T>,
    registry: Seq<u8>,
    event: NativeProgramEvent<W>,
    hash: Seq<u8>,
)
    ensures
        process_after(process, registry, event).interfaces.contains(hash) <==> {
            ||| process.interfaces.contains(hash)
            ||| {
                &&& event is Emit
                &&& event->interface.0@ == registry
                &&& hash.len() == 32
                &&& event->message.0@ == seq![0u8] + hash
            }
        },
        process_after(process, registry, event).pid == process.pid,
        process_after(process, registry, event).program == process.program,
        process_after(process, registry, event).responses == process.responses,
{
    law_event_registers_emitted_hash(registry, event, hash);
}

/// A program can be pushed under a `Pid` exactly if no program was pushed under it before,
/// whatever else has happened to the collection.
pub proof fn law_new_pid_can_be_pushed<T, W>(
    registry: Seq<u8>,
    steps: Seq<Step<T, W>>,
    pid: Pid,
    program: T,
)
    requires
        all_possible(registry, steps),
    ensures
        has_pid(after_steps(registry, steps), pid) <==> exists|i: int|
            0 <= i < pushed(steps).len() && (#[trigger] pushed(steps)[i]).0.0 == pid.0,
        possible(after_steps(registry, steps), Step::<T, W>::Push { pid, program })
            <==> forall|i: int|
            0 <= i < pushed(steps).len() ==> (#[trigger] pushed(steps)[i]).0.0 != pid.0,
{
    law_processes_are_those_pushed(registry, steps);
    let processes = after_steps(registry, steps);
    assert(forall|i: int|
        #![trigger processes[i]]
        #![trigger pushed(steps)[i]]
        0 <= i < processes.len() ==> pushed(steps)[i].0 == processes[i].pid);
}

/// Decoding what starts with the encoding of a value gives back the value and what follows it. The
/// outcome of decoding is `decoded`, and `None` stands for an error.
pub proof fn law_decoding_inverts_encoding<D: Encoded>(
    value: D::Model,
    rest: Seq<u8>,
    decoded: Option<(D::Model, Seq<u8>)>,
)
    requires
        D::encodable(value),
        decodes_to::<D>(D::encoding(value) + rest, decoded),
    ensures
        decoded == Some((value, rest)),
{
    match decoded {
        Some((found, left)) => {
            D::prefix_free(value, rest, found, left);
        },
        None => {},
    }
}

/// Different values have different encodings.
pub proof fn law_encoding_is_injective<D: Encoded>(a: D::Model, b: D::Model)
    requires
        D::encodable(a),
        D::encodable(b),
        D::encoding(a) == D::encoding(b),
    ensures
        a == b,
{
    D::prefix_free(a, Seq::empty(), b, Seq::empty());
}

} // verus!
