//! Collection of native programs.

use crate::adapter::{
    gives, interfaces_after, interfaces_after_poll, passed_on, with_write_adapter, Adapter,
    MessageIdWriteAdapter, NativeProgramEvent, Poll, ProgramCall,
};
use crate::ids::{EncodedMessage, InterfaceHash, MessageId, Pid};
use vstd::prelude::*;

verus! {

/// Collection of native programs, each with its [`Pid`]. `T` stands for a program.
pub struct NativeProgramsCollection<T> {
    /// Collection of processes and their `Pid`.
    processes: Vec<(Pid, Adapter<T>)>,
    /// Interface that programs register interfaces through.
    registry: InterfaceHash,
}

/// Event generated by one of the programs of a collection. `W` writes the [`MessageId`] of an
/// emitted message back to the program.
#[derive(Debug)]
pub enum NativeProgramsCollectionEvent<W> {
    /// Request to emit a message.
    Emit {
        /// Interface to emit the message on.
        interface: InterfaceHash,
        /// Pid of the program that emits the message. Same as a value that was passed to
        /// [`push`](NativeProgramsCollection::push).
        emitter_pid: Pid,
        /// Emitted message.
        message: EncodedMessage,
        /// If `Some`, must be used to write the [`MessageId`].
        message_id_write: Option<NativeProgramsCollectionMessageIdWrite<W>>,
    },
    /// Request to cancel a previously-emitted message.
    CancelMessage {
        /// Message to cancel.
        message_id: MessageId,
    },
    /// Request to answer a message delivered by
    /// [`interface_message`](NativeProgramsCollection::interface_message).
    Answer {
        /// Message to answer.
        message_id: MessageId,
        /// The produced answer, or an `Err` if the message is invalid.
        answer: Result<EncodedMessage, ()>,
    },
}

/// Allows writing back a [`MessageId`] when a message is emitted.
#[must_use]
#[derive(Debug)]
pub struct NativeProgramsCollectionMessageIdWrite<W> {
    /// Index of the process that has emitted the message.
    process: usize,
    write: MessageIdWriteAdapter<W>,
}

/// What to do next to find an event of a collection.
#[derive(Debug)]
pub enum PollStep<W> {
    /// Poll the program at this index, once.
    Poll(usize),
    /// Poll no program: this is the outcome.
    Done(Poll<NativeProgramsCollectionEvent<W>>),
}

/// Call that has to be made on one of the programs of a collection.
#[derive(Debug)]
pub struct Delivery<'a, T> {
    /// `Pid` of the program.
    pub pid: Pid,
    /// The program.
    pub program: &'a T,
    /// The call to make.
    pub call: ProgramCall,
}

/// What a collection knows about one of its processes.
pub struct Process<T> {
    /// `Pid` of the process.
    pub pid: Pid,
    /// The program.
    pub program: T,
    /// Interfaces that the program has registered.
    pub interfaces: Set<Seq<u8>>,
    /// Messages that the program has emitted and whose response has not come yet.
    pub responses: Set<u64>,
}

/// The process that pushing `program` under `pid` adds.
pub open spec fn fresh<T>(pid: Pid, program: T) -> Process<T> {
    Process { pid, program, interfaces: Set::empty(), responses: Set::empty() }
}

/// `process` once the registration that `event` may ask for is made.
pub open spec fn process_after<T, W>(
    process: Process<T>,
    registry: Seq<u8>,
    event: NativeProgramEvent<W>,
) -> Process<T> {
    Process { interfaces: interfaces_after(process.interfaces, registry, event), ..process }
}

/// `process` once it waits for the response to message `id`.
pub open spec fn expecting<T>(process: Process<T>, id: u64) -> Process<T> {
    Process { responses: process.responses.insert(id), ..process }
}

/// `process` once the response to message `id` has come.
pub open spec fn answered<T>(process: Process<T>, id: u64) -> Process<T> {
    Process { responses: process.responses.remove(id), ..process }
}

/// No two processes have the same `Pid`.
pub open spec fn distinct_pids<T>(processes: Seq<Process<T>>) -> bool {
    forall|i: int, j: int|
        0 <= i < j < processes.len() ==> (#[trigger] processes[i]).pid
            != (#[trigger] processes[j]).pid
}

/// The processes have the same `Pid`s in both sequences, in the same order.
spec fn same_pids<T>(a: Seq<Process<T>>, b: Seq<Process<T>>) -> bool {
    &&& a.len() == b.len()
    &&& forall|i: int|
        #![trigger a[i]]
        #![trigger b[i]]
        0 <= i < a.len() ==> a[i].pid == b[i].pid
}

/// One of the processes has `pid`.
pub open spec fn has_pid<T>(processes: Seq<Process<T>>, pid: Pid) -> bool {
    exists|i: int| 0 <= i < processes.len() && (#[trigger] processes[i]).pid == pid
}

/// Process `k` is the first that has registered `interface`.
pub open spec fn handles<T>(processes: Seq<Process<T>>, interface: Seq<u8>, k: int) -> bool {
    &&& 0 <= k < processes.len()
    &&& processes[k].interfaces.contains(interface)
    &&& forall|i: int| 0 <= i < k ==> !(#[trigger] processes[i]).interfaces.contains(interface)
}

/// One of the processes has registered `interface`.
pub open spec fn is_handled<T>(processes: Seq<Process<T>>, interface: Seq<u8>) -> bool {
    exists|k: int| handles(processes, interface, k)
}

/// Process `k` is the first that waits for the response to message `id`.
pub open spec fn awaits<T>(processes: Seq<Process<T>>, id: u64, k: int) -> bool {
    &&& 0 <= k < processes.len()
    &&& processes[k].responses.contains(id)
    &&& forall|i: int| 0 <= i < k ==> !(#[trigger] processes[i]).responses.contains(id)
}

/// One of the processes waits for the response to message `id`.
pub open spec fn is_awaited<T>(processes: Seq<Process<T>>, id: u64) -> bool {
    exists|k: int| awaits(processes, id, k)
}

/// The processes of `earlier` are still there in `later`, each at its index, with its `Pid`, its
/// program and all the interfaces that it had registered.
pub open spec fn kept<T>(earlier: Seq<Process<T>>, later: Seq<Process<T>>) -> bool {
    &&& earlier.len() <= later.len()
    &&& forall|i: int|
        #![trigger earlier[i]]
        #![trigger later[i]]
        0 <= i < earlier.len() ==> {
            &&& later[i].pid == earlier[i].pid
            &&& later[i].program == earlier[i].program
            &&& earlier[i].interfaces.subset_of(later[i].interfaces)
        }
}

/// The processes were each polled once with `poll`, in order, and were all pending. The first poll
/// was given the first of the contexts `cxs`, and each made the next of them of the one that it was
/// given.
pub open spec fn all_pending<T, W, S, F>(
    processes: Seq<Process<T>>,
    poll: F,
    cxs: Seq<S>,
) -> bool where F: Fn(S, &T) -> (Poll<NativeProgramEvent<W>>, S) {
    &&& cxs.len() == processes.len() + 1
    &&& forall|i: int|
        0 <= i < processes.len() ==> gives(
            poll,
            cxs[i],
            (#[trigger] processes[i]).program,
            Poll::<NativeProgramEvent<W>>::Pending,
            cxs[i + 1],
        )
}

/// The processes up to `k` were each polled once with `poll`, in order: those before `k` were all
/// pending, and `k` was ready with `event`. The first poll was given the first of the contexts
/// `cxs`, and each made the next of them of the one that it was given.
pub open spec fn first_ready<T, W, S, F>(
    processes: Seq<Process<T>>,
    poll: F,
    cxs: Seq<S>,
    k: int,
    event: NativeProgramEvent<W>,
) -> bool where F: Fn(S, &T) -> (Poll<NativeProgramEvent<W>>, S) {
    &&& 0 <= k < processes.len()
    &&& cxs.len() == k + 2
    &&& all_pending(processes.take(k), poll, cxs.drop_last())
    &&& gives(poll, cxs[k], processes[k].program, Poll::Ready(event), cxs[k + 1])
}

/// `reported` is what the collection makes of an `event` of the process at index `k`, whose
/// `Pid` is `pid`.
pub open spec fn reports<W>(
    reported: NativeProgramsCollectionEvent<W>,
    k: int,
    pid: Pid,
    event: NativeProgramEvent<W>,
) -> bool {
    match event {
        NativeProgramEvent::Emit { interface, message_id_write, message } => {
            &&& reported is Emit
            &&& reported->interface == interface
            &&& reported->emitter_pid == pid
            &&& reported->message == message
            &&& match (reported->message_id_write, message_id_write) {
                (Some(handle), Some(write)) => {
                    &&& handle.process() == k
                    &&& handle.writer() == Some(write)
                },
                (None, None) => true,
                _ => false,
            }
        },
        NativeProgramEvent::CancelMessage { message_id } => {
            reported == NativeProgramsCollectionEvent::<W>::CancelMessage { message_id }
        },
        NativeProgramEvent::Answer { message_id, answer } => {
            reported == NativeProgramsCollectionEvent::<W>::Answer { message_id, answer }
        },
    }
}

/// Calls `Vec::shrink_to_fit`, which gives back memory and leaves the elements as they are.
#[verifier::external_body]
fn shrink_to_fit<E>(vec: &mut Vec<E>)
    ensures
        final(vec)@ == old(vec)@,
{
    vec.shrink_to_fit()
}

impl<T> View for NativeProgramsCollection<T> {
    type V = Seq<Process<T>>;

    closed spec fn view(&self) -> Seq<Process<T>> {
        Seq::new(
            self.processes@.len(),
            |i: int|
                Process {
                    pid: self.processes@[i].0,
                    program: self.processes@[i].1.program(),
                    interfaces: self.processes@[i].1.interfaces(),
                    responses: self.processes@[i].1.responses(),
                },
        )
    }
}

impl<T> NativeProgramsCollection<T> {
    /// Interface that programs register interfaces through.
    pub closed spec fn registry(&self) -> Seq<u8> {
        self.registry@
    }

    /// No two programs of the collection have the same `Pid`.
    pub open spec fn wf(&self) -> bool {
        distinct_pids(self@)
    }

    /// Builds an empty collection, whose programs register interfaces through `registry`.
    ///
    /// Calling [`next_event`](NativeProgramsCollection::next_event) will never yield anything.
    pub fn new(registry: InterfaceHash) -> (collection: Self)
        ensures
            collection@ == Seq::<Process<T>>::empty(),
            collection.registry() == registry@,
            collection.wf(),
    {
        let collection = NativeProgramsCollection { processes: Vec::new(), registry };
        collection
    }

    /// Says whether one of the programs of the collection has `pid`.
    pub fn contains(&self, pid: Pid) -> (found: bool)
        ensures
            found == has_pid(self@, pid),
    {
        let mut i: usize = 0;
        while i < self.processes.len()
            invariant
                i <= self.processes@.len(),
                forall|j: int| 0 <= j < i ==> (#[trigger] self@[j]).pid != pid,
            decreases self.processes@.len() - i,
        {
            assert(self@[i as int].pid == self.processes@[i as int].0);
            if self.processes[i].0 == pid {
                return true;
            }
            i += 1;
        }
        false
    }

    /// Adds a program to the collection, after those that it holds. The `pid` must not already
    /// exist in this collection.
    pub fn push(&mut self, pid: Pid, program: T)
        requires
            !has_pid(old(self)@, pid),
        ensures
            final(self)@ == old(self)@.push(fresh(pid, program)),
            final(self).registry() == old(self).registry(),
            old(self).wf() ==> final(self).wf(),
            kept(old(self)@, final(self)@),
    {
        let adapter = Adapter::new(program);
        self.processes.push((pid, adapter));
        // `push` is expected to be called at initialization only.
        shrink_to_fit(&mut self.processes);
    }

    /// Says what to do first to find an event: poll the first program, if there is one.
    pub fn start_poll<W>(&self) -> (step: PollStep<W>)
        ensures
            step == if self@.len() > 0 {
                PollStep::<W>::Poll(0)
            } else {
                PollStep::<W>::Done(Poll::Pending)
            },
    {
        if self.processes.len() > 0 {
            PollStep::Poll(0)
        } else {
            PollStep::Done(Poll::Pending)
        }
    }

    /// Takes note of the outcome of a poll of the program at `index`, and says what to do next to
    /// find an event: poll the next program if this one is pending, and otherwise nothing.
    pub fn after_poll<W>(&mut self, index: usize, polled: Poll<NativeProgramEvent<W>>) -> (step:
        PollStep<W>)
        requires
            index < old(self)@.len(),
        ensures
            match polled {
                Poll::Pending => {
                    &&& final(self)@ == old(self)@
                    &&& step == if index + 1 < old(self)@.len() {
                        PollStep::<W>::Poll((index + 1) as usize)
                    } else {
                        PollStep::<W>::Done(Poll::Pending)
                    }
                },
                Poll::Ready(event) => {
                    &&& step matches PollStep::Done(Poll::Ready(reported))
                    &&& reports(reported, index as int, old(self)@[index as int].pid, event)
                    &&& final(self)@ == old(self)@.update(
                        index as int,
                        process_after(old(self)@[index as int], old(self).registry(), event),
                    )
                },
            },
            final(self).registry() == old(self).registry(),
            old(self).wf() ==> final(self).wf(),
            kept(old(self)@, final(self)@),
    {
        let ghost asked = old(self)@[index as int];
        let pid = self.processes[index].0;
        match self.processes[index].1.handle_poll(&self.registry, polled) {
            Poll::Pending => {
                assert(self@ =~= old(self)@);
                if index < self.processes.len() - 1 {
                    PollStep::Poll(index + 1)
                } else {
                    PollStep::Done(Poll::Pending)
                }
            },
            Poll::Ready(reported) => {
                assert(self@ =~= old(self)@.update(
                    index as int,
                    process_after(asked, old(self).registry(), polled->Ready_0),
                ));
                assert(same_pids(old(self)@, self@));
                PollStep::Done(Poll::Ready(Self::report(index, pid, reported)))
            },
        }
    }

    /// Polls the programs with `poll`, each at most once and in the order in which they were
    /// pushed, and reports the event of the first that has one. The programs after it are not
    /// polled. The first poll is given `cx`, each of the others what the one before has made of
    /// it, and the second result is what the last one has made of it.
    pub fn next_event<W, S, F>(&mut self, cx: S, poll: F) -> (outcome: (
        Poll<NativeProgramsCollectionEvent<W>>,
        S,
    )) where F: Fn(S, &T) -> (Poll<NativeProgramEvent<W>>, S)
        requires
            forall|i: int, given: S|
                0 <= i < old(self)@.len() ==> #[trigger] call_requires(
                    poll,
                    (given, &old(self)@[i].program),
                ),
        ensures
            match outcome.0 {
                Poll::Ready(reported) => exists|cxs: Seq<S>, k: int, event: NativeProgramEvent<W>|
                    {
                        &&& #[trigger] first_ready(old(self)@, poll, cxs, k, event)
                        &&& cxs.first() == cx
                        &&& cxs.last() == outcome.1
                        &&& reports(reported, k, old(self)@[k].pid, event)
                        &&& final(self)@ == old(self)@.update(
                            k,
                            process_after(old(self)@[k], old(self).registry(), event),
                        )
                    },
                Poll::Pending => {
                    &&& exists|cxs: Seq<S>|
                        {
                            &&& #[trigger] all_pending(old(self)@, poll, cxs)
                            &&& cxs.first() == cx
                            &&& cxs.last() == outcome.1
                        }
                    &&& final(self)@ == old(self)@
                },
            },
            old(self)@.len() == 0 ==> outcome == (
                Poll::<NativeProgramsCollectionEvent<W>>::Pending,
                cx,
            ),
            outcome.0 matches Poll::Ready(reported) ==> (reported is Emit ==> has_pid(
                old(self)@,
                reported->emitter_pid,
            )),
            final(self).registry() == old(self).registry(),
            old(self).wf() ==> final(self).wf(),
            kept(old(self)@, final(self)@),
    {
        let ghost mut cxs: Seq<S> = seq![cx];
        let mut current = cx;
        let mut i: usize = 0;
        while i < self.processes.len()
            invariant
                i <= self.processes@.len(),
                self@ == old(self)@,
                self.registry == old(self).registry,
                forall|j: int, given: S|
                    0 <= j < old(self)@.len() ==> #[trigger] call_requires(
                        poll,
                        (given, &old(self)@[j].program),
                    ),
                all_pending(old(self)@.take(i as int), poll, cxs),
                cxs.first() == cx,
                cxs.last() == current,
            decreases self.processes@.len() - i,
        {
            let ghost asked = old(self)@[i as int];
            let ghost before = cxs;
            let poll_once = |given: S, program: &T| -> (answer: (Poll<NativeProgramEvent<W>>, S))
                requires
                    call_requires(poll, (given, program)),
                ensures
                    call_ensures(poll, (given, program), answer),
                { poll(given, program) };
            let pid = self.processes[i].0;
            let (polled, next) = self.processes[i].1.poll_next_event(
                &self.registry,
                current,
                poll_once,
            );
            let ghost answer = choose|answer: Poll<NativeProgramEvent<W>>|
                {
                    &&& #[trigger] gives(poll_once, current, asked.program, answer, next)
                    &&& polled == passed_on(answer)
                    &&& self@[i as int].interfaces == interfaces_after_poll(
                        asked.interfaces,
                        old(self).registry(),
                        answer,
                    )
                };
            proof {
                assert(gives(poll, current, asked.program, answer, next));
                cxs = cxs.push(next);
            }
            match polled {
                Poll::Pending => {
                    assert(self@ =~= old(self)@);
                    assert(all_pending(old(self)@.take(i + 1), poll, cxs));
                },
                Poll::Ready(reported) => {
                    let ghost event = answer->Ready_0;
                    assert(cxs.drop_last() =~= before);
                    assert(first_ready(old(self)@, poll, cxs, i as int, event));
                    assert(self@ =~= old(self)@.update(
                        i as int,
                        process_after(asked, old(self).registry(), event),
                    ));
                    assert(same_pids(old(self)@, self@));
                    return (Poll::Ready(Self::report(i, pid, reported)), next);
                },
            }
            current = next;
            i += 1;
        }
        assert(old(self)@.take(i as int) =~= old(self)@);
        (Poll::Pending, current)
    }

    /// Turns an event of the process at index `process`, whose `Pid` is `pid`, into an event of
    /// the collection.
    fn report<W>(
        process: usize,
        pid: Pid,
        passed_on: NativeProgramEvent<MessageIdWriteAdapter<W>>,
    ) -> (reported: NativeProgramsCollectionEvent<W>)
        ensures
            forall|event: NativeProgramEvent<W>|
                passed_on == #[trigger] with_write_adapter(event) ==> reports(
                    reported,
                    process as int,
                    pid,
                    event,
                ),
    {
        match passed_on {
            NativeProgramEvent::Emit { interface, message_id_write, message } => {
                let message_id_write = match message_id_write {
                    Some(write) => Some(NativeProgramsCollectionMessageIdWrite { process, write }),
                    None => None,
                };
                NativeProgramsCollectionEvent::Emit {
                    interface,
                    emitter_pid: pid,
                    message,
                    message_id_write,
                }
            },
            NativeProgramEvent::CancelMessage { message_id } => {
                NativeProgramsCollectionEvent::CancelMessage { message_id }
            },
            NativeProgramEvent::Answer { message_id, answer } => {
                NativeProgramsCollectionEvent::Answer { message_id, answer }
            },
        }
    }

    /// Says whether one of the programs of the collection has registered `interface`.
    pub fn handles_interface(&self, interface: &InterfaceHash) -> (handled: bool)
        ensures
            handled == is_handled(self@, interface@),
    {
        let mut i: usize = 0;
        while i < self.processes.len()
            invariant
                i <= self.processes@.len(),
                forall|j: int|
                    0 <= j < i ==> !(#[trigger] self@[j]).interfaces.contains(interface@),
            decreases self.processes@.len() - i,
        {
            if self.processes[i].1.has_registered(interface) {
                assert(handles(self@, interface@, i as int));
                return true;
            }
            i += 1;
        }
        false
    }

    /// Gives the call to make for a message that has arrived on one of the interfaces that the
    /// programs have registered: the first program that has registered it gets the message.
    /// One of the programs must have registered it.
    pub fn interface_message(
        &self,
        interface: InterfaceHash,
        message_id: Option<MessageId>,
        emitter_pid: Pid,
        message: EncodedMessage,
    ) -> (delivery: Delivery<'_, T>)
        requires
            is_handled(self@, interface@),
        ensures
            exists|k: int|
                {
                    &&& #[trigger] handles(self@, interface@, k)
                    &&& delivery.pid == self@[k].pid
                    &&& *delivery.program == self@[k].program
                },
            delivery.call == (ProgramCall::InterfaceMessage {
                interface,
                message_id,
                emitter_pid,
                message,
            }),
    {
        let ghost handler = choose|k: int| handles(self@, interface@, k);
        let mut undelivered = message;
        let mut i: usize = 0;
        loop
            invariant
                i <= handler < self.processes.len(),
                handles(self@, interface@, handler),
                undelivered == message,
            decreases handler - i,
        {
            let (pid, process) = &self.processes[i];
            assert(self@[i as int].interfaces == process.interfaces());
            match process.deliver_interface_message(
                interface,
                message_id,
                emitter_pid,
                undelivered,
            ) {
                Ok(call) => {
                    return Delivery { pid: *pid, program: process.inner(), call };
                },
                Err(msg) => {
                    undelivered = msg;
                },
            }
            i += 1;
        }
    }

    /// Gives the calls that tell all the programs, in the order in which they were pushed, that
    /// the process with the given [`Pid`] has terminated.
    pub fn process_destroyed(&mut self, pid: Pid) -> (deliveries: Vec<Delivery<'_, T>>)
        ensures
            deliveries@.len() == old(self)@.len(),
            forall|i: int|
                0 <= i < deliveries@.len() ==> {
                    &&& (#[trigger] deliveries@[i]).pid == old(self)@[i].pid
                    &&& *deliveries@[i].program == old(self)@[i].program
                    &&& deliveries@[i].call == (ProgramCall::ProcessDestroyed { pid })
                },
            final(self)@ == old(self)@,
            final(self).registry() == old(self).registry(),
    {
        let processes = &self.processes;
        let mut deliveries: Vec<Delivery<'_, T>> = Vec::new();
        let mut i: usize = 0;
        while i < processes.len()
            invariant
                i <= processes@.len(),
                deliveries@.len() == i,
                forall|j: int|
                    0 <= j < i ==> {
                        &&& (#[trigger] deliveries@[j]).pid == processes@[j].0
                        &&& *deliveries@[j].program == processes@[j].1.program()
                        &&& deliveries@[j].call == (ProgramCall::ProcessDestroyed { pid })
                    },
            decreases processes@.len() - i,
        {
            let (process_pid, process) = &processes[i];
            let call = process.process_destroyed(pid);
            deliveries.push(Delivery { pid: *process_pid, program: process.inner(), call });
            i += 1;
        }
        deliveries
    }

    /// Says whether one of the programs of the collection waits for the response to a message.
    pub fn expects_response(&self, message_id: MessageId) -> (expected: bool)
        ensures
            expected == is_awaited(self@, message_id.0),
    {
        let mut i: usize = 0;
        while i < self.processes.len()
            invariant
                i <= self.processes@.len(),
                forall|j: int|
                    0 <= j < i ==> !(#[trigger] self@[j]).responses.contains(message_id.0),
            decreases self.processes@.len() - i,
        {
            if self.processes[i].1.waits_for(message_id) {
                assert(awaits(self@, message_id.0, i as int));
                return true;
            }
            i += 1;
        }
        false
    }

    /// Gives the call to make for the response to a message that one of the programs has
    /// emitted: the first program that waits for it gets it, and then waits for it no longer.
    /// One of the programs must wait for it.
    pub fn message_response(
        &mut self,
        message_id: MessageId,
        response: Result<EncodedMessage, ()>,
    ) -> (delivery: Delivery<'_, T>)
        requires
            is_awaited(old(self)@, message_id.0),
        ensures
            exists|k: int|
                {
                    &&& #[trigger] awaits(old(self)@, message_id.0, k)
                    &&& delivery.pid == old(self)@[k].pid
                    &&& *delivery.program == old(self)@[k].program
                    &&& final(self)@ == old(self)@.update(
                        k,
                        answered(old(self)@[k], message_id.0),
                    )
                },
            delivery.call == (ProgramCall::MessageResponse { message_id, response }),
            final(self).registry() == old(self).registry(),
            old(self).wf() ==> final(self).wf(),
            kept(old(self)@, final(self)@),
    {
        let ghost receiver = choose|k: int| awaits(self@, message_id.0, k);
        let mut undelivered = response;
        let mut i: usize = 0;
        loop
            invariant
                i <= receiver < self.processes.len(),
                self@ == old(self)@,
                self.registry == old(self).registry,
                awaits(old(self)@, message_id.0, receiver),
                undelivered == response,
            decreases receiver - i,
        {
            let ghost asked = old(self)@[i as int];
            match self.processes[i].1.deliver_response(message_id, undelivered) {
                Ok(call) => {
                    assert(self@ =~= old(self)@.update(i as int, answered(asked, message_id.0)));
                    assert(same_pids(old(self)@, self@));
                    let (pid, process) = &self.processes[i];
                    return Delivery { pid: *pid, program: process.inner(), call };
                },
                Err(msg) => {
                    undelivered = msg;
                    assert(i != receiver);
                    assert(self@[i as int].responses =~= asked.responses);
                    assert(self@ =~= old(self)@);
                },
            }
            i += 1;
        }
    }
}

impl<W> NativeProgramsCollectionMessageIdWrite<W> {
    /// Index of the process that has emitted the message.
    pub closed spec fn process(&self) -> int {
        self.process as int
    }

    /// Writer that the program has supplied.
    pub closed spec fn writer(&self) -> Option<W> {
        self.write.inner
    }

    /// Acknowledges the emission: uses up the writer, which the caller has to give `message_id`
    /// to, and makes the program of `collection` that has emitted the message wait for the
    /// response. The second result says whether the program did not wait for it already.
    pub fn acknowledge<T>(
        self,
        collection: &mut NativeProgramsCollection<T>,
        message_id: MessageId,
    ) -> (acknowledged: (W, bool))
        requires
            self.writer() is Some,
            self.process() < old(collection)@.len(),
        ensures
            self.writer() == Some(acknowledged.0),
            acknowledged.1 == !old(collection)@[self.process()].responses.contains(message_id.0),
            final(collection)@ == old(collection)@.update(
                self.process(),
                expecting(old(collection)@[self.process()], message_id.0),
            ),
            final(collection).registry() == old(collection).registry(),
            old(collection).wf() ==> final(collection).wf(),
            kept(old(collection)@, final(collection)@),
    {
        let mut write = self.write;
        let acknowledged = write.acknowledge(&mut collection.processes[self.process].1, message_id);
        assert(collection@ =~= old(collection)@.update(
            self.process(),
            expecting(old(collection)@[self.process()], message_id.0),
        ));
        assert(same_pids(old(collection)@, collection@));
        acknowledged
    }

    /// First half of [`acknowledge`](Self::acknowledge), for a caller that uses the writer before
    /// the program waits for the response: uses up the writer.
    pub fn take_writer(&mut self) -> (write: W)
        requires
            old(self).writer() is Some,
        ensures
            old(self).writer() == Some(write),
            final(self).writer() is None,
            final(self).process() == old(self).process(),
    {
        self.write.take()
    }

    /// Second half of [`acknowledge`](Self::acknowledge): makes the program of `collection` that
    /// has emitted the message wait for the response. The result says whether the program did not
    /// wait for it already.
    pub fn expect_response<T>(
        self,
        collection: &mut NativeProgramsCollection<T>,
        message_id: MessageId,
    ) -> (was_inserted: bool)
        requires
            self.process() < old(collection)@.len(),
        ensures
            was_inserted == !old(collection)@[self.process()].responses.contains(message_id.0),
            final(collection)@ == old(collection)@.update(
                self.process(),
                expecting(old(collection)@[self.process()], message_id.0),
            ),
            final(collection).registry() == old(collection).registry(),
            old(collection).wf() ==> final(collection).wf(),
            kept(old(collection)@, final(collection)@),
    {
        let was_inserted = collection.processes[self.process].1.expect_response(message_id);
        assert(collection@ =~= old(collection)@.update(
            self.process(),
            expecting(old(collection)@[self.process()], message_id.0),
        ));
        assert(same_pids(old(collection)@, collection@));
        was_inserted
    }
}

} // verus!
