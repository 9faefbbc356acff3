use native_programs::adapter::{Adapter, MessageIdWriteAdapter, NativeProgramEvent, Poll, ProgramCall};
use native_programs::collection::{
    NativeProgramsCollection, NativeProgramsCollectionEvent, NativeProgramsCollectionMessageIdWrite, PollStep,
};
use native_programs::ids::{EncodedMessage, InterfaceHash, MessageId, Pid};

type Event = NativeProgramEvent<&'static str>;

const REGISTRY: InterfaceHash = InterfaceHash([0xaa; 32]);
const TIME: InterfaceHash = InterfaceHash([1; 32]);
const LOG: InterfaceHash = InterfaceHash([2; 32]);

/// A collection of programs that are told apart by a name.
fn programs(names: &[(u64, &'static str)]) -> NativeProgramsCollection<&'static str> {
    let mut collection = NativeProgramsCollection::new(REGISTRY);
    for (pid, name) in names {
        collection.push(Pid(*pid), *name);
    }
    collection
}

/// The message that asks to register `interface`.
fn register_message(interface: InterfaceHash) -> EncodedMessage {
    let mut bytes = vec![0];
    bytes.extend_from_slice(&interface.0);
    EncodedMessage(bytes)
}

/// Looks for an event of programs that answer polls with `answer`. Gives the names of the polled programs too, in order.
fn poll_programs(
    collection: &mut NativeProgramsCollection<&'static str>,
    answer: impl Fn(&'static str) -> Poll<Event>,
) -> (Poll<NativeProgramsCollectionEvent<&'static str>>, Vec<&'static str>) {
    collection.next_event(Vec::new(), |mut polled: Vec<&'static str>, program: &&'static str| {
        polled.push(*program);
        (answer(*program), polled)
    })
}

/// Lets the program called `name` emit a message.
fn emit(
    collection: &mut NativeProgramsCollection<&'static str>,
    name: &'static str,
    on: InterfaceHash,
    message: EncodedMessage,
    write: Option<&'static str>,
) -> Option<NativeProgramsCollectionMessageIdWrite<&'static str>> {
    let (outcome, _) = poll_programs(collection, |program| {
        if program == name {
            Poll::Ready(NativeProgramEvent::Emit {
                interface: on,
                message_id_write: write,
                message: message.clone(),
            })
        } else {
            Poll::Pending
        }
    });
    match outcome {
        Poll::Ready(NativeProgramsCollectionEvent::Emit { message_id_write, .. }) => message_id_write,
        _ => panic!("{} has emitted nothing", name),
    }
}

fn register(collection: &mut NativeProgramsCollection<&'static str>, name: &'static str, interface: InterfaceHash) {
    assert!(emit(collection, name, REGISTRY, register_message(interface), None).is_none());
}

/// Lets the program called `name` emit a message, and gives the message the identifier `id`.
fn emit_and_acknowledge(collection: &mut NativeProgramsCollection<&'static str>, name: &'static str, id: u64) -> (&'static str, bool) {
    let handle = emit(collection, name, TIME, EncodedMessage(vec![9]), Some(name)).unwrap();
    handle.acknowledge(collection, MessageId(id))
}

#[test]
fn is_send() {
    fn req_send<T: Send>() {}
    req_send::<NativeProgramsCollection<Box<dyn Send>>>();
}

#[test]
fn empty_collection_yields_nothing() {
    let mut collection: NativeProgramsCollection<&'static str> = NativeProgramsCollection::new(REGISTRY);
    let (outcome, polled) = poll_programs(&mut collection, |_| {
        Poll::Ready(NativeProgramEvent::CancelMessage { message_id: MessageId(1) })
    });
    assert!(matches!(outcome, Poll::Pending));
    assert!(polled.is_empty());
    assert!(matches!(collection.start_poll::<&'static str>(), PollStep::Done(Poll::Pending)));
    assert!(!collection.contains(Pid(1)));
    assert!(!collection.handles_interface(&TIME));
    assert!(!collection.expects_response(MessageId(1)));
    assert!(collection.process_destroyed(Pid(1)).is_empty());
}

#[test]
fn pushed_pids_are_found() {
    let collection = programs(&[(5, "a"), (3, "b")]);
    assert!(collection.contains(Pid(5)));
    assert!(collection.contains(Pid(3)));
    assert!(!collection.contains(Pid(4)));
}

#[test]
fn programs_are_polled_in_order_up_to_the_first_that_is_ready() {
    let mut collection = programs(&[(1, "a"), (2, "b"), (3, "c")]);
    let (outcome, polled) = poll_programs(&mut collection, |program| {
        if program == "a" {
            Poll::Pending
        } else {
            Poll::Ready(NativeProgramEvent::Emit {
                interface: TIME,
                message_id_write: Some(program),
                message: EncodedMessage(vec![1, 2, 3]),
            })
        }
    });
    assert_eq!(polled, vec!["a", "b"]);
    match outcome {
        Poll::Ready(NativeProgramsCollectionEvent::Emit { interface, emitter_pid, message, message_id_write }) => {
            assert_eq!(interface, TIME);
            assert_eq!(emitter_pid, Pid(2));
            assert_eq!(message, EncodedMessage(vec![1, 2, 3]));
            assert_eq!(message_id_write.unwrap().acknowledge(&mut collection, MessageId(7)), ("b", true));
        }
        _ => panic!(),
    }
}

#[test]
fn nothing_is_yielded_while_all_programs_are_pending() {
    let mut collection = programs(&[(1, "a"), (2, "b")]);
    let (outcome, polled) = poll_programs(&mut collection, |_| Poll::Pending);
    assert!(matches!(outcome, Poll::Pending));
    assert_eq!(polled, vec!["a", "b"]);
}

#[test]
fn contexts_are_handed_from_poll_to_poll() {
    let mut collection = programs(&[(1, "a"), (2, "b"), (3, "c")]);
    let (outcome, cx) = collection.next_event(100, |cx: u64, program: &&'static str| -> (Poll<Event>, u64) {
        match *program {
            "a" => {
                assert_eq!(cx, 100);
                (Poll::Pending, 200)
            }
            "b" => {
                assert_eq!(cx, 200);
                (Poll::Ready(NativeProgramEvent::CancelMessage { message_id: MessageId(1) }), 300)
            }
            _ => panic!(),
        }
    });
    assert!(matches!(outcome, Poll::Ready(NativeProgramsCollectionEvent::CancelMessage { message_id: MessageId(1) })));
    assert_eq!(cx, 300);
}

#[test]
fn polls_one_by_one_stop_at_the_first_event() {
    let mut collection = programs(&[(1, "a"), (2, "b"), (3, "c")]);
    assert!(matches!(collection.start_poll::<&'static str>(), PollStep::Poll(0)));
    assert!(matches!(collection.after_poll(0, Poll::<Event>::Pending), PollStep::Poll(1)));
    let event: Event = NativeProgramEvent::Emit {
        interface: REGISTRY,
        message_id_write: Some("writer"),
        message: register_message(TIME),
    };
    match collection.after_poll(1, Poll::Ready(event)) {
        PollStep::Done(Poll::Ready(NativeProgramsCollectionEvent::Emit {
            interface,
            emitter_pid,
            message,
            message_id_write,
        })) => {
            assert_eq!(interface, REGISTRY);
            assert_eq!(emitter_pid, Pid(2));
            assert_eq!(message, register_message(TIME));
            assert_eq!(message_id_write.unwrap().acknowledge(&mut collection, MessageId(7)), ("writer", true));
        }
        _ => panic!(),
    }
    let delivery = collection.interface_message(TIME, None, Pid(9), EncodedMessage(vec![]));
    assert_eq!(*delivery.program, "b");
    assert_eq!(*collection.message_response(MessageId(7), Err(())).program, "b");
}

#[test]
fn polls_one_by_one_end_after_the_last_program() {
    let mut collection = programs(&[(1, "a"), (2, "b")]);
    assert!(matches!(collection.start_poll::<&'static str>(), PollStep::Poll(0)));
    assert!(matches!(collection.after_poll(0, Poll::<Event>::Pending), PollStep::Poll(1)));
    assert!(matches!(collection.after_poll(1, Poll::<Event>::Pending), PollStep::Done(Poll::Pending)));
}

#[test]
fn writer_can_be_used_before_the_response_is_waited_for() {
    let mut collection = programs(&[(1, "a"), (2, "b")]);
    let mut handle = emit(&mut collection, "b", TIME, EncodedMessage(vec![]), Some("writer")).unwrap();
    assert_eq!(handle.take_writer(), "writer");
    assert!(!collection.expects_response(MessageId(5)));
    assert!(handle.expect_response(&mut collection, MessageId(5)));
    assert!(collection.expects_response(MessageId(5)));
    let mut handle = emit(&mut collection, "b", TIME, EncodedMessage(vec![]), Some("writer")).unwrap();
    assert_eq!(handle.take_writer(), "writer");
    assert!(!handle.expect_response(&mut collection, MessageId(5)));
    assert_eq!(*collection.message_response(MessageId(5), Err(())).program, "b");
}

#[test]
fn cancellations_and_answers_are_passed_on() {
    let mut collection = programs(&[(1, "a")]);
    let (outcome, _) = poll_programs(&mut collection, |_| {
        Poll::Ready(NativeProgramEvent::CancelMessage { message_id: MessageId(4) })
    });
    assert!(matches!(
        outcome,
        Poll::Ready(NativeProgramsCollectionEvent::CancelMessage { message_id: MessageId(4) })
    ));
    let (outcome, _) = poll_programs(&mut collection, |_| {
        Poll::Ready(NativeProgramEvent::Answer { message_id: MessageId(5), answer: Ok(EncodedMessage(vec![8])) })
    });
    match outcome {
        Poll::Ready(NativeProgramsCollectionEvent::Answer { message_id, answer }) => {
            assert_eq!(message_id, MessageId(5));
            assert_eq!(answer, Ok(EncodedMessage(vec![8])));
        }
        _ => panic!(),
    }
    let (outcome, _) = poll_programs(&mut collection, |_| {
        Poll::Ready(NativeProgramEvent::Answer { message_id: MessageId(6), answer: Err(()) })
    });
    assert!(matches!(
        outcome,
        Poll::Ready(NativeProgramsCollectionEvent::Answer { message_id: MessageId(6), answer: Err(()) })
    ));
}

#[test]
fn registered_interface_gets_its_messages() {
    let mut collection = programs(&[(1, "a"), (2, "b")]);
    register(&mut collection, "b", TIME);
    assert!(collection.handles_interface(&TIME));
    assert!(!collection.handles_interface(&LOG));
    assert!(!collection.handles_interface(&REGISTRY));
    let delivery = collection.interface_message(TIME, Some(MessageId(3)), Pid(9), EncodedMessage(vec![4, 5]));
    assert_eq!(delivery.pid, Pid(2));
    assert_eq!(*delivery.program, "b");
    match delivery.call {
        ProgramCall::InterfaceMessage { interface, message_id, emitter_pid, message } => {
            assert_eq!(interface, TIME);
            assert_eq!(message_id, Some(MessageId(3)));
            assert_eq!(emitter_pid, Pid(9));
            assert_eq!(message, EncodedMessage(vec![4, 5]));
        }
        _ => panic!(),
    }
}

#[test]
fn registration_takes_a_well_formed_message_on_the_registration_interface() {
    let mut collection = programs(&[(1, "a")]);
    // Another interface.
    emit(&mut collection, "a", LOG, register_message(TIME), None);
    // Cut short, too long, and of an unknown kind.
    let good = register_message(TIME).0;
    emit(&mut collection, "a", REGISTRY, EncodedMessage(good[..32].to_vec()), None);
    let mut long = good.clone();
    long.push(0);
    emit(&mut collection, "a", REGISTRY, EncodedMessage(long), None);
    let mut unknown = good.clone();
    unknown[0] = 1;
    emit(&mut collection, "a", REGISTRY, EncodedMessage(unknown), None);
    emit(&mut collection, "a", REGISTRY, EncodedMessage(Vec::new()), None);
    assert!(!collection.handles_interface(&TIME));
    emit(&mut collection, "a", REGISTRY, EncodedMessage(good), None);
    assert!(collection.handles_interface(&TIME));
}

#[test]
fn first_pushed_program_that_registered_handles_the_interface() {
    let mut collection = programs(&[(1, "a"), (2, "b"), (3, "c")]);
    register(&mut collection, "b", TIME);
    register(&mut collection, "c", TIME);
    assert_eq!(*collection.interface_message(TIME, None, Pid(9), EncodedMessage(vec![])).program, "b");
    register(&mut collection, "b", TIME);
    collection.push(Pid(4), "d");
    assert_eq!(*collection.interface_message(TIME, None, Pid(9), EncodedMessage(vec![])).program, "b");
    register(&mut collection, "a", TIME);
    assert_eq!(*collection.interface_message(TIME, None, Pid(9), EncodedMessage(vec![])).program, "a");
}

#[test]
fn response_goes_to_the_emitter_once() {
    let mut collection = programs(&[(1, "a"), (2, "b")]);
    assert_eq!(emit_and_acknowledge(&mut collection, "b", 11), ("b", true));
    assert!(collection.expects_response(MessageId(11)));
    assert!(!collection.expects_response(MessageId(12)));
    {
        let delivery = collection.message_response(MessageId(11), Ok(EncodedMessage(vec![6])));
        assert_eq!(delivery.pid, Pid(2));
        assert_eq!(*delivery.program, "b");
        match delivery.call {
            ProgramCall::MessageResponse { message_id, response } => {
                assert_eq!(message_id, MessageId(11));
                assert_eq!(response, Ok(EncodedMessage(vec![6])));
            }
            _ => panic!(),
        }
    }
    assert!(!collection.expects_response(MessageId(11)));
}

#[test]
fn failed_response_is_passed_on() {
    let mut collection = programs(&[(1, "a")]);
    emit_and_acknowledge(&mut collection, "a", 11);
    let delivery = collection.message_response(MessageId(11), Err(()));
    assert!(matches!(
        delivery.call,
        ProgramCall::MessageResponse { message_id: MessageId(11), response: Err(()) }
    ));
}

#[test]
fn same_identifier_goes_to_the_first_pushed_first() {
    let mut collection = programs(&[(1, "a"), (2, "b")]);
    assert_eq!(emit_and_acknowledge(&mut collection, "b", 11), ("b", true));
    assert_eq!(emit_and_acknowledge(&mut collection, "a", 11), ("a", true));
    assert_eq!(*collection.message_response(MessageId(11), Err(())).program, "a");
    assert!(collection.expects_response(MessageId(11)));
    assert_eq!(*collection.message_response(MessageId(11), Err(())).program, "b");
    assert!(!collection.expects_response(MessageId(11)));
}

#[test]
fn second_acknowledgement_of_an_identifier_is_noticed() {
    let mut collection = programs(&[(1, "a")]);
    assert_eq!(emit_and_acknowledge(&mut collection, "a", 11), ("a", true));
    assert_eq!(emit_and_acknowledge(&mut collection, "a", 11), ("a", false));
    assert_eq!(*collection.message_response(MessageId(11), Err(())).program, "a");
    assert!(!collection.expects_response(MessageId(11)));
}

#[test]
fn message_that_nobody_acknowledges_gets_no_response() {
    let mut collection = programs(&[(1, "a")]);
    let handle = emit(&mut collection, "a", TIME, EncodedMessage(vec![]), Some("a"));
    assert!(handle.is_some());
    drop(handle);
    assert!(emit(&mut collection, "a", TIME, EncodedMessage(vec![]), None).is_none());
    assert!(!collection.expects_response(MessageId(1)));
}

#[test]
fn cancelled_message_is_still_waited_for() {
    let mut collection = programs(&[(1, "a")]);
    emit_and_acknowledge(&mut collection, "a", 11);
    poll_programs(&mut collection, |_| {
        Poll::Ready(NativeProgramEvent::CancelMessage { message_id: MessageId(11) })
    });
    assert!(collection.expects_response(MessageId(11)));
}

#[test]
fn write_handle_outlives_other_operations() {
    let mut collection = programs(&[(1, "a"), (2, "b")]);
    let of_b = emit(&mut collection, "b", TIME, EncodedMessage(vec![]), Some("b")).unwrap();
    let of_a = emit(&mut collection, "a", TIME, EncodedMessage(vec![]), Some("a")).unwrap();
    register(&mut collection, "a", LOG);
    collection.push(Pid(3), "c");
    collection.process_destroyed(Pid(9));
    assert_eq!(of_a.acknowledge(&mut collection, MessageId(20)), ("a", true));
    assert_eq!(of_b.acknowledge(&mut collection, MessageId(21)), ("b", true));
    assert_eq!(*collection.message_response(MessageId(21), Err(())).program, "b");
    assert_eq!(*collection.message_response(MessageId(20), Err(())).program, "a");
}

#[test]
fn every_program_is_told_of_a_destroyed_process() {
    let mut collection = programs(&[(7, "a"), (8, "b"), (9, "c")]);
    register(&mut collection, "b", TIME);
    let deliveries = collection.process_destroyed(Pid(8));
    let told: Vec<(Pid, &'static str)> = deliveries.iter().map(|delivery| (delivery.pid, *delivery.program)).collect();
    assert_eq!(told, vec![(Pid(7), "a"), (Pid(8), "b"), (Pid(9), "c")]);
    for delivery in &deliveries {
        assert!(matches!(delivery.call, ProgramCall::ProcessDestroyed { pid: Pid(8) }));
    }
    drop(deliveries);
    // The destroyed process stays in the collection.
    assert!(collection.contains(Pid(8)));
    assert!(collection.handles_interface(&TIME));
}

#[test]
fn adapter_gives_back_what_it_does_not_deliver() {
    let mut adapter = Adapter::new("a");
    assert_eq!(*adapter.inner(), "a");
    assert!(!adapter.has_registered(&TIME));
    let refused = adapter.deliver_interface_message(TIME, None, Pid(1), EncodedMessage(vec![1]));
    assert_eq!(refused.unwrap_err(), EncodedMessage(vec![1]));
    assert!(!adapter.waits_for(MessageId(1)));
    let refused = adapter.deliver_response(MessageId(1), Ok(EncodedMessage(vec![2])));
    assert_eq!(refused.unwrap_err(), Ok(EncodedMessage(vec![2])));
    assert!(matches!(adapter.process_destroyed(Pid(3)), ProgramCall::ProcessDestroyed { pid: Pid(3) }));
}

#[test]
fn adapter_notes_registrations() {
    let mut adapter = Adapter::new("a");
    let event = NativeProgramEvent::Emit {
        interface: REGISTRY,
        message_id_write: Some("writer"),
        message: register_message(TIME),
    };
    match adapter.handle_poll(&REGISTRY, Poll::Ready(event)) {
        Poll::Ready(NativeProgramEvent::Emit { interface, message_id_write, message }) => {
            assert_eq!(interface, REGISTRY);
            assert_eq!(message, register_message(TIME));
            assert_eq!(message_id_write.unwrap().inner, Some("writer"));
        }
        _ => panic!(),
    }
    assert!(adapter.has_registered(&TIME));
    assert!(matches!(adapter.handle_poll(&REGISTRY, Poll::<Event>::Pending), Poll::Pending));
    let (polled, cx) = adapter.poll_next_event(&REGISTRY, 8, |cx: u64, program: &&'static str| -> (Poll<Event>, u64) {
        assert_eq!(*program, "a");
        (Poll::Ready(NativeProgramEvent::CancelMessage { message_id: MessageId(2) }), cx + 1)
    });
    assert_eq!(cx, 9);
    assert!(matches!(
        polled,
        Poll::Ready(NativeProgramEvent::CancelMessage { message_id: MessageId(2) })
    ));
    let delivered = adapter.deliver_interface_message(TIME, None, Pid(1), EncodedMessage(vec![1]));
    assert!(matches!(delivered, Ok(ProgramCall::InterfaceMessage { emitter_pid: Pid(1), message_id: None, .. })));
}

#[test]
fn write_adapter_is_used_up() {
    let mut adapter = Adapter::new("a");
    let mut write = MessageIdWriteAdapter { inner: Some("writer") };
    assert_eq!(write.acknowledge(&mut adapter, MessageId(4)), ("writer", true));
    assert!(write.inner.is_none());
    assert!(adapter.waits_for(MessageId(4)));
    assert!(!adapter.expect_response(MessageId(4)));
    assert!(adapter.expect_response(MessageId(5)));
    let mut write = MessageIdWriteAdapter { inner: Some("other") };
    assert_eq!(write.take(), "other");
    assert!(write.inner.is_none());
    assert!(matches!(
        adapter.deliver_response(MessageId(4), Err(())),
        Ok(ProgramCall::MessageResponse { message_id: MessageId(4), response: Err(()) })
    ));
    assert!(!adapter.waits_for(MessageId(4)));
}

#[test]
fn interface_hashes_are_equal_if_their_bytes_are() {
    let mut bytes = [1; 32];
    assert_eq!(TIME, InterfaceHash(bytes));
    bytes[31] = 0;
    assert_ne!(TIME, InterfaceHash(bytes));
    bytes[31] = 1;
    bytes[0] = 0;
    assert_ne!(TIME, InterfaceHash(bytes));
}
