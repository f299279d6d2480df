use tedge_core::deliver;
use tedge_core::echo_round_trip;
use tedge_core::exchange_mirrored;
use tedge_core::new_mailbox;
use tedge_core::run_actor;
use tedge_core::transfer;
use tedge_core::ActorOutcome;
use tedge_core::Address;
use tedge_core::ChannelError;
use tedge_core::ConcurrentServiceMessageBox;
use tedge_core::HttpActorInstance;
use tedge_core::HttpConfig;
use tedge_core::HttpRequest;
use tedge_core::KeyedSender;
use tedge_core::Mailbox;
use tedge_core::NextRequest;
use tedge_core::PendingResponse;
use tedge_core::PrivateHttpActor;
use tedge_core::RecvOutcome;
use tedge_core::RequestResponseHandler;
use tedge_core::Runtime;
use tedge_core::RuntimeAction;
use tedge_core::RuntimeError;
use tedge_core::RuntimeState;
use tedge_core::RuntimeStep;
use tedge_core::Sender;
use tedge_core::SenderVec;
use tedge_core::SimpleMessageBox;
use tedge_core::TaskOutcome;
use tedge_core::TaskRef;
use tedge_core::TaskTermination;

fn message(outcome: RecvOutcome<String>) -> Option<String> {
    match outcome {
        RecvOutcome::Message(m) => Some(m),
        _ => None,
    }
}

/// Once every sender handle is dropped, `recv` drains what is queued, then
/// reports closure forever and never a stale message.
#[test]
fn channel_closure_is_terminal() {
    let (mut mailbox, mut address) = new_mailbox::<String>(4);
    address.send("last words".to_string()).unwrap();
    deliver(&mut address, &mut mailbox);
    mailbox.sender_dropped();

    assert_eq!(message(mailbox.recv()), Some("last words".to_string()));
    for _ in 0..3 {
        assert!(matches!(mailbox.recv(), RecvOutcome::Closed));
    }
}

#[test]
fn recv_reports_pending_while_a_sender_lives() {
    let (mut mailbox, _address) = new_mailbox::<String>(4);
    assert!(matches!(mailbox.recv(), RecvOutcome::Pending));
}

#[test]
fn send_fails_once_the_receiver_is_gone() {
    let (_, mut address) = new_mailbox::<String>(4);
    address.mark_peer_closed();
    assert_eq!(
        address.send("nobody listens".to_string()),
        Err(ChannelError::SendError)
    );
}

/// A box configured with `max_concurrency = K` never lets more than `K`
/// requests wait for completion, and asks for draining at the cap.
#[test]
fn concurrent_box_enforces_backpressure_bound() {
    let (mut client, mut service) = ConcurrentServiceMessageBox::<String, String>::new_channel("Service", 2);

    for i in 0..5usize {
        client.send((i, format!("request {i}"))).unwrap();
    }
    transfer(&mut client, &mut service.clients);

    let mut task = 0u64;
    let mut admitted = 0usize;
    loop {
        assert!(service.pending_responses.len() <= 2);
        match service.next_request() {
            NextRequest::Request((client_id, body)) => {
                assert_eq!(body, format!("request {client_id}"));
                service.send_response_once_done(PendingResponse { task });
                task += 1;
                admitted += 1;
            }
            NextRequest::MustDrain => {
                assert_eq!(service.pending_responses.len(), 2);
                let id = admitted - service.pending_responses.len();
                service.finish_pending(0, TaskOutcome::Completed((id, format!("response {id}"))));
            }
            NextRequest::Pending | NextRequest::Closed => break,
        }
    }
    assert_eq!(admitted, 5);
}

/// Responses forwarded out of order still reach the client tagged with the
/// identity of the request they answer.
#[test]
fn responses_stay_correlated_to_their_clients() {
    let (mut client, mut service) = ConcurrentServiceMessageBox::<String, String>::new_channel("Service", 3);

    client.send((7, "seven's request".to_string())).unwrap();
    client.send((9, "nine's request".to_string())).unwrap();
    transfer(&mut client, &mut service.clients);

    for task in 0..2u64 {
        match service.next_request() {
            NextRequest::Request(_) => service.send_response_once_done(PendingResponse { task }),
            _ => panic!("expected a request"),
        }
    }

    // The second computation finishes first: completion order is reversed.
    service.finish_pending(1, TaskOutcome::Completed((9, "nine's answer".to_string())));
    service.finish_pending(0, TaskOutcome::Completed((7, "seven's answer".to_string())));

    transfer(&mut service.clients, &mut client);
    let first = client.recv();
    let second = client.recv();
    match (first, second) {
        (RecvOutcome::Message((c1, r1)), RecvOutcome::Message((c2, r2))) => {
            assert_eq!((c1, r1.as_str()), (9, "nine's answer"));
            assert_eq!((c2, r2.as_str()), (7, "seven's answer"));
        }
        _ => panic!("both responses should have arrived"),
    }
}

/// A panicked or cancelled computation is dropped; the client gets nothing,
/// but the slot is freed.
#[test]
fn failed_computations_free_their_slot_silently() {
    let (mut client, mut service) = ConcurrentServiceMessageBox::<String, String>::new_channel("Service", 1);
    client.send((1, "doomed".to_string())).unwrap();
    transfer(&mut client, &mut service.clients);

    match service.next_request() {
        NextRequest::Request(_) => service.send_response_once_done(PendingResponse { task: 0 }),
        _ => panic!("expected a request"),
    }
    service.finish_pending(0, TaskOutcome::Panicked);
    assert!(service.pending_responses.is_empty());

    transfer(&mut service.clients, &mut client);
    assert!(matches!(client.recv(), RecvOutcome::Pending));
}

/// The single-shot round trip against an echoing service returns the exact
/// value sent.
#[test]
fn request_response_round_trip_echoes() {
    assert_eq!(echo_round_trip(42u64), 42u64);

    let (mut service, mut handler) = RequestResponseHandler::<String, String>::new_channel("Requester");
    handler.send_request("ping".to_string()).unwrap();
    transfer(&mut handler.messages, &mut service);
    let request = match service.recv() {
        RecvOutcome::Message(m) => m,
        _ => panic!("the request should have arrived"),
    };
    service.send(request).unwrap();
    transfer(&mut service, &mut handler.messages);
    assert_eq!(handler.take_response(), Ok(Some("ping".to_string())));
}

#[test]
fn request_response_fails_once_the_service_is_gone() {
    let (_, mut handler) = RequestResponseHandler::<String, String>::new_channel("Requester");
    handler.messages.input.sender_dropped();
    assert_eq!(handler.take_response(), Err(ChannelError::ReceiveError));
}

/// Everything sent on one mirrored box arrives as the other's input, and the
/// other way round, order preserved.
#[test]
fn mirrored_boxes_swap_inputs_and_outputs() {
    let forth: Vec<String> = (0..10).map(|i| format!("msg {i}")).collect();
    let back: Vec<u32> = (0..7).collect();
    let (got_forth, got_back) = exchange_mirrored(forth.clone(), back.clone());
    assert_eq!(got_forth, forth);
    assert_eq!(got_back, back);

    let (mut client, mut main) = SimpleMessageBox::<String, String>::new_channel("X");
    assert_eq!(main.name(), "X");
    assert_eq!(client.name(), "X-Client");
    main.send("from main".to_string()).unwrap();
    client.send("from client".to_string()).unwrap();
    transfer(&mut main, &mut client);
    transfer(&mut client, &mut main);
    assert_eq!(message(client.recv()), Some("from main".to_string()));
    assert_eq!(message(main.recv()), Some("from client".to_string()));
}

#[test]
fn closed_output_discards_messages_quietly() {
    let (mut client, mut main) = SimpleMessageBox::<String, String>::new_channel("X");
    main.close_output();
    main.send("vanishes".to_string()).unwrap();
    transfer(&mut main, &mut client);
    assert!(matches!(client.recv(), RecvOutcome::Pending));
}

/// A `SenderVec` over `[s0, s1, s2]` dispatches `(1, m)` only to `s1`, and
/// an out-of-range index loses the message without an error.
#[test]
fn keyed_routing_dispatches_by_index() {
    let targets: Vec<(Mailbox<String>, Address<String>)> =
        (0..3).map(|_| new_mailbox::<String>(4)).collect();
    let mut mailboxes = Vec::new();
    let mut senders = Vec::new();
    for (mailbox, address) in targets {
        mailboxes.push(mailbox);
        senders.push(address);
    }
    let mut vec_sender = SenderVec::new_sender(senders);

    vec_sender.route((1, "for the middle one".to_string())).unwrap();
    assert_eq!(vec_sender.route((17, "lost".to_string())), Ok(()));

    for (i, mailbox) in mailboxes.iter_mut().enumerate() {
        deliver(&mut vec_sender.senders[i], mailbox);
        let got = message(mailbox.recv());
        if i == 1 {
            assert_eq!(got, Some("for the middle one".to_string()));
        } else {
            assert_eq!(got, None);
        }
    }
}

#[test]
fn keyed_sender_stamps_its_key() {
    let (mut mailbox, address) = new_mailbox::<(u32, String)>(4);
    let mut keyed = KeyedSender::new_sender(5u32, address);
    keyed.send("hello".to_string()).unwrap();
    deliver(&mut keyed.address, &mut mailbox);
    match mailbox.recv() {
        RecvOutcome::Message((key, body)) => {
            assert_eq!(key, 5);
            assert_eq!(body, "hello");
        }
        _ => panic!("the keyed message should have arrived"),
    }
}

/// A panicked background task resolves to `RuntimePanic`; a cooperative end
/// resolves without an error; a cancelled one is told apart from a panic.
#[test]
fn runtime_join_tells_panic_from_cancellation() {
    assert_eq!(Runtime::wait_for_completion(TaskTermination::Completed), Ok(()));
    assert_eq!(
        Runtime::wait_for_completion(TaskTermination::Panicked),
        Err(RuntimeError::RuntimePanic)
    );
    assert_eq!(
        Runtime::wait_for_completion(TaskTermination::Cancelled),
        Err(RuntimeError::RuntimeCancellation)
    );
}

#[test]
fn runtime_spawns_until_shutdown_and_ignores_later_actions() {
    let mut runtime = Runtime::try_new().unwrap();
    let mut handle = runtime.get_handle();
    handle
        .spawn(TaskRef { id: 1, name: "first".to_string() })
        .unwrap();
    handle.shutdown().unwrap();
    handle
        .spawn(TaskRef { id: 2, name: "late".to_string() })
        .unwrap();
    deliver(&mut handle.actions_sender, &mut runtime.actor.actions);

    match runtime.actor.step() {
        RuntimeStep::Launch(task) => {
            assert_eq!(task.id, 1);
            assert_eq!(task.name, "first");
        }
        _ => panic!("the first action should spawn a task"),
    }
    assert!(matches!(runtime.actor.step(), RuntimeStep::Finished));
    assert_eq!(runtime.actor.state, RuntimeState::Stopped);
    // The action queued after the shutdown is never launched.
    assert!(matches!(runtime.actor.step(), RuntimeStep::Finished));
    assert_eq!(runtime.actor.spawned.len(), 1);
}

#[test]
fn runtime_handle_failure_maps_to_send_error() {
    let mut runtime = Runtime::try_new().unwrap();
    let mut handle = runtime.get_handle();
    handle.actions_sender.mark_peer_closed();
    assert_eq!(
        handle.shutdown(),
        Err(RuntimeError::SendError(ChannelError::SendError))
    );
    assert_eq!(
        handle.send(RuntimeAction::Shutdown),
        Err(ChannelError::SendError)
    );
}

/// An actor processes its whole mailbox in order and forwards every output.
#[test]
fn actor_runs_to_completion_over_its_mailbox() {
    let (mut mailbox, mut address) = new_mailbox::<HttpRequest>(8);
    for _ in 0..3 {
        address.send(HttpRequest {}).unwrap();
    }
    deliver(&mut address, &mut mailbox);

    let mut actor = PrivateHttpActor::new(HttpConfig {});
    let (mut responses, mut response_sender) = new_mailbox(8);
    assert!(matches!(
        run_actor(&mut actor, &mut mailbox, &mut response_sender),
        ActorOutcome::Waiting
    ));
    mailbox.sender_dropped();
    assert!(matches!(
        run_actor(&mut actor, &mut mailbox, &mut response_sender),
        ActorOutcome::Completed
    ));

    deliver(&mut response_sender, &mut responses);
    for _ in 0..3 {
        assert!(matches!(responses.recv(), RecvOutcome::Message(_)));
    }
    assert!(matches!(responses.recv(), RecvOutcome::Pending));
}

#[test]
fn http_instance_hands_out_keyed_recipients() {
    let mut instance = HttpActorInstance::new(HttpConfig {});
    let (_responses_a, address_a) = new_mailbox(4);
    let (_responses_b, address_b) = new_mailbox(4);
    let mut first = instance.add_client(address_a);
    let mut second = instance.add_client(address_b);
    let extra = second.clone();
    instance.mailbox.sender_cloned();
    drop(extra);
    instance.mailbox.sender_dropped();

    first.send(HttpRequest {}).unwrap();
    second.send(HttpRequest {}).unwrap();
    deliver(&mut first.address, &mut instance.mailbox);
    deliver(&mut second.address, &mut instance.mailbox);

    match instance.mailbox.recv() {
        RecvOutcome::Message((idx, _)) => assert_eq!(idx, 0),
        _ => panic!("the first client's request should be first"),
    }
    match instance.mailbox.recv() {
        RecvOutcome::Message((idx, _)) => assert_eq!(idx, 1),
        _ => panic!("the second client's request should follow"),
    }
}

#[test]
fn empty_exchanges_are_fine() {
    let (got_forth, got_back) = exchange_mirrored::<String, u32>(Vec::new(), Vec::new());
    assert!(got_forth.is_empty());
    assert!(got_back.is_empty());
}

#[test]
fn a_full_mailbox_refuses_messages_until_drained() {
    let (mut mailbox, _address) = new_mailbox::<u32>(2);
    assert!(mailbox.accept(1));
    assert!(mailbox.accept(2));
    assert!(!mailbox.accept(3));
    assert!(matches!(mailbox.recv(), RecvOutcome::Message(1)));
    assert!(mailbox.accept(3));
}

#[test]
fn delivery_moves_only_what_fits() {
    let (mut mailbox, mut address) = new_mailbox::<u32>(2);
    for i in 0..5 {
        address.send(i).unwrap();
    }
    deliver(&mut address, &mut mailbox);
    assert!(matches!(mailbox.recv(), RecvOutcome::Message(0)));
    assert!(matches!(mailbox.recv(), RecvOutcome::Message(1)));
    assert!(matches!(mailbox.recv(), RecvOutcome::Pending));
    deliver(&mut address, &mut mailbox);
    assert!(matches!(mailbox.recv(), RecvOutcome::Message(2)));
    assert!(matches!(mailbox.recv(), RecvOutcome::Message(3)));
    deliver(&mut address, &mut mailbox);
    assert!(matches!(mailbox.recv(), RecvOutcome::Message(4)));
}

/// Cloning a sender list clones every inner sender in turn: same length,
/// nothing accepted through the fresh handles yet, and routing through the
/// clone leaves the first list untouched.
#[test]
fn sender_vec_clones_every_inner_sender() {
    let (mut mailbox_a, address_a) = new_mailbox::<String>(4);
    let (mut mailbox_b, address_b) = new_mailbox::<String>(4);
    let mut vec_sender = SenderVec::new_sender(vec![address_a, address_b]);
    // Register the cloned handles with their mailboxes.
    let mut cloned = vec_sender.sender_clone();
    mailbox_a.sender_cloned();
    mailbox_b.sender_cloned();
    assert_eq!(cloned.senders.len(), 2);

    cloned.route((0, "through the clone".to_string())).unwrap();
    assert!(vec_sender.senders[0].pending.is_empty());
    deliver(&mut cloned.senders[0], &mut mailbox_a);
    assert_eq!(message(mailbox_a.recv()), Some("through the clone".to_string()));
    assert!(matches!(mailbox_b.recv(), RecvOutcome::Pending));
}

/// At the cap, the admission gate drains exactly one completion and forwards
/// its response; below it, nothing happens and nothing is consumed.
#[test]
fn await_idle_processor_drains_exactly_at_the_cap() {
    let (mut client, mut service) = ConcurrentServiceMessageBox::<String, String>::new_channel("Service", 1);
    client.send((3, "one request".to_string())).unwrap();
    transfer(&mut client, &mut service.clients);

    // Below the cap: nothing to drain.
    assert!(!service.await_idle_processor(None));

    match service.next_request() {
        NextRequest::Request(_) => service.send_response_once_done(PendingResponse { task: 0 }),
        _ => panic!("expected a request"),
    }

    // At the cap: the reported completion leaves the set and is forwarded.
    assert!(service.await_idle_processor(Some(TaskOutcome::Completed((
        3,
        "the answer".to_string(),
    )))));
    assert!(service.pending_responses.is_empty());
    assert!(!service.await_idle_processor(None));

    transfer(&mut service.clients, &mut client);
    match client.recv() {
        RecvOutcome::Message((id, body)) => {
            assert_eq!(id, 3);
            assert_eq!(body, "the answer");
        }
        _ => panic!("the response should have arrived"),
    }
}

/// The mirrored-pair promise holds for sequences far beyond one channel
/// capacity when each message is delivered as it is sent.
#[test]
fn relayed_sequences_of_any_length_arrive_in_order() {
    let forth: Vec<String> = (0..50).map(|i| format!("long {i}")).collect();
    let back: Vec<u32> = (0..40).collect();
    let (got_forth, got_back) = tedge_core::relay_mirrored(forth.clone(), back.clone());
    assert_eq!(got_forth, forth);
    assert_eq!(got_back, back);
}

/// A `SenderVec` is itself a sender of keyed messages: sending through the
/// capability dispatches exactly as `route` does.
#[test]
fn sender_vec_is_a_sender_of_keyed_messages() {
    let (mut mailbox, address) = new_mailbox::<String>(4);
    let mut vec_sender = SenderVec::new_sender(vec![address]);
    Sender::send(&mut vec_sender, (0, "capability".to_string())).unwrap();
    Sender::send(&mut vec_sender, (9, "dropped".to_string())).unwrap();
    deliver(&mut vec_sender.senders[0], &mut mailbox);
    assert_eq!(message(mailbox.recv()), Some("capability".to_string()));
    assert!(matches!(mailbox.recv(), RecvOutcome::Pending));
}
