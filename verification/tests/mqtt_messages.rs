use tedge_core::deliver;
use tedge_core::new_mailbox;
use tedge_core::topic_filter_accepts;
use tedge_core::C8YConnectionBuilder;
use tedge_core::C8YHttpProxy;
use tedge_core::C8YRestError;
use tedge_core::C8YRestRequest;
use tedge_core::C8YRestResponse;
use tedge_core::C8YRestResult;
use tedge_core::Address;
use tedge_core::InitMessageFn;
use tedge_core::Mailbox;
use tedge_core::MqttActorMessage;
use tedge_core::MqttMessage;
use tedge_core::QoS;
use tedge_core::RecvOutcome;
use tedge_core::Sender;

#[test]
fn topic_filters_follow_mqtt_wildcards() {
    assert!(topic_filter_accepts("tedge/measurements", "tedge/measurements"));
    assert!(!topic_filter_accepts("tedge/measurements", "tedge/events"));
    assert!(topic_filter_accepts("tedge/+/commands", "tedge/child1/commands"));
    assert!(!topic_filter_accepts("tedge/+/commands", "tedge/child1/other"));
    assert!(!topic_filter_accepts("tedge/+/commands", "tedge/commands"));
    assert!(topic_filter_accepts("c8y/#", "c8y/s/us"));
    assert!(topic_filter_accepts("c8y/#", "c8y"));
    assert!(topic_filter_accepts("#", "anything/at/all"));
    assert!(!topic_filter_accepts("c8y/s", "c8y/s/us"));
    assert!(!topic_filter_accepts("c8y/s/us", "c8y/s"));
    assert!(topic_filter_accepts("+/+", "a/b"));
    assert!(!topic_filter_accepts("+", "a/b"));
}

#[test]
fn init_message_is_reproduced_on_every_connect() {
    let message = MqttMessage {
        topic: "tedge/health".to_string(),
        payload: b"{\"status\":\"up\"}".to_vec(),
        qos: QoS::AtLeastOnce,
        retain: true,
    };
    let init = InitMessageFn::new(message.clone());
    assert_eq!(init.new_init_message(), message);
    assert_eq!(init.new_init_message(), message);
}

#[test]
fn actor_messages_keep_their_origin_apart() {
    let message = MqttMessage {
        topic: "c8y/s/us".to_string(),
        payload: b"119,software-list".to_vec(),
        qos: QoS::AtMostOnce,
        retain: false,
    };
    let direct = MqttActorMessage::DirectMessage(message.clone());
    let peer = MqttActorMessage::PeerMessage(message);
    assert_ne!(direct, peer);
}

struct OneClientProxy {
    requests: Option<Mailbox<C8YRestRequest>>,
    responses: Option<Address<C8YRestResult>>,
}

impl C8YConnectionBuilder for OneClientProxy {
    fn connect(&mut self, response_sender: Address<C8YRestResult>) -> Address<C8YRestRequest> {
        let (mailbox, address) = new_mailbox(4);
        self.requests = Some(mailbox);
        self.responses = Some(response_sender);
        address
    }
}

#[test]
fn proxy_handle_round_trips_one_request() {
    let mut builder = OneClientProxy { requests: None, responses: None };
    let mut handle = C8YHttpProxy::new(&mut builder);
    let mut requests = builder.requests.unwrap();
    let mut responses = builder.responses.unwrap();

    handle
        .send_request(C8YRestRequest::CreateEvent("device restarted".to_string()))
        .unwrap();
    deliver(&mut handle.request_sender, &mut requests);
    match requests.recv() {
        RecvOutcome::Message(C8YRestRequest::CreateEvent(text)) => {
            assert_eq!(text, "device restarted");
        }
        _ => panic!("the request should have arrived"),
    }

    responses
        .send(Ok(C8YRestResponse::EventId("8002".to_string())))
        .unwrap();
    deliver(&mut responses, &mut handle.response_receiver);
    let answer = match handle.response_receiver.recv() {
        RecvOutcome::Message(result) => Some(result),
        _ => None,
    };
    assert_eq!(
        C8YHttpProxy::expect_event_id(answer),
        Ok("8002".to_string())
    );
}

#[test]
fn unexpected_proxy_answers_are_errors() {
    assert_eq!(
        C8YHttpProxy::expect_event_id(Some(Ok(C8YRestResponse::Unit))),
        Err(C8YRestError::UnexpectedResponse)
    );
    assert_eq!(
        C8YHttpProxy::expect_event_id(None),
        Err(C8YRestError::ChannelError)
    );
    assert_eq!(
        C8YHttpProxy::expect_unit(Some(Ok(C8YRestResponse::Unit))),
        Ok(())
    );
    assert_eq!(
        C8YHttpProxy::expect_unit(Some(Ok(C8YRestResponse::EventId("1".to_string())))),
        Err(C8YRestError::UnexpectedResponse)
    );
    assert_eq!(
        C8YHttpProxy::expect_unit(Some(Err(C8YRestError::ChannelError))),
        Err(C8YRestError::ChannelError)
    );
}
