use meic_mq::broker::handlers::{
    error_message, handle_get, handle_get_ack, handle_put, handle_requests, handle_sub,
    handle_unsub, serve,
};
use meic_mq::broker::{BrokerState, Snapshot, TopicData};
use meic_mq::keyed::{StringMap, StringSet};
use meic_mq::messages::error::{BrokerErrorMessage, BrokerErrorType};
use meic_mq::messages::{
    get, put, subscribe, unsubscribe, Document, Message, NetworkTradeable,
};

fn s(text: &str) -> String {
    text.to_string()
}

fn error_kind(reply: Message) -> BrokerErrorType {
    let error = BrokerErrorMessage::from_message(reply).expect("an error reply");
    assert_eq!(error.broker_id, "broker-1");
    assert_eq!(
        error.description,
        BrokerErrorMessage::new(error.error_type, s("x")).description
    );
    error.error_type
}

#[test]
fn cars_scenario_over_the_wire() {
    let mut state = BrokerState::with_id(s("broker-1"));

    let reply = handle_requests(&mut state, subscribe::Request::new(s("S"), s("cars")).as_message());
    let reply = subscribe::Reply::from_message(reply).unwrap();
    assert_eq!(reply.sub_id, "S");
    assert_eq!(reply.topic, "cars");
    assert_eq!(reply.broker_id, "broker-1");
    assert_eq!(reply.post_offset, 1);

    let first_payload = b"first".to_vec();
    let second_payload = b"second".to_vec();
    for (id, payload) in [("id-0", &first_payload), ("id-1", &second_payload)] {
        let request = put::Request::with_uuid(s("P"), s("cars"), s(id), payload.clone());
        let reply = handle_requests(&mut state, request.as_message());
        let reply = put::Reply::from_message(reply).unwrap();
        assert!(reply.match_request(&request));
        assert_eq!(reply.broker_id, "broker-1");
    }

    for _ in 0..2 {
        let reply = handle_requests(&mut state, get::Request::new(s("S"), s("cars")).as_message());
        let reply = get::Reply::from_message(reply).unwrap();
        assert_eq!(reply.sub_id, "S");
        assert_eq!(reply.message_no, 1);
        assert_eq!(reply.broker_id, "broker-1");
        assert_eq!(reply.payload, first_payload);
    }

    let reply = handle_requests(&mut state, get::Ack::new(s("S"), 1).as_message());
    let reply = get::AckReply::from_message(reply).unwrap();
    assert_eq!(reply.sub_id, "S");
    assert_eq!(reply.message_no, 1);
    assert!(state.topics().get(&s("cars")).unwrap().get(1).is_none());

    let reply = handle_requests(&mut state, get::Request::new(s("S"), s("cars")).as_message());
    let reply = get::Reply::from_message(reply).unwrap();
    assert_eq!((reply.message_no, reply.payload), (2, second_payload));

    let reply = handle_requests(&mut state, get::Ack::new(s("S"), 2).as_message());
    assert!(get::AckReply::from_message(reply).is_ok());
    assert!(state.topics().get(&s("cars")).unwrap().get(2).is_none());

    let reply = handle_requests(&mut state, unsubscribe::Request::new(s("S")).as_message());
    let reply = unsubscribe::Reply::from_message(reply).unwrap();
    assert_eq!(reply.sub_id, "S");
    assert_eq!(reply.broker_id, "broker-1");
    assert!(state.subscribers().get(&s("S")).is_none());
}

#[test]
fn unknown_kind_is_answered_with_unknown_message() {
    let mut state = BrokerState::with_id(s("broker-1"));
    let reply = handle_requests(&mut state, Message::new(s("HELLO"), Document::new()));
    assert_eq!(error_kind(reply), BrokerErrorType::UnknownMessage);
    // A reply kind is no request.
    let reply = handle_requests(&mut state, get::AckReply::new(s("S"), 1).as_message());
    assert_eq!(error_kind(reply), BrokerErrorType::UnknownMessage);
    assert_eq!(state.subscribers().len(), 0);
    assert_eq!(state.topics().len(), 0);
}

#[test]
fn undecodable_request_is_answered_with_unknown_message() {
    let mut state = BrokerState::with_id(s("broker-1"));
    let mut doc = Document::new();
    doc.put_text("sub_id", s("S"));
    let reply = handle_requests(&mut state, Message::new(s("SUB"), doc));
    assert_eq!(error_kind(reply), BrokerErrorType::UnknownMessage);
    assert_eq!(state.subscribers().len(), 0);

    let mut doc = Document::new();
    doc.put_text("sub_id", s("S"));
    doc.put_bytes("message_no", vec![1]);
    let reply = handle_requests(&mut state, Message::new(s("GET_ACK"), doc));
    assert_eq!(error_kind(reply), BrokerErrorType::UnknownMessage);
}

#[test]
fn handler_errors_carry_kind_and_broker_id() {
    let mut state = BrokerState::with_id(s("broker-1"));
    assert_eq!(
        error_kind(handle_get(&mut state, get::Request::new(s("S"), s("cars")))),
        BrokerErrorType::SubscriberNotRegistered
    );
    assert_eq!(
        error_kind(handle_put(
            &mut state,
            put::Request::with_uuid(s("P"), s("cars"), s("id"), vec![1])
        )),
        BrokerErrorType::UnknownTopic
    );
    assert!(subscribe::Reply::from_message(handle_sub(
        &mut state,
        subscribe::Request::new(s("S"), s("cars"))
    ))
    .is_ok());
    assert_eq!(
        error_kind(handle_sub(&mut state, subscribe::Request::new(s("S"), s("cars")))),
        BrokerErrorType::SubscriberAlreadyRegistered
    );
    assert_eq!(
        error_kind(handle_get(&mut state, get::Request::new(s("S"), s("bikes")))),
        BrokerErrorType::TopicMismatch
    );
    assert_eq!(
        error_kind(handle_get(&mut state, get::Request::new(s("S"), s("cars")))),
        BrokerErrorType::NoPostsAvailable
    );
    assert!(put::Reply::from_message(handle_put(
        &mut state,
        put::Request::with_uuid(s("P"), s("cars"), s("id"), vec![1])
    ))
    .is_ok());
    assert_eq!(
        error_kind(handle_put(
            &mut state,
            put::Request::with_uuid(s("P"), s("cars"), s("id"), vec![1])
        )),
        BrokerErrorType::DuplicatePublish
    );
    assert_eq!(
        error_kind(handle_get_ack(&mut state, get::Ack::new(s("S"), 2))),
        BrokerErrorType::AckMismatch
    );
    assert_eq!(
        error_kind(handle_get_ack(&mut state, get::Ack::new(s("S"), 1))),
        BrokerErrorType::ProtocolStateViolation
    );
    assert_eq!(
        error_kind(handle_get_ack(&mut state, get::Ack::new(s("nobody"), 1))),
        BrokerErrorType::SubscriberNotRegistered
    );
    assert_eq!(
        error_kind(handle_unsub(&mut state, unsubscribe::Request::new(s("nobody")))),
        BrokerErrorType::SubscriberNotRegistered
    );
    assert_eq!(
        error_kind(error_message(&state, BrokerErrorType::UnknownMessage)),
        BrokerErrorType::UnknownMessage
    );
}

#[test]
fn subscribe_reply_names_the_post_after_the_cursor() {
    let mut state = BrokerState::with_id(s("broker-1"));
    handle_sub(&mut state, subscribe::Request::new(s("first"), s("cars")));
    for id in ["a", "b", "c"] {
        handle_put(&mut state, put::Request::with_uuid(s("P"), s("cars"), s(id), vec![0]));
    }
    let reply = handle_sub(&mut state, subscribe::Request::new(s("late"), s("cars")));
    let reply = subscribe::Reply::from_message(reply).unwrap();
    assert_eq!(reply.post_offset, 4);
    assert_eq!(state.subscribers().get(&s("late")).unwrap().last_read_post(), 3);
}

#[test]
fn serve_needs_headroom() {
    let mut state = BrokerState::with_id(s("broker-1"));
    let reply = serve(&mut state, subscribe::Request::new(s("S"), s("cars")).as_message());
    let reply = subscribe::Reply::from_message(reply.expect("an empty broker has headroom")).unwrap();
    assert_eq!(reply.post_offset, 1);
    assert!(state.subscribers().get(&s("S")).is_some());

    let full = Snapshot {
        broker_uuid: s("broker-1"),
        subs: StringMap { keys: Vec::new(), values: Vec::new() },
        topics: StringMap {
            keys: vec![s("full")],
            values: vec![TopicData::from_parts(u64::MAX, u64::MAX, vec![]).unwrap()],
        },
        received_uuids: StringSet { items: Vec::new() },
    };
    let mut state = BrokerState::from_snapshot(full).unwrap();
    assert!(serve(&mut state, get::Request::new(s("S"), s("full")).as_message()).is_none());
    assert_eq!(state.subscribers().len(), 0);
    // The request itself is within range, so the dispatcher serves it.
    let reply = handle_requests(&mut state, get::Request::new(s("S"), s("full")).as_message());
    assert_eq!(error_kind(reply), BrokerErrorType::SubscriberNotRegistered);
}
