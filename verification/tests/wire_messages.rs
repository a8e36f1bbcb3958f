use meic_mq::messages::error::{BrokerErrorMessage, BrokerErrorType};
use meic_mq::messages::{
    get, put, subscribe, unsubscribe, DeserializationErrors, Document, Message, NetworkTradeable,
    Value,
};

fn s(text: &str) -> String {
    text.to_string()
}

fn invalid_field(result: Result<impl std::fmt::Debug, DeserializationErrors>) -> String {
    match result {
        Err(DeserializationErrors::InvalidMessageStructure(field)) => field,
        other => panic!("expected an invalid structure, got {:?}", other),
    }
}

#[test]
fn document_lookup_finds_first_field_of_a_name() {
    let mut doc = Document::new();
    assert!(doc.get("a").is_none());
    doc.put_text("a", s("one"));
    doc.put_number("b", 2);
    doc.put_bytes("c", vec![3, 4]);
    doc.put_text("a", s("shadowed"));
    assert_eq!(doc.get_text("a"), Some(s("one")));
    assert_eq!(doc.get_number("b"), Some(2));
    assert_eq!(doc.get_bytes("c"), Some(vec![3, 4]));
    assert_eq!(doc.get_text("b"), None);
    assert_eq!(doc.get_number("a"), None);
    assert_eq!(doc.get_bytes("missing"), None);
    doc.put("d", Value::Other);
    assert!(matches!(doc.get("d"), Some(Value::Other)));
    assert_eq!(doc.get_text("d"), None);
    assert_eq!(doc.get_number("d"), None);
    assert_eq!(doc.get_bytes("d"), None);
    assert_eq!(doc.fields.len(), 5);
    match doc.get("c") {
        Some(Value::Bytes(bytes)) => assert_eq!(bytes, &vec![3u8, 4]),
        other => panic!("expected bytes, got {:?}", other),
    }
}

#[test]
fn get_request_round_trip() {
    let request = get::Request::new(s("sub"), s("cars"));
    let message = request.as_message();
    assert_eq!(message.msg_type, "GET");
    assert_eq!(message.payload.get_text("sub_id"), Some(s("sub")));
    assert_eq!(message.payload.get_text("topic"), Some(s("cars")));
    let back = get::Request::from_message(message).unwrap();
    assert_eq!(back.sub_id, "sub");
    assert_eq!(back.topic, "cars");
}

#[test]
fn get_reply_round_trip() {
    let reply = get::Reply::new(s("sub"), 7, s("broker"), vec![1, 2, 3]);
    let message = reply.as_message();
    assert_eq!(message.msg_type, "GET_REPL");
    let back = get::Reply::from_message(message).unwrap();
    assert_eq!(back.sub_id, "sub");
    assert_eq!(back.message_no, 7);
    assert_eq!(back.broker_id, "broker");
    assert_eq!(back.payload, vec![1, 2, 3]);
    assert!(back.match_request(&get::Request::new(s("sub"), s("any"))));
    assert!(!back.match_request(&get::Request::new(s("other"), s("any"))));
}

#[test]
fn ack_and_ack_reply_round_trip() {
    let ack = get::Ack::new(s("sub"), u64::MAX);
    let message = ack.as_message();
    assert_eq!(message.msg_type, "GET_ACK");
    let back = get::Ack::from_message(message).unwrap();
    assert_eq!(back.sub_id, "sub");
    assert_eq!(back.message_no, u64::MAX);

    let reply = get::AckReply::new(s("sub"), 3);
    let message = reply.as_message();
    assert_eq!(message.msg_type, "GET_ACK_REPL");
    let back = get::AckReply::from_message(message).unwrap();
    assert_eq!(back.sub_id, "sub");
    assert_eq!(back.message_no, 3);
}

#[test]
fn put_round_trip_and_match() {
    let request = put::Request::with_uuid(s("pub"), s("cars"), s("uuid-1"), vec![9, 8]);
    let message = request.as_message();
    assert_eq!(message.msg_type, "PUT");
    let back = put::Request::from_message(message).unwrap();
    assert_eq!(back.pub_id, "pub");
    assert_eq!(back.topic, "cars");
    assert_eq!(back.message_uuid, "uuid-1");
    assert_eq!(back.payload, vec![9, 8]);

    let reply = put::Reply::new(s("uuid-1"), s("cars"), s("broker"));
    let message = reply.as_message();
    assert_eq!(message.msg_type, "PUT_REPL");
    let reply = put::Reply::from_message(message).unwrap();
    assert_eq!(reply.broker_id, "broker");
    assert!(reply.match_request(&back));
    assert!(!reply.match_request(&put::Request::with_uuid(s("pub"), s("bikes"), s("uuid-1"), vec![])));
    assert!(!reply.match_request(&put::Request::with_uuid(s("pub"), s("cars"), s("uuid-2"), vec![])));
}

#[test]
fn put_request_draws_a_fresh_identifier() {
    let a = put::Request::new(s("pub"), s("cars"), vec![1]);
    let b = put::Request::new(s("pub"), s("cars"), vec![1]);
    assert_eq!(a.pub_id, "pub");
    assert_eq!(a.topic, "cars");
    assert_eq!(a.payload, vec![1]);
    let text: Vec<char> = a.message_uuid.chars().collect();
    assert_eq!(text.len(), 36);
    for (i, c) in text.iter().enumerate() {
        if i == 8 || i == 13 || i == 18 || i == 23 {
            assert_eq!(*c, '-');
        } else {
            assert!(matches!(*c, '0'..='9' | 'a'..='f'));
        }
    }
    assert_eq!(text[14], '4');
    assert_ne!(a.message_uuid, b.message_uuid);
}

#[test]
fn subscribe_round_trip() {
    let request = subscribe::Request::new(s("sub"), s("cars"));
    let message = request.as_message();
    assert_eq!(message.msg_type, "SUB");
    let back = subscribe::Request::from_message(message).unwrap();
    assert_eq!(back.sub_id, "sub");
    assert_eq!(back.topic, "cars");

    let reply = subscribe::Reply::new(s("sub"), s("cars"), s("broker"), 5);
    let message = reply.as_message();
    assert_eq!(message.msg_type, "SUB_REPL");
    let back = subscribe::Reply::from_message(message).unwrap();
    assert_eq!(back.sub_id, "sub");
    assert_eq!(back.topic, "cars");
    assert_eq!(back.broker_id, "broker");
    assert_eq!(back.post_offset, 5);
}

#[test]
fn unsubscribe_round_trip() {
    let request = unsubscribe::Request::new(s("sub"));
    let message = request.as_message();
    assert_eq!(message.msg_type, "UNSUB");
    let back = unsubscribe::Request::from_message(message).unwrap();
    assert_eq!(back.sub_id, "sub");

    let reply = unsubscribe::Reply::new(s("sub"), s("broker"));
    let message = reply.as_message();
    assert_eq!(message.msg_type, "UNSUB_REPL");
    let back = unsubscribe::Reply::from_message(message).unwrap();
    assert_eq!(back.sub_id, "sub");
    assert_eq!(back.broker_id, "broker");
}

#[test]
fn error_message_round_trip_for_every_kind() {
    let kinds = [
        BrokerErrorType::SubscriberNotRegistered,
        BrokerErrorType::SubscriberAlreadyRegistered,
        BrokerErrorType::UnknownTopic,
        BrokerErrorType::DuplicatePublish,
        BrokerErrorType::TopicMismatch,
        BrokerErrorType::AckMismatch,
        BrokerErrorType::UnknownMessage,
        BrokerErrorType::NoPostsAvailable,
        BrokerErrorType::ProtocolStateViolation,
        BrokerErrorType::RetryBudgetExceeded,
    ];
    for kind in kinds {
        assert_eq!(BrokerErrorType::from_name(&kind.name().to_string()), Some(kind));
        let error = BrokerErrorMessage::new(kind, s("broker"));
        let wording = error.description.clone();
        assert!(!wording.is_empty());
        let message = error.as_message();
        assert_eq!(message.msg_type, "ERR");
        assert_eq!(message.payload.get_text("error_type"), Some(kind.name().to_string()));
        let back = BrokerErrorMessage::from_message(message).unwrap();
        assert_eq!(back.error_type, kind);
        assert_eq!(back.broker_id, "broker");
        assert_eq!(back.description, wording);
    }
    assert_eq!(BrokerErrorType::from_name(&s("NoSuchKind")), None);
    assert_eq!(BrokerErrorType::AckMismatch.name(), "AckMismatch");
}

#[test]
fn error_descriptions_are_worded_by_kind() {
    let wording = |kind| BrokerErrorMessage::new(kind, s("b")).description;
    assert_eq!(
        wording(BrokerErrorType::SubscriberAlreadyRegistered),
        "You are already subscribed to a topic"
    );
    assert_eq!(
        wording(BrokerErrorType::SubscriberNotRegistered),
        "You are not subscribed to that topic"
    );
    assert_eq!(
        wording(BrokerErrorType::UnknownTopic),
        "The topic mentioned in the request does not exist"
    );
    assert_eq!(
        wording(BrokerErrorType::DuplicatePublish),
        "The message you sent is a duplicate message"
    );
    assert_eq!(
        wording(BrokerErrorType::TopicMismatch),
        "The topic you are subscribed is different from the one you submitted"
    );
    assert_eq!(
        wording(BrokerErrorType::AckMismatch),
        "The ack message id did not match with the last read post"
    );
    assert_eq!(
        wording(BrokerErrorType::UnknownMessage),
        "Couldn't recognize the type of your message"
    );
    assert_eq!(
        wording(BrokerErrorType::NoPostsAvailable),
        "There are still no posts in that topic"
    );
}

#[test]
fn envelope_of_another_kind_is_incompatible() {
    let message = get::Request::new(s("sub"), s("cars")).as_message();
    assert!(matches!(
        subscribe::Request::from_message(message),
        Err(DeserializationErrors::IncompatibleMessageType)
    ));
    let message = get::Ack::new(s("sub"), 1).as_message();
    assert!(matches!(
        get::AckReply::from_message(message),
        Err(DeserializationErrors::IncompatibleMessageType)
    ));
    let message = put::Reply::new(s("u"), s("t"), s("b")).as_message();
    assert!(matches!(
        BrokerErrorMessage::from_message(message),
        Err(DeserializationErrors::IncompatibleMessageType)
    ));
}

#[test]
fn missing_or_mistyped_field_is_named() {
    let mut doc = Document::new();
    doc.put_text("topic", s("cars"));
    assert_eq!(
        invalid_field(get::Request::from_message(Message::new(s("GET"), doc))),
        "sub_id"
    );

    let mut doc = Document::new();
    doc.put_text("sub_id", s("sub"));
    assert_eq!(
        invalid_field(get::Request::from_message(Message::new(s("GET"), doc))),
        "topic"
    );

    let mut doc = Document::new();
    doc.put_text("sub_id", s("sub"));
    doc.put_text("message_no", s("seven"));
    assert_eq!(
        invalid_field(get::Ack::from_message(Message::new(s("GET_ACK"), doc))),
        "message_no"
    );

    let mut doc = Document::new();
    doc.put_text("pub_id", s("pub"));
    doc.put_text("topic", s("cars"));
    doc.put_text("message_uuid", s("u"));
    doc.put_text("payload", s("not bytes"));
    assert_eq!(
        invalid_field(put::Request::from_message(Message::new(s("PUT"), doc))),
        "payload"
    );

    let mut doc = Document::new();
    doc.put_text("error_type", s("NoSuchKind"));
    doc.put_text("broker_id", s("b"));
    doc.put_text("description", s("d"));
    assert_eq!(
        invalid_field(BrokerErrorMessage::from_message(Message::new(s("ERR"), doc))),
        "error_type"
    );

    let mut doc = Document::new();
    doc.put_text("sub_id", s("sub"));
    doc.put_text("topic", s("cars"));
    doc.put_text("broker_id", s("b"));
    assert_eq!(
        invalid_field(subscribe::Reply::from_message(Message::new(s("SUB_REPL"), doc))),
        "post_offset"
    );
}

#[test]
fn envelope_knows_its_kind() {
    let message = Message::new(s("GET"), Document::new());
    assert!(message.has_type("GET"));
    assert!(!message.has_type("GET_REPL"));
    assert!(!message.has_type(""));
}
