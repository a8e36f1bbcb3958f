use meic_mq::context::publisher::PublisherContext;
use meic_mq::context::subscriber::SubscriberContext;
use meic_mq::context::{plain_path, storage_path, ContextIOError};
use meic_mq::messages::error::{BrokerErrorMessage, BrokerErrorType};
use meic_mq::messages::{
    get, put, subscribe, unsubscribe, Document, Message, NetworkTradeable,
};
use meic_mq::session::{
    broker_changed, on_ack_reply, on_get_reply, on_put_reply, on_subscribe_reply,
    on_unsubscribe_reply, GetStep, PutStep, SessionError,
};

fn s(text: &str) -> String {
    text.to_string()
}

fn error(kind: BrokerErrorType, broker: &str) -> Message {
    BrokerErrorMessage::new(kind, s(broker)).as_message()
}

fn subscriber(known: Option<&str>, next: u64) -> SubscriberContext {
    let mut ctx = SubscriberContext::new(s("sub"), s("cars"));
    ctx.known_broker_id = known.map(s);
    ctx.next_post_no = next;
    ctx
}

fn delivery(number: u64, broker: &str) -> Message {
    get::Reply::new(s("sub"), number, s(broker), vec![number as u8]).as_message()
}

#[test]
fn subscriber_context_starts_at_first_post() {
    let mut ctx = SubscriberContext::new(s("sub"), s("cars"));
    assert_eq!(ctx.sub_id, "sub");
    assert_eq!(ctx.topic, "cars");
    assert_eq!(ctx.known_broker_id, None);
    assert_eq!(ctx.next_post_no, 1);
    ctx.increment_next_post_no();
    assert_eq!(ctx.next_post_no, 2);

    let request = ctx.create_get_request();
    assert_eq!((request.sub_id.as_str(), request.topic.as_str()), ("sub", "cars"));
    let request = ctx.create_subscribe_request();
    assert_eq!((request.sub_id.as_str(), request.topic.as_str()), ("sub", "cars"));
    let request = ctx.create_unsubscribe_request();
    assert_eq!(request.sub_id, "sub");
}

#[test]
fn context_paths() {
    let sub = SubscriberContext::new(s("FastSub"), s("tech"));
    assert_eq!(sub.get_prefix(), "./data/sub/");
    assert_eq!(SubscriberContext::build_prefix(), "./data/sub/");
    assert_eq!(sub.build_path(), "./data/sub/FastSub.bson");
    assert_eq!(SubscriberContext::read_path(&s("FastSub")), "./data/sub/FastSub");

    let publisher = PublisherContext::new(s("Publisher"));
    assert_eq!(publisher.get_prefix(), "./data/pub/");
    assert_eq!(PublisherContext::build_prefix(), "./data/pub/");
    assert_eq!(publisher.build_path(), "./data/pub/Publisher.bson");
    assert_eq!(PublisherContext::read_path(&s("Publisher")), "./data/pub/Publisher");

    assert_eq!(SubscriberContext::file_path(&s("FastSub")), "./data/sub/FastSub.bson");
    assert_eq!(PublisherContext::file_path(&s("Publisher")), "./data/pub/Publisher.bson");
    assert_eq!(storage_path("dir/", &s("id")), "dir/id.bson");
    assert_eq!(plain_path("dir/", &s("id")), "dir/id");
}

#[test]
fn context_read_takes_the_id_asked_for() {
    let mut stored = SubscriberContext::new(s(""), s("cars"));
    stored.known_broker_id = Some(s("broker"));
    stored.next_post_no = 9;
    let ctx = SubscriberContext::read(s("sub"), Ok(stored)).ok().unwrap();
    assert_eq!(ctx.sub_id, "sub");
    assert_eq!(ctx.topic, "cars");
    assert_eq!(ctx.known_broker_id, Some(s("broker")));
    assert_eq!(ctx.next_post_no, 9);
    assert!(matches!(
        SubscriberContext::read(s("sub"), Err(ContextIOError::ErrorCantFindFile(s("gone")))),
        Err(ContextIOError::ErrorCantFindFile(text)) if text == "gone"
    ));

    let mut stored = SubscriberContext::new(s(""), s("tech"));
    stored.next_post_no = 3;
    let ctx = SubscriberContext::from_file(&s("FastSub"), Ok(stored)).ok().unwrap();
    assert_eq!(ctx.sub_id, "FastSub");
    assert_eq!(ctx.topic, "tech");
    assert_eq!(ctx.next_post_no, 3);
    assert!(matches!(
        PublisherContext::from_file(&s("p"), Err(ContextIOError::ErrorCantFindFile(s("gone")))),
        Err(ContextIOError::ErrorCantFindFile(text)) if text == "gone"
    ));
    let ctx = PublisherContext::from_file(&s("p"), Ok(PublisherContext::new(s("q")))).ok().unwrap();
    assert_eq!(ctx.pub_id, "p");

    let mut stored = PublisherContext::new(s("old"));
    stored.known_broker_id = Some(s("broker"));
    stored.record_message(&s("cars"), s("m1"));
    let ctx = PublisherContext::read(s("pub"), Ok(stored)).ok().unwrap();
    assert_eq!(ctx.pub_id, "pub");
    assert_eq!(ctx.known_broker_id, Some(s("broker")));
    assert!(!ctx.is_message_new(&s("cars"), &s("m1")));
    assert!(matches!(
        PublisherContext::read(s("pub"), Err(ContextIOError::ErrorReadingFile(s("bad")))),
        Err(ContextIOError::ErrorReadingFile(text)) if text == "bad"
    ));
}

#[test]
fn publisher_context_records_and_resets() {
    let mut ctx = PublisherContext::new(s("pub"));
    assert_eq!(ctx.pub_id, "pub");
    assert_eq!(ctx.known_broker_id, None);
    assert!(ctx.is_message_new(&s("cars"), &s("m1")));
    ctx.record_message(&s("cars"), s("m1"));
    ctx.record_message(&s("cars"), s("m2"));
    ctx.record_message(&s("bikes"), s("m3"));
    assert!(!ctx.is_message_new(&s("cars"), &s("m1")));
    assert!(!ctx.is_message_new(&s("cars"), &s("m2")));
    assert!(ctx.is_message_new(&s("cars"), &s("m3")));
    assert!(!ctx.is_message_new(&s("bikes"), &s("m3")));
    assert!(ctx.is_message_new(&s("boats"), &s("m1")));

    ctx.known_broker_id = Some(s("broker"));
    ctx.reset_context();
    assert_eq!(ctx.pub_id, "pub");
    assert_eq!(ctx.known_broker_id, None);
    assert!(ctx.is_message_new(&s("cars"), &s("m1")));

    let request = ctx.create_put_request(s("cars"), vec![1, 2]);
    assert_eq!(request.pub_id, "pub");
    assert_eq!(request.topic, "cars");
    assert_eq!(request.payload, vec![1, 2]);
    assert_eq!(request.message_uuid.chars().count(), 36);
}

#[test]
fn broker_change_needs_a_known_broker() {
    assert!(!broker_changed(&None, &s("b")));
    assert!(!broker_changed(&Some(s("b")), &s("b")));
    assert!(broker_changed(&Some(s("a")), &s("b")));
}

#[test]
fn get_of_expected_post_is_acknowledged_and_handed_out() {
    let mut ctx = subscriber(None, 3);
    let step = on_get_reply(&mut ctx, delivery(3, "broker"), 0);
    assert_eq!(ctx.known_broker_id, Some(s("broker")));
    assert_eq!(ctx.next_post_no, 3);
    let (ack, delivered) = match step {
        GetStep::Acknowledge { ack, delivery } => (ack, delivery),
        other => panic!("expected an acknowledgement, got {:?}", other),
    };
    assert_eq!(ack.sub_id, "sub");
    assert_eq!(ack.message_no, 3);
    assert_eq!(delivered.payload, vec![3]);

    let confirmed = get::AckReply::new(s("sub"), 3).as_message();
    let payload = on_ack_reply(&mut ctx, delivered, confirmed).ok().unwrap();
    assert_eq!(payload, vec![3]);
    assert_eq!(ctx.next_post_no, 4);
    assert_eq!(ctx.known_broker_id, Some(s("broker")));
}

#[test]
fn get_of_earlier_post_is_asked_again_within_budget() {
    let mut ctx = subscriber(Some("broker"), 5);
    assert!(matches!(on_get_reply(&mut ctx, delivery(4, "broker"), 2), GetStep::Retry));
    assert!(matches!(
        on_get_reply(&mut ctx, delivery(4, "broker"), 0),
        GetStep::Fail(SessionError::RetryBudgetExceeded)
    ));
    assert_eq!(ctx.next_post_no, 5);
}

#[test]
fn get_of_later_post_breaks_the_protocol() {
    let mut ctx = subscriber(Some("broker"), 5);
    assert!(matches!(
        on_get_reply(&mut ctx, delivery(6, "broker"), 3),
        GetStep::Fail(SessionError::ProtocolStateViolation)
    ));
    assert_eq!(ctx.next_post_no, 5);
}

#[test]
fn get_from_another_broker_fails() {
    let mut ctx = subscriber(Some("old"), 5);
    assert!(matches!(
        on_get_reply(&mut ctx, delivery(5, "new"), 3),
        GetStep::Fail(SessionError::BrokerChanged)
    ));
    assert_eq!(ctx.known_broker_id, Some(s("old")));
    assert!(matches!(
        on_get_reply(&mut ctx, error(BrokerErrorType::NoPostsAvailable, "new"), 3),
        GetStep::Fail(SessionError::BrokerChanged)
    ));
}

#[test]
fn get_surfaces_the_broker_error() {
    let mut ctx = subscriber(Some("broker"), 1);
    match on_get_reply(&mut ctx, error(BrokerErrorType::NoPostsAvailable, "broker"), 3) {
        GetStep::Fail(failure) => {
            assert_eq!(failure.description(), "There are still no posts in that topic");
            assert!(matches!(
                failure,
                SessionError::Refused { kind: BrokerErrorType::NoPostsAvailable, .. }
            ));
        }
        other => panic!("expected a failure, got {:?}", other),
    }
    let mut fresh = subscriber(None, 1);
    assert!(matches!(
        on_get_reply(&mut fresh, error(BrokerErrorType::TopicMismatch, "any"), 3),
        GetStep::Fail(SessionError::Refused { kind: BrokerErrorType::TopicMismatch, .. })
    ));
    assert_eq!(fresh.known_broker_id, None);
}

#[test]
fn get_rejects_a_reply_of_another_kind() {
    let mut ctx = subscriber(None, 1);
    let other = put::Reply::new(s("u"), s("cars"), s("broker")).as_message();
    assert!(matches!(
        on_get_reply(&mut ctx, other, 3),
        GetStep::Fail(SessionError::UnexpectedReply)
    ));
    let broken = Message::new(s("ERR"), Document::new());
    assert!(matches!(
        on_get_reply(&mut ctx, broken, 3),
        GetStep::Fail(SessionError::UnexpectedReply)
    ));
    assert_eq!(ctx.known_broker_id, None);
}

#[test]
fn refused_acknowledgement_keeps_the_cursor() {
    let delivered = || get::Reply::new(s("sub"), 3, s("broker"), vec![3]);
    let mut ctx = subscriber(Some("broker"), 3);
    assert!(matches!(
        on_ack_reply(&mut ctx, delivered(), error(BrokerErrorType::AckMismatch, "broker")),
        Err(SessionError::Refused { kind: BrokerErrorType::AckMismatch, .. })
    ));
    assert!(matches!(
        on_ack_reply(&mut ctx, delivered(), error(BrokerErrorType::AckMismatch, "other")),
        Err(SessionError::BrokerChanged)
    ));
    assert!(matches!(
        on_ack_reply(&mut ctx, delivered(), delivery(3, "broker")),
        Err(SessionError::UnexpectedReply)
    ));
    assert_eq!(ctx.next_post_no, 3);
}

#[test]
fn subscribe_confirmation_sets_broker_and_cursor() {
    let mut ctx = subscriber(None, 1);
    let confirmation = subscribe::Reply::new(s("sub"), s("cars"), s("broker"), 8).as_message();
    assert!(on_subscribe_reply(&mut ctx, confirmation).is_ok());
    assert_eq!(ctx.known_broker_id, Some(s("broker")));
    assert_eq!(ctx.next_post_no, 8);
}

#[test]
fn subscribe_when_already_registered_is_no_failure() {
    let mut ctx = subscriber(Some("broker"), 4);
    assert!(on_subscribe_reply(
        &mut ctx,
        error(BrokerErrorType::SubscriberAlreadyRegistered, "broker")
    )
    .is_ok());
    assert_eq!(ctx.known_broker_id, Some(s("broker")));
    assert_eq!(ctx.next_post_no, 4);
    assert!(matches!(
        on_subscribe_reply(&mut ctx, error(BrokerErrorType::UnknownMessage, "broker")),
        Err(SessionError::Refused { kind: BrokerErrorType::UnknownMessage, .. })
    ));
    assert!(matches!(
        on_subscribe_reply(&mut ctx, delivery(1, "broker")),
        Err(SessionError::UnexpectedReply)
    ));
    assert_eq!(ctx.next_post_no, 4);
}

#[test]
fn unsubscribe_forgets_the_broker() {
    let mut ctx = subscriber(Some("broker"), 4);
    let confirmation = unsubscribe::Reply::new(s("sub"), s("broker")).as_message();
    assert!(on_unsubscribe_reply(&mut ctx, confirmation).is_ok());
    assert_eq!(ctx.known_broker_id, None);
    assert_eq!(ctx.next_post_no, 4);
}

#[test]
fn unsubscribe_when_not_registered_is_no_failure() {
    let mut ctx = subscriber(Some("broker"), 4);
    assert!(on_unsubscribe_reply(
        &mut ctx,
        error(BrokerErrorType::SubscriberNotRegistered, "broker")
    )
    .is_ok());
    assert_eq!(ctx.known_broker_id, Some(s("broker")));
    assert!(matches!(
        on_unsubscribe_reply(&mut ctx, error(BrokerErrorType::UnknownMessage, "broker")),
        Err(SessionError::Refused { kind: BrokerErrorType::UnknownMessage, .. })
    ));
    assert!(matches!(
        on_unsubscribe_reply(&mut ctx, delivery(1, "broker")),
        Err(SessionError::UnexpectedReply)
    ));
}

#[test]
fn put_confirmation_is_recorded() {
    let mut ctx = PublisherContext::new(s("pub"));
    let request = put::Request::with_uuid(s("pub"), s("cars"), s("m1"), vec![1]);
    let confirmation = put::Reply::new(s("m1"), s("cars"), s("broker")).as_message();
    assert!(matches!(on_put_reply(&mut ctx, &request, confirmation, 1), PutStep::Done));
    assert_eq!(ctx.known_broker_id, Some(s("broker")));
    assert!(!ctx.is_message_new(&s("cars"), &s("m1")));
}

#[test]
fn put_to_another_broker_resets_and_retries_within_budget() {
    let request = put::Request::with_uuid(s("pub"), s("cars"), s("m2"), vec![1]);
    let mut ctx = PublisherContext::new(s("pub"));
    ctx.known_broker_id = Some(s("old"));
    ctx.record_message(&s("cars"), s("m1"));
    let confirmation = put::Reply::new(s("m2"), s("cars"), s("new")).as_message();
    let again = match on_put_reply(&mut ctx, &request, confirmation, 1) {
        PutStep::Retry { request } => request,
        other => panic!("expected a new try, got {:?}", other),
    };
    assert_eq!(again.pub_id, "pub");
    assert_eq!(again.topic, "cars");
    assert_eq!(again.payload, vec![1]);
    assert_eq!(again.message_uuid.chars().count(), 36);
    assert_ne!(again.message_uuid, request.message_uuid);
    assert_eq!(ctx.known_broker_id, None);
    assert!(ctx.is_message_new(&s("cars"), &s("m1")));
    assert!(ctx.is_message_new(&s("cars"), &s("m2")));

    ctx.known_broker_id = Some(s("old"));
    assert!(matches!(
        on_put_reply(&mut ctx, &request, error(BrokerErrorType::UnknownTopic, "new"), 0),
        PutStep::Fail(SessionError::RetryBudgetExceeded)
    ));
    assert_eq!(ctx.known_broker_id, None);
}

#[test]
fn put_surfaces_the_broker_error() {
    let request = put::Request::with_uuid(s("pub"), s("cars"), s("m1"), vec![1]);
    let mut ctx = PublisherContext::new(s("pub"));
    ctx.known_broker_id = Some(s("broker"));
    match on_put_reply(&mut ctx, &request, error(BrokerErrorType::DuplicatePublish, "broker"), 1) {
        PutStep::Fail(failure) => {
            assert_eq!(failure.description(), "The message you sent is a duplicate message")
        }
        other => panic!("expected a failure, got {:?}", other),
    }
    assert_eq!(ctx.known_broker_id, Some(s("broker")));
    assert!(ctx.is_message_new(&s("cars"), &s("m1")));
    assert!(matches!(
        on_put_reply(&mut ctx, &request, delivery(1, "broker"), 1),
        PutStep::Fail(SessionError::UnexpectedReply)
    ));
}

#[test]
fn session_errors_have_a_wording() {
    assert_eq!(
        SessionError::BrokerChanged.description(),
        "The broker has wiped out its data, need to subscribe again"
    );
    assert_eq!(SessionError::UnexpectedReply.description(), "Unexpected message type");
    assert_eq!(
        SessionError::ProtocolStateViolation.description(),
        "Message number is higher than the one expected to receive"
    );
    assert_eq!(
        SessionError::RetryBudgetExceeded.description(),
        "The request was given up after too many attempts"
    );
    assert_eq!(
        SessionError::Refused { kind: BrokerErrorType::AckMismatch, description: s("as worded") }
            .description(),
        "as worded"
    );
}
