use meic_mq::broker::{BrokerState, Snapshot, SubscriberData, TopicData};
use meic_mq::keyed::{StringMap, StringSet};
use meic_mq::messages::error::BrokerErrorType;
use meic_mq::model::SubscriberStatus;

fn s(text: &str) -> String {
    text.to_string()
}

fn broker_with_topic(topic: &str, subscriber: &str) -> BrokerState {
    let mut state = BrokerState::with_id(s("broker-1"));
    assert_eq!(state.subscribe(&s(subscriber), &s(topic)), Ok(0));
    state
}

fn retained(state: &BrokerState, topic: &str) -> Vec<u64> {
    let log = state.topics().get(&s(topic)).unwrap();
    let mut numbers = Vec::new();
    let mut n = 1;
    while n <= log.post_counter() {
        if log.get(n).is_some() {
            numbers.push(n);
        }
        n += 1;
    }
    numbers
}

fn cursor(state: &BrokerState, subscriber: &str) -> u64 {
    state.subscribers().get(&s(subscriber)).unwrap().last_read_post()
}

#[test]
fn cars_scenario_single_subscriber() {
    let mut state = broker_with_topic("cars", "S");
    let first_payload = vec![10u8, 11];
    let second_payload = vec![20u8, 21, 22];
    assert_eq!(state.publish(&s("cars"), &s("id-0"), first_payload.clone()), Ok(1));
    assert_eq!(state.publish(&s("cars"), &s("id-1"), second_payload.clone()), Ok(2));

    assert_eq!(state.get(&s("S"), &s("cars")), Ok((1, first_payload.clone())));
    assert_eq!(state.get(&s("S"), &s("cars")), Ok((1, first_payload.clone())));

    assert_eq!(state.acknowledge(&s("S"), 1), Ok(()));
    assert_eq!(cursor(&state, "S"), 1);
    assert_eq!(retained(&state, "cars"), vec![2]);

    assert_eq!(state.get(&s("S"), &s("cars")), Ok((2, second_payload.clone())));
    assert_eq!(state.acknowledge(&s("S"), 2), Ok(()));
    assert_eq!(cursor(&state, "S"), 2);
    assert_eq!(retained(&state, "cars"), Vec::<u64>::new());
    assert_eq!(state.topics().get(&s("cars")).unwrap().post_counter(), 2);
}

#[test]
fn deliveries_follow_publish_order() {
    let mut state = broker_with_topic("news", "reader");
    let mut i: u8 = 0;
    while i < 5 {
        let id = format!("publish-{}", i);
        assert_eq!(state.publish(&s("news"), &id, vec![i, i + 100]), Ok(i as u64 + 1));
        i += 1;
    }
    let mut n: u64 = 1;
    while n <= 5 {
        let expected = vec![(n - 1) as u8, (n - 1) as u8 + 100];
        assert_eq!(state.get(&s("reader"), &s("news")), Ok((n, expected)));
        assert_eq!(state.acknowledge(&s("reader"), n), Ok(()));
        n += 1;
    }
    assert_eq!(state.get(&s("reader"), &s("news")), Err(BrokerErrorType::NoPostsAvailable));
}

#[test]
fn get_twice_redelivers_same_post() {
    let mut state = broker_with_topic("t", "a");
    state.publish(&s("t"), &s("x"), vec![1, 2, 3]).unwrap();
    state.publish(&s("t"), &s("y"), vec![4]).unwrap();
    let first = state.get(&s("a"), &s("t"));
    let second = state.get(&s("a"), &s("t"));
    assert_eq!(first, Ok((1, vec![1, 2, 3])));
    assert_eq!(first, second);
    assert_eq!(cursor(&state, "a"), 0);
    assert_eq!(
        state.subscribers().get(&s("a")).unwrap().status(),
        SubscriberStatus::WaitingAck
    );
}

#[test]
fn acknowledge_of_wrong_post_is_mismatch() {
    let mut state = broker_with_topic("t", "a");
    state.publish(&s("t"), &s("x"), vec![1]).unwrap();
    state.publish(&s("t"), &s("y"), vec![2]).unwrap();
    state.get(&s("a"), &s("t")).unwrap();
    assert_eq!(state.acknowledge(&s("a"), 2), Err(BrokerErrorType::AckMismatch));
    assert_eq!(state.acknowledge(&s("a"), 0), Err(BrokerErrorType::AckMismatch));
    assert_eq!(state.acknowledge(&s("a"), u64::MAX), Err(BrokerErrorType::AckMismatch));
    assert_eq!(cursor(&state, "a"), 0);
    assert_eq!(retained(&state, "t"), vec![1, 2]);
    assert_eq!(state.acknowledge(&s("a"), 1), Ok(()));
    assert_eq!(cursor(&state, "a"), 1);
}

#[test]
fn acknowledge_without_delivery_is_out_of_turn() {
    let mut state = broker_with_topic("t", "a");
    state.publish(&s("t"), &s("x"), vec![1]).unwrap();
    assert_eq!(state.acknowledge(&s("a"), 1), Err(BrokerErrorType::ProtocolStateViolation));
    assert_eq!(cursor(&state, "a"), 0);
    assert_eq!(retained(&state, "t"), vec![1]);
    // A mismatching number is reported as such, whatever the wait state.
    assert_eq!(state.acknowledge(&s("a"), 7), Err(BrokerErrorType::AckMismatch));
}

#[test]
fn acknowledge_twice_fails_the_second_time() {
    let mut state = broker_with_topic("t", "a");
    state.publish(&s("t"), &s("x"), vec![1]).unwrap();
    state.get(&s("a"), &s("t")).unwrap();
    assert_eq!(state.acknowledge(&s("a"), 1), Ok(()));
    assert_eq!(state.acknowledge(&s("a"), 1), Err(BrokerErrorType::AckMismatch));
    assert_eq!(cursor(&state, "a"), 1);
}

#[test]
fn duplicate_publish_does_not_count() {
    let mut state = broker_with_topic("t", "a");
    state.subscribe(&s("b"), &s("other")).unwrap();
    assert_eq!(state.publish(&s("t"), &s("same"), vec![1]), Ok(1));
    assert_eq!(
        state.publish(&s("t"), &s("same"), vec![1]),
        Err(BrokerErrorType::DuplicatePublish)
    );
    // The filter is one for the whole broker.
    assert_eq!(
        state.publish(&s("other"), &s("same"), vec![9]),
        Err(BrokerErrorType::DuplicatePublish)
    );
    assert_eq!(state.topics().get(&s("t")).unwrap().post_counter(), 1);
    assert_eq!(state.topics().get(&s("other")).unwrap().post_counter(), 0);
    assert!(state.publish_filter().contains(&s("same")));
    assert_eq!(state.publish(&s("t"), &s("next"), vec![2]), Ok(2));
}

#[test]
fn duplicate_is_checked_before_topic() {
    let mut state = broker_with_topic("t", "a");
    state.publish(&s("t"), &s("same"), vec![1]).unwrap();
    assert_eq!(
        state.publish(&s("nowhere"), &s("same"), vec![1]),
        Err(BrokerErrorType::DuplicatePublish)
    );
}

#[test]
fn publish_to_unknown_topic_is_refused() {
    let mut state = BrokerState::with_id(s("b"));
    assert_eq!(
        state.publish(&s("nowhere"), &s("id"), vec![1]),
        Err(BrokerErrorType::UnknownTopic)
    );
    assert!(!state.publish_filter().contains(&s("id")));
    assert!(state.topics().get(&s("nowhere")).is_none());
}

#[test]
fn slowest_subscriber_holds_the_log() {
    let mut state = broker_with_topic("tech", "fast");
    state.subscribe(&s("slow"), &s("tech")).unwrap();
    let mut i: u8 = 0;
    while i < 4 {
        state.publish(&s("tech"), &format!("m{}", i), vec![i]).unwrap();
        i += 1;
    }
    let mut n: u64 = 1;
    while n <= 3 {
        state.get(&s("fast"), &s("tech")).unwrap();
        state.acknowledge(&s("fast"), n).unwrap();
        assert_eq!(retained(&state, "tech"), vec![1, 2, 3, 4]);
        assert_eq!(state.retention_floor(&s("tech")), Some(0));
        n += 1;
    }
    assert_eq!(state.get(&s("slow"), &s("tech")), Ok((1, vec![0])));
    state.acknowledge(&s("slow"), 1).unwrap();
    assert_eq!(state.retention_floor(&s("tech")), Some(1));
    assert_eq!(retained(&state, "tech"), vec![2, 3, 4]);
    assert_eq!(state.get(&s("slow"), &s("tech")), Ok((2, vec![1])));
    state.acknowledge(&s("slow"), 2).unwrap();
    assert_eq!(retained(&state, "tech"), vec![3, 4]);
    assert_eq!(state.topics().get(&s("tech")).unwrap().evicted(), 2);
    assert_eq!(state.topics().get(&s("tech")).unwrap().post_counter(), 4);
}

#[test]
fn unsubscribe_of_slowest_frees_nothing_until_next_acknowledge() {
    let mut state = broker_with_topic("tech", "fast");
    state.subscribe(&s("slow"), &s("tech")).unwrap();
    state.publish(&s("tech"), &s("m1"), vec![1]).unwrap();
    state.publish(&s("tech"), &s("m2"), vec![2]).unwrap();
    state.get(&s("fast"), &s("tech")).unwrap();
    state.acknowledge(&s("fast"), 1).unwrap();
    assert_eq!(state.unsubscribe(&s("slow")), Ok(()));
    assert_eq!(retained(&state, "tech"), vec![1, 2]);
    state.get(&s("fast"), &s("tech")).unwrap();
    state.acknowledge(&s("fast"), 2).unwrap();
    assert_eq!(retained(&state, "tech"), Vec::<u64>::new());
}

#[test]
fn topic_without_subscribers_keeps_its_log() {
    let mut state = broker_with_topic("t", "a");
    state.publish(&s("t"), &s("m1"), vec![1]).unwrap();
    state.unsubscribe(&s("a")).unwrap();
    assert_eq!(state.retention_floor(&s("t")), None);
    state.evict(&s("t"));
    assert_eq!(retained(&state, "t"), vec![1]);
    state.evict(&s("unknown"));
    assert!(state.topics().get(&s("unknown")).is_none());
}

#[test]
fn late_subscriber_starts_at_the_head() {
    let mut state = broker_with_topic("cars", "first");
    state.publish(&s("cars"), &s("m0"), b"payload 0".to_vec()).unwrap();
    assert_eq!(state.subscribe(&s("second"), &s("cars")), Ok(1));
    assert_eq!(
        state.get(&s("second"), &s("cars")),
        Err(BrokerErrorType::NoPostsAvailable)
    );
    state.publish(&s("cars"), &s("m1"), b"payload 1".to_vec()).unwrap();

    assert_eq!(state.get(&s("first"), &s("cars")), Ok((1, b"payload 0".to_vec())));
    state.acknowledge(&s("first"), 1).unwrap();
    assert_eq!(state.get(&s("first"), &s("cars")), Ok((2, b"payload 1".to_vec())));
    state.acknowledge(&s("first"), 2).unwrap();

    assert_eq!(state.get(&s("second"), &s("cars")), Ok((2, b"payload 1".to_vec())));
    state.acknowledge(&s("second"), 2).unwrap();
    assert_eq!(
        state.get(&s("second"), &s("cars")),
        Err(BrokerErrorType::NoPostsAvailable)
    );
}

#[test]
fn subscribe_creates_topic_and_refuses_known_subscriber() {
    let mut state = BrokerState::with_id(s("b"));
    assert!(state.topics().get(&s("fresh")).is_none());
    assert_eq!(state.subscribe(&s("a"), &s("fresh")), Ok(0));
    assert_eq!(state.topics().get(&s("fresh")).unwrap().post_counter(), 0);
    let entry = state.subscribers().get(&s("a")).unwrap();
    assert_eq!(entry.topic(), "fresh");
    assert_eq!(entry.status(), SubscriberStatus::WaitingGet);
    assert_eq!(entry.last_read_post(), 0);
    assert_eq!(
        state.subscribe(&s("a"), &s("fresh")),
        Err(BrokerErrorType::SubscriberAlreadyRegistered)
    );
    assert_eq!(
        state.subscribe(&s("a"), &s("elsewhere")),
        Err(BrokerErrorType::SubscriberAlreadyRegistered)
    );
    assert!(state.topics().get(&s("elsewhere")).is_none());
}

#[test]
fn unknown_subscriber_is_not_registered() {
    let mut state = broker_with_topic("t", "a");
    assert_eq!(
        state.get(&s("ghost"), &s("t")),
        Err(BrokerErrorType::SubscriberNotRegistered)
    );
    assert_eq!(
        state.acknowledge(&s("ghost"), 1),
        Err(BrokerErrorType::SubscriberNotRegistered)
    );
    assert_eq!(
        state.unsubscribe(&s("ghost")),
        Err(BrokerErrorType::SubscriberNotRegistered)
    );
    assert_eq!(state.unsubscribe(&s("a")), Ok(()));
    assert_eq!(
        state.unsubscribe(&s("a")),
        Err(BrokerErrorType::SubscriberNotRegistered)
    );
}

#[test]
fn get_on_other_topic_is_mismatch() {
    let mut state = broker_with_topic("t", "a");
    state.subscribe(&s("b"), &s("u")).unwrap();
    state.publish(&s("u"), &s("m"), vec![1]).unwrap();
    assert_eq!(state.get(&s("a"), &s("u")), Err(BrokerErrorType::TopicMismatch));
    assert_eq!(
        state.subscribers().get(&s("a")).unwrap().status(),
        SubscriberStatus::WaitingGet
    );
}

#[test]
fn snapshot_round_trip_keeps_everything() {
    let mut state = broker_with_topic("cars", "S");
    state.subscribe(&s("T"), &s("bikes")).unwrap();
    state.publish(&s("cars"), &s("id-0"), vec![1]).unwrap();
    state.publish(&s("cars"), &s("id-1"), vec![2]).unwrap();
    state.get(&s("S"), &s("cars")).unwrap();
    state.acknowledge(&s("S"), 1).unwrap();
    state.get(&s("S"), &s("cars")).unwrap();

    let snapshot = state.into_snapshot();
    assert_eq!(snapshot.broker_uuid, "broker-1");
    let mut restored = BrokerState::from_snapshot(snapshot).expect("a broker's own snapshot is valid");
    assert_eq!(restored.broker_id(), "broker-1");
    assert_eq!(cursor(&restored, "S"), 1);
    assert_eq!(cursor(&restored, "T"), 0);
    assert_eq!(
        restored.subscribers().get(&s("S")).unwrap().status(),
        SubscriberStatus::WaitingAck
    );
    assert_eq!(retained(&restored, "cars"), vec![2]);
    assert_eq!(restored.topics().get(&s("cars")).unwrap().post_counter(), 2);
    assert_eq!(restored.topics().get(&s("bikes")).unwrap().post_counter(), 0);
    assert!(restored.publish_filter().contains(&s("id-0")));
    assert!(restored.publish_filter().contains(&s("id-1")));
    assert_eq!(
        restored.publish(&s("cars"), &s("id-1"), vec![2]),
        Err(BrokerErrorType::DuplicatePublish)
    );
    assert_eq!(restored.get(&s("S"), &s("cars")), Ok((2, vec![2])));
    assert_eq!(restored.acknowledge(&s("S"), 2), Ok(()));
}

fn snapshot_of(
    subs: Vec<(&str, SubscriberData)>,
    topics: Vec<(&str, TopicData)>,
    received: Vec<&str>,
) -> Snapshot {
    let mut sub_table = StringMap { keys: Vec::new(), values: Vec::new() };
    for (id, data) in subs {
        sub_table.keys.push(s(id));
        sub_table.values.push(data);
    }
    let mut topic_table = StringMap { keys: Vec::new(), values: Vec::new() };
    for (name, data) in topics {
        topic_table.keys.push(s(name));
        topic_table.values.push(data);
    }
    Snapshot {
        broker_uuid: s("X"),
        subs: sub_table,
        topics: topic_table,
        received_uuids: StringSet { items: received.into_iter().map(s).collect() },
    }
}

#[test]
fn recover_adopts_a_valid_snapshot() {
    let log = TopicData::from_parts(3, 1, vec![vec![2], vec![3]]).unwrap();
    let snapshot = snapshot_of(
        vec![("S", SubscriberData::from_parts(s("cars"), SubscriberStatus::WaitingGet, 1))],
        vec![("cars", log)],
        vec!["a", "b", "c"],
    );
    let mut state = BrokerState::recover_with(Some(snapshot), s("fresh"));
    assert_eq!(state.broker_id(), "X");
    assert_eq!(retained(&state, "cars"), vec![2, 3]);
    assert_eq!(state.get(&s("S"), &s("cars")), Ok((2, vec![2])));
    assert!(state.publish_filter().contains(&s("b")));
}

#[test]
fn recover_without_snapshot_starts_empty() {
    let state = BrokerState::recover_with(None, s("fresh"));
    assert_eq!(state.broker_id(), "fresh");
    assert_eq!(state.subscribers().len(), 0);
    assert_eq!(state.topics().len(), 0);
    assert!(!state.publish_filter().contains(&s("a")));

    let drawn = BrokerState::recover_state(None);
    assert_eq!(drawn.broker_id().chars().count(), 36);
    assert_eq!(drawn.subscribers().len(), 0);
    assert_eq!(drawn.topics().len(), 0);
}

#[test]
fn recover_rejects_a_snapshot_that_breaks_the_invariant() {
    // A cursor ahead of its topic's counter.
    let ahead = snapshot_of(
        vec![("S", SubscriberData::new(s("cars"), 4))],
        vec![("cars", TopicData::from_parts(3, 3, vec![]).unwrap())],
        vec![],
    );
    assert!(BrokerState::from_snapshot(ahead).is_none());

    // A subscriber of a topic that does not exist.
    let orphan = snapshot_of(vec![("S", SubscriberData::new(s("cars"), 0))], vec![], vec![]);
    assert!(BrokerState::from_snapshot(orphan).is_none());

    // A post that a subscriber has yet to read was dropped.
    let dropped = snapshot_of(
        vec![("S", SubscriberData::new(s("cars"), 1))],
        vec![("cars", TopicData::from_parts(3, 2, vec![vec![3]]).unwrap())],
        vec![],
    );
    assert!(BrokerState::from_snapshot(dropped).is_none());

    // A subscriber that waits for an acknowledgement with nothing to acknowledge.
    let waiting = snapshot_of(
        vec![("S", SubscriberData::from_parts(s("cars"), SubscriberStatus::WaitingAck, 3))],
        vec![("cars", TopicData::from_parts(3, 3, vec![]).unwrap())],
        vec![],
    );
    assert!(BrokerState::from_snapshot(waiting).is_none());

    // The same subscriber twice.
    let twice = snapshot_of(
        vec![
            ("S", SubscriberData::new(s("cars"), 0)),
            ("S", SubscriberData::new(s("cars"), 0)),
        ],
        vec![("cars", TopicData::new())],
        vec![],
    );
    assert!(BrokerState::from_snapshot(twice).is_none());

    // The same publish identifier twice.
    let repeated = snapshot_of(vec![], vec![], vec!["a", "a"]);
    assert!(BrokerState::from_snapshot(repeated).is_none());

    let fallback = BrokerState::recover_with(
        Some(snapshot_of(vec![("S", SubscriberData::new(s("cars"), 0))], vec![], vec![])),
        s("fresh"),
    );
    assert_eq!(fallback.broker_id(), "fresh");
    assert_eq!(fallback.subscribers().len(), 0);
}

#[test]
fn new_brokers_get_distinct_ids() {
    let a = BrokerState::new();
    let b = BrokerState::new();
    assert_eq!(a.broker_id().chars().count(), 36);
    assert_ne!(a.broker_id(), b.broker_id());
    assert_eq!(a.topics().len(), 0);
}

#[test]
fn headroom_is_lost_at_the_last_number() {
    let full = snapshot_of(
        vec![],
        vec![
            ("open", TopicData::new()),
            ("full", TopicData::from_parts(u64::MAX, u64::MAX, vec![]).unwrap()),
        ],
        vec![],
    );
    let mut state = BrokerState::from_snapshot(full).unwrap();
    assert!(!state.check_headroom());
    assert_eq!(state.subscribe(&s("late"), &s("full")), Ok(u64::MAX));
    assert_eq!(state.get(&s("late"), &s("full")), Err(BrokerErrorType::NoPostsAvailable));
    assert_eq!(state.acknowledge(&s("late"), 0), Err(BrokerErrorType::AckMismatch));

    let roomy = BrokerState::with_id(s("b"));
    assert!(roomy.check_headroom());
}

#[test]
fn topic_log_appends_and_evicts() {
    let mut log = TopicData::new();
    assert_eq!(log.post_counter(), 0);
    assert_eq!(log.append(vec![1]), 1);
    assert_eq!(log.append(vec![2]), 2);
    assert_eq!(log.append(vec![3]), 3);
    assert_eq!(log.get(0), None);
    assert_eq!(log.get(2), Some(&vec![2u8]));
    assert_eq!(log.get(4), None);
    log.evict_through(2);
    assert_eq!(log.evicted(), 2);
    assert_eq!(log.get(2), None);
    assert_eq!(log.get(3), Some(&vec![3u8]));
    assert_eq!(log.posts(), &vec![vec![3u8]]);
    log.evict_through(1);
    assert_eq!(log.evicted(), 2);
    log.evict_through(100);
    assert_eq!(log.evicted(), 3);
    assert_eq!(log.post_counter(), 3);
    assert_eq!(log.append(vec![4]), 4);
    assert_eq!(log.get(4), Some(&vec![4u8]));
}

#[test]
fn topic_log_from_parts_checks_the_window() {
    assert!(TopicData::from_parts(3, 1, vec![vec![2], vec![3]]).is_some());
    assert!(TopicData::from_parts(3, 1, vec![vec![3]]).is_none());
    assert!(TopicData::from_parts(1, 2, vec![]).is_none());
    assert!(TopicData::from_parts(0, 0, vec![]).is_some());
}

#[test]
fn subscriber_data_moves_cursor_and_status() {
    let mut data = SubscriberData::new(s("t"), 4);
    assert_eq!(data.status(), SubscriberStatus::WaitingGet);
    data.change_status();
    assert_eq!(data.status(), SubscriberStatus::WaitingAck);
    assert_eq!(data.increment_last_read(), 5);
    assert_eq!(data.last_read_post(), 5);
    data.change_status();
    assert_eq!(data.status(), SubscriberStatus::WaitingGet);
    let copy = data.clone();
    assert_eq!(copy.topic(), "t");
    assert_eq!(copy.last_read_post(), 5);
}
