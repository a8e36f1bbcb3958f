//! The broker as a mathematical state machine.
//!
//! A [`BrokerView`] is what a broker holds, written with maps, sets and
//! unbounded numbers. Each request is a pair of functions on it: what the
//! broker answers, and the state it is left in. The executable broker is
//! specified against these functions.

use vstd::prelude::*;
use crate::messages::error::BrokerErrorType;

verus! {

/// A subscriber's place in the get/acknowledge protocol.
#[derive(Clone, Copy, Debug, PartialEq, Eq, Structural)]
pub enum SubscriberStatus {
    /// A post was delivered and its acknowledgement is outstanding.
    WaitingAck,
    /// No delivery is outstanding.
    WaitingGet,
}

/// One topic: how many posts it ever accepted and the posts still retained.
#[verifier::ext_equal]
pub struct TopicView {
    pub post_counter: nat,
    pub posts: Map<nat, Seq<u8>>,
}

/// One subscriber: its topic, its wait state and its cursor.
#[verifier::ext_equal]
pub struct SubscriberView {
    pub topic: Seq<char>,
    pub status: SubscriberStatus,
    pub last_acked: nat,
}

/// Everything a broker holds.
#[verifier::ext_equal]
pub struct BrokerView {
    pub broker_id: Seq<char>,
    pub topics: Map<Seq<char>, TopicView>,
    pub subscribers: Map<Seq<char>, SubscriberView>,
    pub publish_filter: Set<Seq<char>>,
}

/// A request, as the state machine sees it.
pub enum Operation {
    Subscribe { subscriber: Seq<char>, topic: Seq<char> },
    Unsubscribe { subscriber: Seq<char> },
    Publish { topic: Seq<char>, publish_id: Seq<char>, payload: Seq<u8> },
    Get { subscriber: Seq<char>, topic: Seq<char> },
    Acknowledge { subscriber: Seq<char>, post_number: nat },
}

impl TopicView {
    /// A topic nobody has published to.
    pub open spec fn empty() -> Self {
        TopicView { post_counter: 0, posts: Map::empty() }
    }

    /// Retained posts are numbered within `1..=post_counter` and form the
    /// newest end of the log: once a number is retained, so is every later one.
    pub open spec fn wf(self) -> bool {
        &&& forall|n: nat| #[trigger] self.posts.dom().contains(n) ==> 1 <= n <= self.post_counter
        &&& forall|n: nat, m: nat|
            #![trigger self.posts.dom().contains(n), self.posts.dom().contains(m)]
            self.posts.dom().contains(n) && n <= m <= self.post_counter ==> self.posts.dom().contains(m)
    }
}

/// What a subscriber entry must satisfy against the topics: its topic
/// exists, its cursor is not ahead of the topic's counter, the post it reads
/// next is retained if it was published, and if it waits for an
/// acknowledgement there is such a post.
pub open spec fn entry_fits(entry: SubscriberView, topics: Map<Seq<char>, TopicView>) -> bool {
    let log = topics[entry.topic];
    &&& topics.dom().contains(entry.topic)
    &&& entry.last_acked <= log.post_counter
    &&& entry.last_acked < log.post_counter ==> log.posts.dom().contains(entry.last_acked + 1)
    &&& entry.status == SubscriberStatus::WaitingAck ==> entry.last_acked < log.post_counter
}

impl BrokerView {
    /// A broker with no topics, no subscribers and no publish history.
    pub open spec fn empty(broker_id: Seq<char>) -> Self {
        BrokerView {
            broker_id,
            topics: Map::empty(),
            subscribers: Map::empty(),
            publish_filter: Set::empty(),
        }
    }

    /// `subscriber` has an entry and it names `topic`.
    pub open spec fn subscribed_to(self, subscriber: Seq<char>, topic: Seq<char>) -> bool {
        self.subscribers.dom().contains(subscriber) && self.subscribers[subscriber].topic == topic
    }

    /// Some subscriber names `topic`.
    pub open spec fn has_subscribers(self, topic: Seq<char>) -> bool {
        exists|s: Seq<char>| #[trigger] self.subscribed_to(s, topic)
    }

    /// Some subscriber of `topic` has not acknowledged post `n` yet.
    pub open spec fn awaited(self, topic: Seq<char>, n: nat) -> bool {
        exists|s: Seq<char>| #[trigger] self.subscribed_to(s, topic) && self.subscribers[s].last_acked < n
    }

    /// `floor` is the smallest cursor among the subscribers of `topic`.
    pub open spec fn is_retention_floor(self, topic: Seq<char>, floor: nat) -> bool {
        &&& exists|s: Seq<char>| #[trigger] self.subscribed_to(s, topic) && self.subscribers[s].last_acked == floor
        &&& forall|s: Seq<char>| #[trigger] self.subscribed_to(s, topic) ==> floor <= self.subscribers[s].last_acked
    }

    /// What one subscriber entry must satisfy against its topic.
    pub open spec fn subscriber_wf(self, subscriber: Seq<char>) -> bool {
        entry_fits(self.subscribers[subscriber], self.topics)
    }

    /// The invariant of the broker: every topic's log is well formed and
    /// every subscriber entry fits the topics.
    pub open spec fn wf(self) -> bool {
        &&& forall|t: Seq<char>| #[trigger] self.topics.dom().contains(t) ==> self.topics[t].wf()
        &&& forall|s: Seq<char>| #[trigger] self.subscribers.dom().contains(s) ==> self.subscriber_wf(s)
    }

    /// The log of `topic` with every post dropped that no subscriber of the
    /// topic awaits. A topic without subscribers keeps its log.
    pub open spec fn evict(self, topic: Seq<char>) -> Self {
        if self.topics.dom().contains(topic) && self.has_subscribers(topic) {
            let log = self.topics[topic];
            let kept = Map::new(
                |n: nat| log.posts.dom().contains(n) && self.awaited(topic, n),
                |n: nat| log.posts[n],
            );
            BrokerView {
                topics: self.topics.insert(topic, TopicView { post_counter: log.post_counter, posts: kept }),
                ..self
            }
        } else {
            self
        }
    }

    /// Answer to a publish: the number the post gets, or why it is refused.
    pub open spec fn publish_outcome(self, topic: Seq<char>, publish_id: Seq<char>) -> Result<
        nat,
        BrokerErrorType,
    > {
        if self.publish_filter.contains(publish_id) {
            Err(BrokerErrorType::DuplicatePublish)
        } else if !self.topics.dom().contains(topic) {
            Err(BrokerErrorType::UnknownTopic)
        } else {
            Ok(self.topics[topic].post_counter + 1)
        }
    }

    /// State after a publish.
    pub open spec fn publish(self, topic: Seq<char>, publish_id: Seq<char>, payload: Seq<u8>) -> Self {
        match self.publish_outcome(topic, publish_id) {
            Ok(n) => BrokerView {
                topics: self.topics.insert(
                    topic,
                    TopicView { post_counter: n, posts: self.topics[topic].posts.insert(n, payload) },
                ),
                publish_filter: self.publish_filter.insert(publish_id),
                ..self
            },
            Err(_) => self,
        }
    }

    /// Answer to a subscribe: the cursor the subscriber starts from, which is
    /// the topic's counter at that moment, or why it is refused.
    pub open spec fn subscribe_outcome(self, subscriber: Seq<char>, topic: Seq<char>) -> Result<
        nat,
        BrokerErrorType,
    > {
        if self.subscribers.dom().contains(subscriber) {
            Err(BrokerErrorType::SubscriberAlreadyRegistered)
        } else if self.topics.dom().contains(topic) {
            Ok(self.topics[topic].post_counter)
        } else {
            Ok(0)
        }
    }

    /// State after a subscribe.
    pub open spec fn subscribe(self, subscriber: Seq<char>, topic: Seq<char>) -> Self {
        match self.subscribe_outcome(subscriber, topic) {
            Ok(cursor) => BrokerView {
                topics: if self.topics.dom().contains(topic) {
                    self.topics
                } else {
                    self.topics.insert(topic, TopicView::empty())
                },
                subscribers: self.subscribers.insert(
                    subscriber,
                    SubscriberView { topic, status: SubscriberStatus::WaitingGet, last_acked: cursor },
                ),
                ..self
            },
            Err(_) => self,
        }
    }

    /// Answer to an unsubscribe.
    pub open spec fn unsubscribe_outcome(self, subscriber: Seq<char>) -> Result<(), BrokerErrorType> {
        if self.subscribers.dom().contains(subscriber) {
            Ok(())
        } else {
            Err(BrokerErrorType::SubscriberNotRegistered)
        }
    }

    /// State after an unsubscribe.
    pub open spec fn unsubscribe(self, subscriber: Seq<char>) -> Self {
        BrokerView { subscribers: self.subscribers.remove(subscriber), ..self }
    }

    /// Answer to a get: the post after the subscriber's cursor, or why none is
    /// delivered. The wait state plays no part: a get while a delivery is
    /// outstanding delivers the same post again.
    pub open spec fn get_outcome(self, subscriber: Seq<char>, topic: Seq<char>) -> Result<
        (nat, Seq<u8>),
        BrokerErrorType,
    > {
        if !self.subscribers.dom().contains(subscriber) {
            Err(BrokerErrorType::SubscriberNotRegistered)
        } else if self.subscribers[subscriber].topic != topic {
            Err(BrokerErrorType::TopicMismatch)
        } else {
            let n = self.subscribers[subscriber].last_acked + 1;
            if self.topics.dom().contains(topic) && self.topics[topic].posts.dom().contains(n) {
                Ok((n, self.topics[topic].posts[n]))
            } else {
                Err(BrokerErrorType::NoPostsAvailable)
            }
        }
    }

    /// State after a get: a delivery leaves the subscriber waiting for the
    /// acknowledgement and moves nothing else; its cursor stays.
    pub open spec fn get(self, subscriber: Seq<char>, topic: Seq<char>) -> Self {
        match self.get_outcome(subscriber, topic) {
            Ok(_) => BrokerView {
                subscribers: self.subscribers.insert(
                    subscriber,
                    SubscriberView { status: SubscriberStatus::WaitingAck, ..self.subscribers[subscriber] },
                ),
                ..self
            },
            Err(_) => self,
        }
    }

    /// Answer to an acknowledge: only the post after the cursor can be
    /// acknowledged, and only while its delivery is outstanding.
    pub open spec fn acknowledge_outcome(self, subscriber: Seq<char>, post_number: nat) -> Result<
        (),
        BrokerErrorType,
    > {
        if !self.subscribers.dom().contains(subscriber) {
            Err(BrokerErrorType::SubscriberNotRegistered)
        } else if post_number != self.subscribers[subscriber].last_acked + 1 {
            Err(BrokerErrorType::AckMismatch)
        } else if self.subscribers[subscriber].status != SubscriberStatus::WaitingAck {
            Err(BrokerErrorType::ProtocolStateViolation)
        } else {
            Ok(())
        }
    }

    /// State after an accepted acknowledge and before retention runs: the
    /// cursor moves by one and the subscriber waits for a get again.
    pub open spec fn advance(self, subscriber: Seq<char>) -> Self {
        let entry = self.subscribers[subscriber];
        BrokerView {
            subscribers: self.subscribers.insert(
                subscriber,
                SubscriberView {
                    status: SubscriberStatus::WaitingGet,
                    last_acked: entry.last_acked + 1,
                    ..entry
                },
            ),
            ..self
        }
    }

    /// State after an acknowledge: the cursor advances, then retention runs
    /// on the subscriber's topic.
    pub open spec fn acknowledge(self, subscriber: Seq<char>, post_number: nat) -> Self {
        match self.acknowledge_outcome(subscriber, post_number) {
            Ok(_) => self.advance(subscriber).evict(self.subscribers[subscriber].topic),
            Err(_) => self,
        }
    }

    /// State after one request of any kind.
    pub open spec fn step(self, op: Operation) -> Self {
        match op {
            Operation::Subscribe { subscriber, topic } => self.subscribe(subscriber, topic),
            Operation::Unsubscribe { subscriber } => self.unsubscribe(subscriber),
            Operation::Publish { topic, publish_id, payload } => self.publish(topic, publish_id, payload),
            Operation::Get { subscriber, topic } => self.get(subscriber, topic),
            Operation::Acknowledge { subscriber, post_number } => self.acknowledge(subscriber, post_number),
        }
    }

    /// State after a sequence of requests, handled in order.
    pub open spec fn run(self, ops: Seq<Operation>) -> Self
        decreases ops.len(),
    {
        if ops.len() == 0 {
            self
        } else {
            self.run(ops.drop_last()).step(ops.last())
        }
    }
}

/// With a known smallest cursor, the posts that some subscriber awaits are
/// those numbered above it.
pub proof fn lemma_awaited_above_floor(v: BrokerView, topic: Seq<char>, floor: nat, n: nat)
    requires
        v.is_retention_floor(topic, floor),
    ensures
        v.awaited(topic, n) <==> floor < n,
        v.has_subscribers(topic),
{
    let low = choose|s: Seq<char>| #[trigger] v.subscribed_to(s, topic) && v.subscribers[s].last_acked == floor;
    assert(v.subscribed_to(low, topic));
    if v.awaited(topic, n) {
        let s = choose|s: Seq<char>| #[trigger] v.subscribed_to(s, topic) && v.subscribers[s].last_acked < n;
        assert(v.subscribed_to(s, topic));
    }
}

/// The empty broker is well formed.
pub proof fn lemma_empty_wf(broker_id: Seq<char>)
    ensures
        BrokerView::empty(broker_id).wf(),
{
}

/// A publish keeps the invariant.
pub proof fn lemma_publish_wf(v: BrokerView, topic: Seq<char>, publish_id: Seq<char>, payload: Seq<u8>)
    requires
        v.wf(),
    ensures
        v.publish(topic, publish_id, payload).wf(),
{
    let w = v.publish(topic, publish_id, payload);
    if v.publish_outcome(topic, publish_id) is Ok {
        assert(v.topics[topic].wf());
        assert forall|s: Seq<char>| #[trigger] w.subscribers.dom().contains(s) implies w.subscriber_wf(s) by {
            assert(v.subscriber_wf(s));
        }
    }
}

/// A subscribe keeps the invariant.
pub proof fn lemma_subscribe_wf(v: BrokerView, subscriber: Seq<char>, topic: Seq<char>)
    requires
        v.wf(),
    ensures
        v.subscribe(subscriber, topic).wf(),
{
    let w = v.subscribe(subscriber, topic);
    if v.subscribe_outcome(subscriber, topic) is Ok {
        assert forall|s: Seq<char>| #[trigger] w.subscribers.dom().contains(s) implies w.subscriber_wf(s) by {
            if s != subscriber {
                assert(v.subscriber_wf(s));
            }
        }
    }
}

/// An unsubscribe keeps the invariant.
pub proof fn lemma_unsubscribe_wf(v: BrokerView, subscriber: Seq<char>)
    requires
        v.wf(),
    ensures
        v.unsubscribe(subscriber).wf(),
{
    let w = v.unsubscribe(subscriber);
    assert forall|s: Seq<char>| #[trigger] w.subscribers.dom().contains(s) implies w.subscriber_wf(s) by {
        assert(v.subscriber_wf(s));
    }
}

/// A get keeps the invariant.
pub proof fn lemma_get_wf(v: BrokerView, subscriber: Seq<char>, topic: Seq<char>)
    requires
        v.wf(),
    ensures
        v.get(subscriber, topic).wf(),
{
    let w = v.get(subscriber, topic);
    if v.get_outcome(subscriber, topic) is Ok {
        assert(v.subscriber_wf(subscriber));
        assert(v.topics[topic].wf());
        assert forall|s: Seq<char>| #[trigger] w.subscribers.dom().contains(s) implies w.subscriber_wf(s) by {
            assert(v.subscriber_wf(s));
        }
    }
}

/// Retention keeps the invariant.
pub proof fn lemma_evict_wf(v: BrokerView, topic: Seq<char>)
    requires
        v.wf(),
    ensures
        v.evict(topic).wf(),
{
    let w = v.evict(topic);
    if v.topics.dom().contains(topic) && v.has_subscribers(topic) {
        assert(v.topics[topic].wf());
        assert(w.topics[topic].wf()) by {
            let log = w.topics[topic];
            assert forall|n: nat, m: nat|
                #![trigger log.posts.dom().contains(n), log.posts.dom().contains(m)]
                log.posts.dom().contains(n) && n <= m <= log.post_counter implies log.posts.dom().contains(m) by {
                let s = choose|s: Seq<char>| #[trigger] v.subscribed_to(s, topic) && v.subscribers[s].last_acked < n;
                assert(v.subscribed_to(s, topic));
                assert(v.awaited(topic, m));
                assert(v.topics[topic].posts.dom().contains(m));
            }
        }
        assert forall|t: Seq<char>| #[trigger] w.topics.dom().contains(t) implies w.topics[t].wf() by {
            if t != topic {
                assert(v.topics[t].wf());
            }
        }
        assert forall|s: Seq<char>| #[trigger] w.subscribers.dom().contains(s) implies w.subscriber_wf(s) by {
            let entry = w.subscribers[s];
            assert(v.subscriber_wf(s));
            if entry.topic == topic && entry.last_acked < v.topics[topic].post_counter {
                assert(v.subscribed_to(s, topic));
                assert(v.awaited(topic, (entry.last_acked + 1) as nat));
            }
        }
    }
}

/// Moving a cursor on an accepted acknowledge keeps the invariant.
pub proof fn lemma_advance_wf(v: BrokerView, subscriber: Seq<char>, post_number: nat)
    requires
        v.wf(),
        v.acknowledge_outcome(subscriber, post_number) is Ok,
    ensures
        v.advance(subscriber).wf(),
{
    let w = v.advance(subscriber);
    let topic = v.subscribers[subscriber].topic;
    assert(v.subscriber_wf(subscriber));
    assert(v.topics[topic].wf());
    assert forall|s: Seq<char>| #[trigger] w.subscribers.dom().contains(s) implies w.subscriber_wf(s) by {
        if s != subscriber {
            assert(v.subscriber_wf(s));
        } else {
            let log = v.topics[topic];
            if post_number < log.post_counter {
                assert(log.posts.dom().contains(post_number));
                assert(log.posts.dom().contains((post_number + 1) as nat));
            }
        }
    }
}

/// An acknowledge keeps the invariant.
pub proof fn lemma_acknowledge_wf(v: BrokerView, subscriber: Seq<char>, post_number: nat)
    requires
        v.wf(),
    ensures
        v.acknowledge(subscriber, post_number).wf(),
{
    if v.acknowledge_outcome(subscriber, post_number) is Ok {
        lemma_advance_wf(v, subscriber, post_number);
        lemma_evict_wf(v.advance(subscriber), v.subscribers[subscriber].topic);
    }
}

/// Any request keeps the invariant.
pub proof fn lemma_step_wf(v: BrokerView, op: Operation)
    requires
        v.wf(),
    ensures
        v.step(op).wf(),
{
    match op {
        Operation::Subscribe { subscriber, topic } => lemma_subscribe_wf(v, subscriber, topic),
        Operation::Unsubscribe { subscriber } => lemma_unsubscribe_wf(v, subscriber),
        Operation::Publish { topic, publish_id, payload } => lemma_publish_wf(v, topic, publish_id, payload),
        Operation::Get { subscriber, topic } => lemma_get_wf(v, subscriber, topic),
        Operation::Acknowledge { subscriber, post_number } => lemma_acknowledge_wf(v, subscriber, post_number),
    }
}

/// Any sequence of requests keeps the invariant.
pub proof fn lemma_run_wf(v: BrokerView, ops: Seq<Operation>)
    requires
        v.wf(),
    ensures
        v.run(ops).wf(),
    decreases ops.len(),
{
    if ops.len() > 0 {
        lemma_run_wf(v, ops.drop_last());
        lemma_step_wf(v.run(ops.drop_last()), ops.last());
    }
}

} // verus!
