//! What the broker guarantees to its clients, proved of the state machine.
//!
//! The executable broker is specified against the state machine of
//! [`crate::model`], so whatever is proved here of a [`BrokerView`] holds of
//! every state the broker goes through.

use vstd::prelude::*;
use crate::messages::error::BrokerErrorType;
use crate::model::{
    lemma_acknowledge_wf, lemma_awaited_above_floor, lemma_run_wf, lemma_subscribe_wf, BrokerView,
    Operation, SubscriberStatus,
};

verus! {

impl BrokerView {
    /// The counter of `topic`, 0 while the topic does not exist.
    pub open spec fn counter_of(self, topic: Seq<char>) -> nat {
        if self.topics.dom().contains(topic) {
            self.topics[topic].post_counter
        } else {
            0
        }
    }

    /// The retained posts of `topic`, none while the topic does not exist.
    pub open spec fn posts_of(self, topic: Seq<char>) -> Map<nat, Seq<u8>> {
        if self.topics.dom().contains(topic) {
            self.topics[topic].posts
        } else {
            Map::empty()
        }
    }

    /// Whether `op` is a publish to `topic` that this state accepts.
    pub open spec fn accepts_publish(self, op: Operation, topic: Seq<char>) -> bool {
        op matches Operation::Publish { topic: t, publish_id, .. } && t == topic && self.publish_outcome(
            t,
            publish_id,
        ) is Ok
    }

    /// Whether `op` is an acknowledgement by `subscriber` that this state accepts.
    pub open spec fn accepts_acknowledge(self, op: Operation, subscriber: Seq<char>) -> bool {
        op matches Operation::Acknowledge { subscriber: s, post_number } && s == subscriber
            && self.acknowledge_outcome(s, post_number) is Ok
    }

    /// The payloads of the publishes to `topic` that are accepted while `ops`
    /// are handled from this state on, in the order of their acceptance.
    pub open spec fn accepted(self, ops: Seq<Operation>, topic: Seq<char>) -> Seq<Seq<u8>>
        decreases ops.len(),
    {
        if ops.len() == 0 {
            Seq::empty()
        } else {
            let earlier = self.accepted(ops.drop_last(), topic);
            if self.run(ops.drop_last()).accepts_publish(ops.last(), topic) {
                earlier.push(ops.last()->payload)
            } else {
                earlier
            }
        }
    }
}

/// A delivery is the post right after the subscriber's cursor, with the
/// payload stored under that number.
pub proof fn lemma_delivery_follows_cursor(v: BrokerView, subscriber: Seq<char>, topic: Seq<char>)
    requires
        v.get_outcome(subscriber, topic) is Ok,
    ensures
        v.get_outcome(subscriber, topic) matches Ok((n, payload)) && n == v.subscribers[subscriber].last_acked + 1
            && v.subscribed_to(subscriber, topic) && v.posts_of(topic).dom().contains(n) && payload == v.posts_of(
            topic,
        )[n],
{
}

/// Between a subscriber's own acknowledgements its cursor stands still, and
/// an accepted acknowledgement moves it by exactly one: a subscriber is
/// delivered the posts of its topic one by one, without a skip.
pub proof fn lemma_cursor_moves_by_one(v: BrokerView, op: Operation, subscriber: Seq<char>)
    requires
        v.subscribers.dom().contains(subscriber),
        v.step(op).subscribers.dom().contains(subscriber),
    ensures
        v.step(op).subscribers[subscriber].topic == v.subscribers[subscriber].topic,
        v.step(op).subscribers[subscriber].last_acked == v.subscribers[subscriber].last_acked + (if v.accepts_acknowledge(
            op,
            subscriber,
        ) {
            1nat
        } else {
            0nat
        }),
{
}

impl BrokerView {
    /// How many acknowledgements by `subscriber` are accepted while `ops`
    /// are handled from this state on.
    pub open spec fn acknowledged(self, ops: Seq<Operation>, subscriber: Seq<char>) -> nat
        decreases ops.len(),
    {
        if ops.len() == 0 {
            0
        } else {
            self.acknowledged(ops.drop_last(), subscriber) + (if self.run(ops.drop_last()).accepts_acknowledge(
                ops.last(),
                subscriber,
            ) {
                1nat
            } else {
                0nat
            })
        }
    }
}

/// Ordering, on the subscriber's side. As long as a subscriber stays
/// registered, its cursor has moved by the number of its acknowledgements
/// that were accepted, each of which was for the post after the cursor: the
/// numbers it is delivered rise one by one, without a skip and without a
/// step back.
pub proof fn theorem_cursor_counts_acknowledgements(v: BrokerView, ops: Seq<Operation>, subscriber: Seq<char>)
    requires
        v.subscribers.dom().contains(subscriber),
        forall|i: int| 0 <= i < ops.len() ==> #[trigger] ops[i] != (Operation::Unsubscribe { subscriber }),
    ensures
        v.run(ops).subscribers.dom().contains(subscriber),
        v.run(ops).subscribers[subscriber].topic == v.subscribers[subscriber].topic,
        v.run(ops).subscribers[subscriber].last_acked == v.subscribers[subscriber].last_acked + v.acknowledged(
            ops,
            subscriber,
        ),
    decreases ops.len(),
{
    if ops.len() > 0 {
        let earlier = ops.drop_last();
        assert forall|i: int| 0 <= i < earlier.len() implies #[trigger] earlier[i] != (Operation::Unsubscribe {
            subscriber,
        }) by {
            assert(earlier[i] == ops[i]);
        }
        theorem_cursor_counts_acknowledgements(v, earlier, subscriber);
        assert(ops.last() == ops[ops.len() - 1]);
        lemma_cursor_moves_by_one(v.run(earlier), ops.last(), subscriber);
    }
}

/// A post that a subscriber has yet to acknowledge is retained: nothing at
/// or below the topic's counter and above the cursor is ever missing.
pub proof fn lemma_pending_posts_retained(v: BrokerView, subscriber: Seq<char>, n: nat)
    requires
        v.wf(),
        v.subscribers.dom().contains(subscriber),
        v.subscribers[subscriber].last_acked < n <= v.counter_of(v.subscribers[subscriber].topic),
    ensures
        v.posts_of(v.subscribers[subscriber].topic).dom().contains(n),
{
    let entry = v.subscribers[subscriber];
    assert(v.subscriber_wf(subscriber));
    assert(v.topics[entry.topic].wf());
    assert(v.topics[entry.topic].posts.dom().contains(entry.last_acked + 1));
}

/// One request changes the log of a topic in one of two ways: an accepted
/// publish to the topic adds the next number with the published payload;
/// anything else leaves the counter and may only drop posts. No request
/// changes the payload stored under a number.
pub proof fn lemma_step_log(v: BrokerView, op: Operation, topic: Seq<char>)
    ensures
        v.topics.dom().contains(topic) ==> v.step(op).topics.dom().contains(topic),
        v.accepts_publish(op, topic) ==> {
            &&& v.step(op).counter_of(topic) == v.counter_of(topic) + 1
            &&& v.step(op).posts_of(topic) == v.posts_of(topic).insert(v.counter_of(topic) + 1, op->payload)
        },
        !v.accepts_publish(op, topic) ==> {
            &&& v.step(op).counter_of(topic) == v.counter_of(topic)
            &&& forall|n: nat| #[trigger]
                v.step(op).posts_of(topic).dom().contains(n) ==> v.posts_of(topic).dom().contains(n) && v.step(
                    op,
                ).posts_of(topic)[n] == v.posts_of(topic)[n]
        },
{
}

/// The log of a topic records the publishes accepted for it, in order: after
/// any sequence of requests the counter has grown by the number of accepted
/// publishes, and a retained post numbered `k` above the old counter holds the
/// payload of the `k`-th of them.
pub proof fn theorem_log_matches_publishes(v: BrokerView, ops: Seq<Operation>, topic: Seq<char>)
    requires
        v.wf(),
    ensures
        v.run(ops).counter_of(topic) == v.counter_of(topic) + v.accepted(ops, topic).len(),
        forall|n: nat| #[trigger]
            v.run(ops).posts_of(topic).dom().contains(n) && v.counter_of(topic) < n ==> n <= v.run(ops).counter_of(
                topic,
            ) && v.run(ops).posts_of(topic)[n] == v.accepted(ops, topic)[n - v.counter_of(topic) - 1],
        forall|n: nat| #[trigger]
            v.run(ops).posts_of(topic).dom().contains(n) && n <= v.counter_of(topic) ==> v.posts_of(
                topic,
            ).dom().contains(n) && v.run(ops).posts_of(topic)[n] == v.posts_of(topic)[n],
    decreases ops.len(),
{
    if ops.len() == 0 {
        if v.topics.dom().contains(topic) {
            assert(v.topics[topic].wf());
        }
    } else {
        let before = v.run(ops.drop_last());
        theorem_log_matches_publishes(v, ops.drop_last(), topic);
        lemma_step_log(before, ops.last(), topic);
        let after = v.run(ops);
        assert(after == before.step(ops.last()));
        assert forall|n: nat| #[trigger]
            after.posts_of(topic).dom().contains(n) && v.counter_of(topic) < n implies n <= after.counter_of(topic)
            && after.posts_of(topic)[n] == v.accepted(ops, topic)[n - v.counter_of(topic) - 1] by {
            if before.accepts_publish(ops.last(), topic) {
                if n != before.counter_of(topic) + 1 {
                    assert(before.posts_of(topic).dom().contains(n));
                }
            } else {
                assert(before.posts_of(topic).dom().contains(n));
            }
        }
        assert forall|n: nat| #[trigger]
            after.posts_of(topic).dom().contains(n) && n <= v.counter_of(topic) implies v.posts_of(
            topic,
        ).dom().contains(n) && after.posts_of(topic)[n] == v.posts_of(topic)[n] by {
            assert(before.posts_of(topic).dom().contains(n));
        }
    }
}

/// Ordering. Whatever requests the broker has handled since some state, a
/// post it then delivers under a number above that state's counter carries the
/// payload of the publish that was accepted in that place, and the number is
/// the one after the subscriber's cursor.
pub proof fn theorem_delivery_matches_publish(
    v: BrokerView,
    ops: Seq<Operation>,
    subscriber: Seq<char>,
    topic: Seq<char>,
)
    requires
        v.wf(),
        v.run(ops).get_outcome(subscriber, topic) is Ok,
        v.run(ops).get_outcome(subscriber, topic)->Ok_0.0 > v.counter_of(topic),
    ensures
        v.run(ops).get_outcome(subscriber, topic) matches Ok((n, payload)) && n == v.run(
            ops,
        ).subscribers[subscriber].last_acked + 1 && n - v.counter_of(topic) - 1 < v.accepted(ops, topic).len()
            && payload == v.accepted(ops, topic)[n - v.counter_of(topic) - 1],
{
    theorem_log_matches_publishes(v, ops, topic);
    let w = v.run(ops);
    let n = w.get_outcome(subscriber, topic)->Ok_0.0;
    assert(w.posts_of(topic).dom().contains(n));
}

/// Redelivery. A get leaves the broker in a state in which the same get has
/// the same answer: a post that was delivered is delivered again, with the
/// same number and payload, until it is acknowledged. A second get changes
/// nothing, and no get moves a cursor.
pub proof fn theorem_get_is_repeatable(v: BrokerView, subscriber: Seq<char>, topic: Seq<char>)
    ensures
        v.get(subscriber, topic).get_outcome(subscriber, topic) == v.get_outcome(subscriber, topic),
        v.get(subscriber, topic).get(subscriber, topic) == v.get(subscriber, topic),
        v.subscribers.dom().contains(subscriber) ==> v.get(subscriber, topic).subscribers[subscriber].last_acked
            == v.subscribers[subscriber].last_acked,
{
    let w = v.get(subscriber, topic);
    assert(w.get(subscriber, topic).subscribers =~= w.subscribers);
}

impl BrokerView {
    /// Whether none of `ops`, handled from this state on, is an
    /// acknowledgement by `subscriber` that is accepted, or ends its
    /// subscription.
    pub open spec fn leaves_alone(self, ops: Seq<Operation>, subscriber: Seq<char>) -> bool
        decreases ops.len(),
    {
        ops.len() > 0 ==> {
            &&& self.leaves_alone(ops.drop_last(), subscriber)
            &&& !self.run(ops.drop_last()).accepts_acknowledge(ops.last(), subscriber)
            &&& ops.last() != (Operation::Unsubscribe { subscriber })
        }
    }
}

/// At-least-once delivery. A post that was delivered to a subscriber is
/// delivered to it again, with the same number and payload, by every later
/// get, whatever else the broker handles in between, until the subscriber
/// acknowledges it or ends its subscription.
pub proof fn theorem_redelivery_until_acknowledged(
    v: BrokerView,
    ops: Seq<Operation>,
    subscriber: Seq<char>,
    topic: Seq<char>,
)
    requires
        v.wf(),
        v.get_outcome(subscriber, topic) is Ok,
        v.leaves_alone(ops, subscriber),
    ensures
        v.run(ops).get_outcome(subscriber, topic) == v.get_outcome(subscriber, topic),
    decreases ops.len(),
{
    if ops.len() > 0 {
        let before = v.run(ops.drop_last());
        let after = v.run(ops);
        let n = (v.subscribers[subscriber].last_acked + 1) as nat;
        theorem_redelivery_until_acknowledged(v, ops.drop_last(), subscriber, topic);
        lemma_run_wf(v, ops.drop_last());
        lemma_run_wf(v, ops);
        assert(after == before.step(ops.last()));
        assert(before.topics[topic].wf());
        lemma_cursor_moves_by_one(before, ops.last(), subscriber);
        lemma_step_log(before, ops.last(), topic);
        lemma_pending_posts_retained(after, subscriber, n);
    }
}

/// Acknowledge gating. An acknowledgement of any post but the one after the
/// cursor of a registered subscriber fails with `AckMismatch` and changes
/// nothing.
pub proof fn theorem_acknowledge_gating(v: BrokerView, subscriber: Seq<char>, post_number: nat)
    requires
        v.subscribers.dom().contains(subscriber),
        post_number != v.subscribers[subscriber].last_acked + 1,
    ensures
        v.acknowledge_outcome(subscriber, post_number) == Err::<(), BrokerErrorType>(BrokerErrorType::AckMismatch),
        v.acknowledge(subscriber, post_number) == v,
{
}

/// No request takes a publish identifier out of the filter.
pub proof fn lemma_step_keeps_filter(v: BrokerView, op: Operation, publish_id: Seq<char>)
    requires
        v.publish_filter.contains(publish_id),
    ensures
        v.step(op).publish_filter.contains(publish_id),
{
}

/// No sequence of requests takes a publish identifier out of the filter.
pub proof fn lemma_run_keeps_filter(v: BrokerView, ops: Seq<Operation>, publish_id: Seq<char>)
    requires
        v.publish_filter.contains(publish_id),
    ensures
        v.run(ops).publish_filter.contains(publish_id),
    decreases ops.len(),
{
    if ops.len() > 0 {
        lemma_run_keeps_filter(v, ops.drop_last(), publish_id);
        lemma_step_keeps_filter(v.run(ops.drop_last()), ops.last(), publish_id);
    }
}

/// Duplicate suppression. Once a publish was accepted under an identifier,
/// and whatever requests were handled since, a publish under that identifier
/// is refused as a duplicate and changes nothing: no counter moves.
pub proof fn theorem_duplicate_suppression(
    v: BrokerView,
    topic: Seq<char>,
    publish_id: Seq<char>,
    payload: Seq<u8>,
    ops: Seq<Operation>,
    again_topic: Seq<char>,
    again_payload: Seq<u8>,
)
    requires
        v.publish_outcome(topic, publish_id) is Ok,
    ensures
        ({
            let later = v.publish(topic, publish_id, payload).run(ops);
            &&& later.publish_outcome(again_topic, publish_id) == Err::<nat, BrokerErrorType>(
                BrokerErrorType::DuplicatePublish,
            )
            &&& later.publish(again_topic, publish_id, again_payload) == later
        }),
{
    lemma_run_keeps_filter(v.publish(topic, publish_id, payload), ops, publish_id);
}

/// Retention floor. After an accepted acknowledgement the subscriber's topic
/// retains exactly the posts above the smallest cursor of its subscribers, up
/// to its counter.
pub proof fn theorem_retention_floor(v: BrokerView, subscriber: Seq<char>, post_number: nat, floor: nat, n: nat)
    requires
        v.wf(),
        v.acknowledge_outcome(subscriber, post_number) is Ok,
        v.acknowledge(subscriber, post_number).is_retention_floor(v.subscribers[subscriber].topic, floor),
    ensures
        v.acknowledge(subscriber, post_number).posts_of(v.subscribers[subscriber].topic).dom().contains(n) <==> floor
            < n <= v.acknowledge(subscriber, post_number).counter_of(v.subscribers[subscriber].topic),
{
    let topic = v.subscribers[subscriber].topic;
    let a = v.advance(subscriber);
    let w = v.acknowledge(subscriber, post_number);
    lemma_acknowledge_wf(v, subscriber, post_number);
    assert(v.subscriber_wf(subscriber));
    assert(a.subscribed_to(subscriber, topic));
    assert(w.topics[topic].wf());
    assert(w.subscribers =~= a.subscribers);
    assert(a.is_retention_floor(topic, floor)) by {
        let low = choose|s: Seq<char>| #[trigger] w.subscribed_to(s, topic) && w.subscribers[s].last_acked == floor;
        assert(a.subscribed_to(low, topic));
        assert forall|s: Seq<char>| #[trigger] a.subscribed_to(s, topic) implies floor
            <= a.subscribers[s].last_acked by {
            assert(w.subscribed_to(s, topic));
        }
    }
    lemma_awaited_above_floor(a, topic, floor, n);
    if floor < n <= w.counter_of(topic) {
        let low = choose|s: Seq<char>| #[trigger] w.subscribed_to(s, topic) && w.subscribers[s].last_acked == floor;
        assert(w.subscribed_to(low, topic));
        assert(w.subscriber_wf(low));
        assert(w.topics[topic].posts.dom().contains(floor + 1));
        assert(w.topics[topic].posts.dom().contains(n));
    }
}

/// No request moves a counter back or removes a topic.
pub proof fn lemma_step_counter(v: BrokerView, op: Operation, topic: Seq<char>)
    ensures
        v.counter_of(topic) <= v.step(op).counter_of(topic),
{
    lemma_step_log(v, op, topic);
}

/// While requests are handled, the cursor of whoever is subscribed to a
/// topic stays at or above a bound that it and the topic's counter once
/// reached.
pub proof fn lemma_run_cursor_bound(
    v: BrokerView,
    ops: Seq<Operation>,
    subscriber: Seq<char>,
    topic: Seq<char>,
    bound: nat,
)
    requires
        v.wf(),
        bound <= v.counter_of(topic),
        v.subscribed_to(subscriber, topic) ==> bound <= v.subscribers[subscriber].last_acked,
    ensures
        bound <= v.run(ops).counter_of(topic),
        v.run(ops).subscribed_to(subscriber, topic) ==> bound <= v.run(ops).subscribers[subscriber].last_acked,
    decreases ops.len(),
{
    if ops.len() > 0 {
        let before = v.run(ops.drop_last());
        lemma_run_cursor_bound(v, ops.drop_last(), subscriber, topic, bound);
        lemma_run_wf(v, ops.drop_last());
        lemma_step_counter(before, ops.last(), topic);
    }
}

/// Late subscriber isolation. A subscriber is never delivered a post that
/// its topic had counted when it registered, whatever requests are handled
/// afterwards: its cursor starts at that counter and every delivery lies
/// above it.
pub proof fn theorem_late_subscriber_isolation(
    v: BrokerView,
    subscriber: Seq<char>,
    topic: Seq<char>,
    ops: Seq<Operation>,
)
    requires
        v.wf(),
        v.subscribe_outcome(subscriber, topic) is Ok,
        v.subscribe(subscriber, topic).run(ops).get_outcome(subscriber, topic) is Ok,
    ensures
        v.subscribe_outcome(subscriber, topic) == Ok::<nat, BrokerErrorType>(v.counter_of(topic)),
        v.subscribe(subscriber, topic).run(ops).get_outcome(subscriber, topic)->Ok_0.0 > v.counter_of(topic),
{
    let start = v.subscribe(subscriber, topic);
    lemma_subscribe_wf(v, subscriber, topic);
    lemma_run_cursor_bound(start, ops, subscriber, topic, v.counter_of(topic));
}

/// The first post published after a subscription is the first one the
/// subscriber is delivered: it carries the number after the counter the
/// topic had at the subscription, and the published payload.
pub proof fn theorem_first_delivery_after_subscription(
    v: BrokerView,
    subscriber: Seq<char>,
    topic: Seq<char>,
    publish_id: Seq<char>,
    payload: Seq<u8>,
)
    requires
        v.subscribe_outcome(subscriber, topic) is Ok,
        v.subscribe(subscriber, topic).publish_outcome(topic, publish_id) is Ok,
    ensures
        v.subscribe(subscriber, topic).publish(topic, publish_id, payload).get_outcome(subscriber, topic) == Ok::<
            (nat, Seq<u8>),
            BrokerErrorType,
        >(((v.counter_of(topic) + 1) as nat, payload)),
{
}

/// A subscriber whose cursor still stands at the counter that its topic had
/// in some earlier state is delivered, as its next post, the first publish
/// that was accepted for the topic since, whatever else was handled in
/// between.
pub proof fn theorem_next_delivery_is_first_unread_publish(
    v: BrokerView,
    ops: Seq<Operation>,
    subscriber: Seq<char>,
    topic: Seq<char>,
)
    requires
        v.wf(),
        v.run(ops).subscribed_to(subscriber, topic),
        v.run(ops).subscribers[subscriber].last_acked == v.counter_of(topic),
        v.accepted(ops, topic).len() > 0,
    ensures
        v.run(ops).get_outcome(subscriber, topic) == Ok::<(nat, Seq<u8>), BrokerErrorType>(
            ((v.counter_of(topic) + 1) as nat, v.accepted(ops, topic)[0]),
        ),
{
    let w = v.run(ops);
    lemma_run_wf(v, ops);
    theorem_log_matches_publishes(v, ops, topic);
    lemma_pending_posts_retained(w, subscriber, (v.counter_of(topic) + 1) as nat);
}

/// A subscriber that waits for an acknowledgement was delivered a post that
/// is still retained, and one that waits for a get is out of turn when it
/// acknowledges.
pub proof fn lemma_acknowledge_needs_delivery(v: BrokerView, subscriber: Seq<char>, post_number: nat)
    requires
        v.wf(),
        v.acknowledge_outcome(subscriber, post_number) is Ok,
    ensures
        v.subscribers[subscriber].status == SubscriberStatus::WaitingAck,
        v.get_outcome(subscriber, v.subscribers[subscriber].topic) matches Ok((n, _)) && n == post_number,
{
    assert(v.subscriber_wf(subscriber));
}

} // verus!
