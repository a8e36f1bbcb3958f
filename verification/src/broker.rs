//! The broker's state and the five requests it serves.

use vstd::prelude::*;

pub mod handlers;
pub mod subscriber;
pub mod topic;

pub use self::subscriber::SubscriberData;
pub use self::topic::TopicData;

use crate::ident::{fresh_uuid, is_uuid_v4_text};
use crate::keyed::{StringMap, StringSet};
use crate::messages::error::BrokerErrorType;
use crate::model::{
    entry_fits, lemma_advance_wf, lemma_awaited_above_floor, lemma_empty_wf, lemma_evict_wf, lemma_get_wf,
    lemma_publish_wf, lemma_subscribe_wf, lemma_unsubscribe_wf, BrokerView, SubscriberStatus,
    SubscriberView, TopicView,
};

verus! {

/// A post number as the state machine counts it.
pub open spec fn numbered(outcome: Result<u64, BrokerErrorType>) -> Result<nat, BrokerErrorType> {
    match outcome {
        Ok(n) => Ok(n as nat),
        Err(e) => Err(e),
    }
}

/// A delivery as the state machine sees it.
pub open spec fn delivered(outcome: Result<(u64, Vec<u8>), BrokerErrorType>) -> Result<
    (nat, Seq<u8>),
    BrokerErrorType,
> {
    match outcome {
        Ok((n, payload)) => Ok((n as nat, payload@)),
        Err(e) => Err(e),
    }
}

/// The broker: its identity, its topics, its subscribers and the publish
/// identifiers it has accepted.
#[derive(Debug)]
pub struct BrokerState {
    broker_uuid: String,
    subs: StringMap<SubscriberData>,
    topics: StringMap<TopicData>,
    received_uuids: StringSet,
}

/// The topics of a table, each as the state machine sees it.
pub open spec fn topic_views(table: Map<Seq<char>, TopicData>) -> Map<Seq<char>, TopicView> {
    table.map_values(|t: TopicData| t@)
}

/// The subscribers of a table, each as the state machine sees it.
pub open spec fn subscriber_views(table: Map<Seq<char>, SubscriberData>) -> Map<Seq<char>, SubscriberView> {
    table.map_values(|s: SubscriberData| s@)
}

impl View for BrokerState {
    type V = BrokerView;

    closed spec fn view(&self) -> BrokerView {
        BrokerView {
            broker_id: self.broker_uuid@,
            topics: topic_views(self.topics@),
            subscribers: subscriber_views(self.subs@),
            publish_filter: self.received_uuids@,
        }
    }
}

/// What a broker holds, laid open: the form in which its state is written
/// to stable storage and read back.
#[derive(Debug)]
pub struct Snapshot {
    pub broker_uuid: String,
    pub subs: StringMap<SubscriberData>,
    pub topics: StringMap<TopicData>,
    pub received_uuids: StringSet,
}

impl View for Snapshot {
    type V = BrokerView;

    open spec fn view(&self) -> BrokerView {
        BrokerView {
            broker_id: self.broker_uuid@,
            topics: topic_views(self.topics@),
            subscribers: subscriber_views(self.subs@),
            publish_filter: self.received_uuids@,
        }
    }
}

impl Snapshot {
    /// The snapshot is one that a broker can have written: its tables are
    /// well formed, every log ends at its counter, and the broker's
    /// invariant holds of its contents.
    pub open spec fn valid(&self) -> bool {
        &&& self.subs.wf()
        &&& self.topics.wf()
        &&& self.received_uuids.wf()
        &&& forall|i: int| 0 <= i < self.topics.values@.len() ==> (#[trigger] self.topics.values@[i]).wf()
        &&& self@.wf()
    }
}

impl BrokerState {
    /// The tables are well formed, every log ends at its counter, and the
    /// broker's invariant holds.
    pub closed spec fn wf(&self) -> bool {
        &&& self.subs.wf()
        &&& self.topics.wf()
        &&& self.received_uuids.wf()
        &&& forall|t: Seq<char>| #[trigger] self.topics@.dom().contains(t) ==> self.topics@[t].wf()
        &&& self@.wf()
    }

    /// Every topic can take one more post without its counter leaving `u64`.
    pub open spec fn has_headroom(&self) -> bool {
        forall|t: Seq<char>| #[trigger]
            self@.topics.dom().contains(t) ==> self@.topics[t].post_counter < u64::MAX
    }

    /// A well-formed broker satisfies the state machine's invariant.
    pub proof fn lemma_wf(&self)
        requires
            self.wf(),
        ensures
            self@.wf(),
    {
    }

    /// A broker with the given identity and nothing else.
    pub fn with_id(broker_uuid: String) -> (state: BrokerState)
        ensures
            state.wf(),
            state@ == BrokerView::empty(broker_uuid@),
    {
        let state = BrokerState {
            broker_uuid,
            subs: StringMap::new(),
            topics: StringMap::new(),
            received_uuids: StringSet::new(),
        };
        proof {
            lemma_empty_wf(broker_uuid@);
            assert(state@.topics =~= Map::<Seq<char>, TopicView>::empty());
            assert(state@.subscribers =~= Map::<Seq<char>, SubscriberView>::empty());
            assert(state@ =~= BrokerView::empty(broker_uuid@));
        }
        state
    }

    /// The table of subscribers.
    pub fn subscribers(&self) -> (table: &StringMap<SubscriberData>)
        requires
            self.wf(),
        ensures
            table.wf(),
            subscriber_views(table@) == self@.subscribers,
    {
        &self.subs
    }

    /// The table of topics.
    pub fn topics(&self) -> (table: &StringMap<TopicData>)
        requires
            self.wf(),
        ensures
            table.wf(),
            topic_views(table@) == self@.topics,
    {
        &self.topics
    }

    /// The publish identifiers accepted so far.
    pub fn publish_filter(&self) -> (filter: &StringSet)
        requires
            self.wf(),
        ensures
            filter.wf(),
            filter@ == self@.publish_filter,
    {
        &self.received_uuids
    }

    /// Lays the broker's state open.
    pub fn into_snapshot(self) -> (snapshot: Snapshot)
        requires
            self.wf(),
        ensures
            snapshot.valid(),
            snapshot@ == self@,
    {
        let snapshot = Snapshot {
            broker_uuid: self.broker_uuid,
            subs: self.subs,
            topics: self.topics,
            received_uuids: self.received_uuids,
        };
        proof {
            assert forall|i: int| 0 <= i < snapshot.topics.values@.len() implies (
            #[trigger] snapshot.topics.values@[i]).wf() by {
                snapshot.topics.lemma_entry(i);
            }
        }
        snapshot
    }

    /// Whether every log of `topics` ends at its counter.
    fn check_logs(topics: &StringMap<TopicData>) -> (ok: bool)
        ensures
            ok == forall|i: int| 0 <= i < topics.values@.len() ==> (#[trigger] topics.values@[i]).wf(),
    {
        let mut i: usize = 0;
        while i < topics.values.len()
            invariant
                i <= topics.values@.len(),
                forall|j: int| 0 <= j < i ==> (#[trigger] topics.values@[j]).wf(),
            decreases topics.values@.len() - i,
        {
            if !topics.values[i].check_wf() {
                return false;
            }
            i += 1;
        }
        true
    }

    /// Whether every subscriber of `subs` fits its topic in `topics`.
    fn check_subscribers(subs: &StringMap<SubscriberData>, topics: &StringMap<TopicData>) -> (ok: bool)
        requires
            subs.wf(),
            topics.wf(),
            forall|i: int| 0 <= i < topics.values@.len() ==> (#[trigger] topics.values@[i]).wf(),
        ensures
            ok == forall|i: int|
                0 <= i < subs.keys@.len() ==> entry_fits((#[trigger] subs.values@[i])@, topic_views(topics@)),
    {
        let mut i: usize = 0;
        while i < subs.values.len()
            invariant
                subs.wf(),
                topics.wf(),
                forall|i: int| 0 <= i < topics.values@.len() ==> (#[trigger] topics.values@[i]).wf(),
                i <= subs.values@.len(),
                forall|j: int| 0 <= j < i ==> entry_fits((#[trigger] subs.values@[j])@, topic_views(topics@)),
            decreases subs.values@.len() - i,
        {
            let entry = &subs.values[i];
            let cursor = entry.last_read_post();
            let fits = match topics.get(entry.topic()) {
                Some(log) => {
                    proof {
                        topics.lemma_position(entry@.topic);
                        log.lemma_parts();
                    }
                    cursor <= log.post_counter() && (cursor == log.post_counter() || log.evicted() <= cursor)
                        && match entry.status() {
                        SubscriberStatus::WaitingAck => cursor < log.post_counter(),
                        SubscriberStatus::WaitingGet => true,
                    }
                },
                None => false,
            };
            if !fits {
                return false;
            }
            i += 1;
        }
        true
    }

    /// Takes up the state that a snapshot holds, if the snapshot is valid.
    pub fn from_snapshot(snapshot: Snapshot) -> (state: Option<BrokerState>)
        ensures
            state is Some <==> snapshot.valid(),
            state matches Some(restored) ==> restored.wf() && restored@ == snapshot@,
    {
        if !snapshot.subs.check_wf() || !snapshot.topics.check_wf() || !snapshot.received_uuids.check_wf() {
            return None;
        }
        if !Self::check_logs(&snapshot.topics) {
            return None;
        }
        let fit = Self::check_subscribers(&snapshot.subs, &snapshot.topics);
        proof {
            let v = snapshot@;
            assert forall|t: Seq<char>| #[trigger] v.topics.dom().contains(t) implies v.topics[t].wf()
                && snapshot.topics@[t].wf() by {
                snapshot.topics.lemma_position(t);
                let log = snapshot.topics.values@[snapshot.topics.position(t)];
                log.lemma_parts();
            }
            if fit {
                assert forall|s: Seq<char>| #[trigger] v.subscribers.dom().contains(s) implies v.subscriber_wf(
                    s,
                ) by {
                    snapshot.subs.lemma_position(s);
                    assert(entry_fits(snapshot.subs.values@[snapshot.subs.position(s)]@, v.topics));
                }
            } else {
                let i = choose|i: int|
                    0 <= i < snapshot.subs.keys@.len() && !entry_fits(
                        (#[trigger] snapshot.subs.values@[i])@,
                        topic_views(snapshot.topics@),
                    );
                snapshot.subs.lemma_entry(i);
                assert(v.subscribers.dom().contains(snapshot.subs.keys@[i]@));
                assert(!v.subscriber_wf(snapshot.subs.keys@[i]@));
            }
        }
        if !fit {
            return None;
        }
        Some(
            BrokerState {
                broker_uuid: snapshot.broker_uuid,
                subs: snapshot.subs,
                topics: snapshot.topics,
                received_uuids: snapshot.received_uuids,
            },
        )
    }

    /// The state a broker starts from: that of the snapshot it found, if it
    /// found a valid one, and else an empty state under the identity `fresh_id`.
    pub fn recover_with(loaded: Option<Snapshot>, fresh_id: String) -> (state: BrokerState)
        ensures
            state.wf(),
            state@ == match loaded {
                Some(snapshot) if snapshot.valid() => snapshot@,
                _ => BrokerView::empty(fresh_id@),
            },
    {
        let restored = match loaded {
            Some(snapshot) => BrokerState::from_snapshot(snapshot),
            None => None,
        };
        match restored {
            Some(state) => state,
            None => BrokerState::with_id(fresh_id),
        }
    }

    /// The state a broker starts from: that of the snapshot it found, if it
    /// found a valid one, and else an empty state under a freshly drawn
    /// identity.
    pub fn recover_state(loaded: Option<Snapshot>) -> (state: BrokerState)
        ensures
            state.wf(),
            state@ == match loaded {
                Some(snapshot) if snapshot.valid() => snapshot@,
                _ => BrokerView::empty(state@.broker_id),
            },
            !(loaded matches Some(snapshot) && snapshot.valid()) ==> is_uuid_v4_text(state@.broker_id),
    {
        let restored = match loaded {
            Some(snapshot) => BrokerState::from_snapshot(snapshot),
            None => None,
        };
        match restored {
            Some(state) => state,
            None => BrokerState::new(),
        }
    }

    /// A broker with a freshly drawn identity and nothing else.
    pub fn new() -> (state: BrokerState)
        ensures
            state.wf(),
            state@ == BrokerView::empty(state@.broker_id),
            is_uuid_v4_text(state@.broker_id),
    {
        BrokerState::with_id(fresh_uuid())
    }

    /// The broker's identity.
    pub fn broker_id(&self) -> (id: &String)
        ensures
            id@ == self@.broker_id,
    {
        &self.broker_uuid
    }

    /// Whether every topic can take one more post.
    pub fn check_headroom(&self) -> (ok: bool)
        requires
            self.wf(),
        ensures
            ok == self.has_headroom(),
    {
        let mut i: usize = 0;
        while i < self.topics.values.len()
            invariant
                self.wf(),
                i <= self.topics.values@.len(),
                forall|j: int| 0 <= j < i ==> (#[trigger] self.topics.values@[j])@.post_counter < u64::MAX,
            decreases self.topics.values@.len() - i,
        {
            if self.topics.values[i].post_counter() == u64::MAX {
                proof {
                    self.topics.lemma_entry(i as int);
                    assert(self@.topics.dom().contains(self.topics.keys@[i as int]@));
                }
                return false;
            }
            i += 1;
        }
        proof {
            assert forall|t: Seq<char>| #[trigger] self@.topics.dom().contains(t) implies self@.topics[t].post_counter
                < u64::MAX by {
                self.topics.lemma_position(t);
            }
        }
        true
    }

    /// Publishes `payload` to `topic` under `publish_id`.
    ///
    /// A publish identifier that was accepted before is refused, then a topic
    /// that does not exist. Otherwise the post gets the next number of the
    /// topic and the identifier is remembered.
    pub fn publish(&mut self, topic: &String, publish_id: &String, payload: Vec<u8>) -> (outcome: Result<
        u64,
        BrokerErrorType,
    >)
        requires
            old(self).wf(),
            old(self)@.publish_outcome(topic@, publish_id@) matches Ok(n) ==> n <= u64::MAX,
        ensures
            final(self).wf(),
            final(self)@ == old(self)@.publish(topic@, publish_id@, payload@),
            numbered(outcome) == old(self)@.publish_outcome(topic@, publish_id@),
    {
        if self.received_uuids.contains(publish_id) {
            return Err(BrokerErrorType::DuplicatePublish);
        }
        let mut log = match self.topics.remove(topic) {
            Some(log) => log,
            None => {
                assert(self.topics@ =~= old(self).topics@);
                return Err(BrokerErrorType::UnknownTopic);
            },
        };
        let n = log.append(payload);
        self.topics.insert(topic.clone(), log);
        self.received_uuids.insert(publish_id.clone());
        proof {
            lemma_publish_wf(old(self)@, topic@, publish_id@, payload@);
            assert(self@.topics =~= old(self)@.publish(topic@, publish_id@, payload@).topics);
            assert(self@ =~= old(self)@.publish(topic@, publish_id@, payload@));
        }
        Ok(n)
    }

    /// Registers `sub_id` on `topic`, creating the topic if need be, and
    /// returns the cursor the subscriber starts from: the topic's counter.
    pub fn subscribe(&mut self, sub_id: &String, topic: &String) -> (outcome: Result<u64, BrokerErrorType>)
        requires
            old(self).wf(),
        ensures
            final(self).wf(),
            final(self)@ == old(self)@.subscribe(sub_id@, topic@),
            numbered(outcome) == old(self)@.subscribe_outcome(sub_id@, topic@),
    {
        if self.subs.contains_key(sub_id) {
            return Err(BrokerErrorType::SubscriberAlreadyRegistered);
        }
        let known = match self.topics.get(topic) {
            Some(log) => Some(log.post_counter()),
            None => None,
        };
        let cursor = match known {
            Some(counter) => counter,
            None => {
                self.topics.insert(topic.clone(), TopicData::new());
                0
            },
        };
        self.subs.insert(sub_id.clone(), SubscriberData::new(topic.clone(), cursor));
        proof {
            lemma_subscribe_wf(old(self)@, sub_id@, topic@);
            assert(self@.topics =~= old(self)@.subscribe(sub_id@, topic@).topics);
            assert(self@.subscribers =~= old(self)@.subscribe(sub_id@, topic@).subscribers);
            assert(self@ =~= old(self)@.subscribe(sub_id@, topic@));
        }
        Ok(cursor)
    }

    /// Removes the entry of `sub_id`.
    pub fn unsubscribe(&mut self, sub_id: &String) -> (outcome: Result<(), BrokerErrorType>)
        requires
            old(self).wf(),
        ensures
            final(self).wf(),
            final(self)@ == old(self)@.unsubscribe(sub_id@),
            outcome == old(self)@.unsubscribe_outcome(sub_id@),
    {
        let removed = self.subs.remove(sub_id);
        proof {
            lemma_unsubscribe_wf(old(self)@, sub_id@);
            assert(self@.subscribers =~= old(self)@.unsubscribe(sub_id@).subscribers);
            assert(self@ =~= old(self)@.unsubscribe(sub_id@));
        }
        match removed {
            Some(_) => Ok(()),
            None => Err(BrokerErrorType::SubscriberNotRegistered),
        }
    }

    /// Delivers the post after the cursor of `sub_id`.
    ///
    /// The cursor does not move: until the post is acknowledged, another get
    /// delivers it again.
    pub fn get(&mut self, sub_id: &String, topic: &String) -> (outcome: Result<(u64, Vec<u8>), BrokerErrorType>)
        requires
            old(self).wf(),
        ensures
            final(self).wf(),
            final(self)@ == old(self)@.get(sub_id@, topic@),
            delivered(outcome) == old(self)@.get_outcome(sub_id@, topic@),
    {
        let mut entry = match self.subs.get(sub_id) {
            Some(entry) => entry.clone(),
            None => {
                return Err(BrokerErrorType::SubscriberNotRegistered);
            },
        };
        if *entry.topic() != *topic {
            return Err(BrokerErrorType::TopicMismatch);
        }
        proof {
            assert(old(self)@.subscriber_wf(sub_id@));
            assert(old(self)@.topics[topic@].wf());
        }
        if entry.last_read_post() == u64::MAX {
            proof {
                self.topics@[topic@].lemma_counter_bound();
            }
            return Err(BrokerErrorType::NoPostsAvailable);
        }
        let post_no = entry.last_read_post() + 1;
        let found = match self.topics.get(topic) {
            Some(log) => match log.get(post_no) {
                Some(payload) => Some(payload.clone()),
                None => None,
            },
            None => None,
        };
        let post_payload = match found {
            Some(payload) => payload,
            None => {
                return Err(BrokerErrorType::NoPostsAvailable);
            },
        };
        match entry.status() {
            SubscriberStatus::WaitingGet => entry.change_status(),
            SubscriberStatus::WaitingAck => {},
        }
        self.subs.insert(sub_id.clone(), entry);
        proof {
            lemma_get_wf(old(self)@, sub_id@, topic@);
            assert(self@.subscribers =~= old(self)@.get(sub_id@, topic@).subscribers);
            assert(self@ =~= old(self)@.get(sub_id@, topic@));
        }
        Ok((post_no, post_payload))
    }

    /// The smallest cursor among the subscribers of `topic`, if it has any.
    pub fn retention_floor(&self, topic: &String) -> (floor: Option<u64>)
        requires
            self.wf(),
        ensures
            match floor {
                Some(f) => self@.is_retention_floor(topic@, f as nat),
                None => !self@.has_subscribers(topic@),
            },
    {
        let mut floor: Option<u64> = None;
        let mut i: usize = 0;
        while i < self.subs.values.len()
            invariant
                self.wf(),
                i <= self.subs.values@.len(),
                floor is None ==> forall|j: int|
                    0 <= j < i ==> (#[trigger] self.subs.values@[j])@.topic != topic@,
                floor matches Some(f) ==> {
                    &&& exists|j: int|
                        0 <= j < i && (#[trigger] self.subs.values@[j])@.topic == topic@
                            && self.subs.values@[j]@.last_acked == f
                    &&& forall|j: int|
                        0 <= j < i && (#[trigger] self.subs.values@[j])@.topic == topic@ ==> f
                            <= self.subs.values@[j]@.last_acked
                },
            decreases self.subs.values@.len() - i,
        {
            let entry = &self.subs.values[i];
            if *entry.topic() == *topic {
                let lower = match floor {
                    Some(f) => entry.last_read_post() < f,
                    None => true,
                };
                if lower {
                    floor = Some(entry.last_read_post());
                }
            }
            i += 1;
        }
        proof {
            let v = self@;
            match floor {
                Some(f) => {
                    let j = choose|j: int|
                        0 <= j < i && (#[trigger] self.subs.values@[j])@.topic == topic@
                            && self.subs.values@[j]@.last_acked == f;
                    self.subs.lemma_entry(j);
                    assert(v.subscribed_to(self.subs.keys@[j]@, topic@));
                    assert forall|s: Seq<char>| #[trigger] v.subscribed_to(s, topic@) implies f
                        <= v.subscribers[s].last_acked by {
                        self.subs.lemma_position(s);
                    }
                },
                None => {
                    assert forall|s: Seq<char>| !#[trigger] v.subscribed_to(s, topic@) by {
                        if v.subscribed_to(s, topic@) {
                            self.subs.lemma_position(s);
                        }
                    }
                },
            }
        }
        floor
    }

    /// Runs retention on `topic`: drops every post that no subscriber of the
    /// topic awaits. A topic without subscribers keeps its log.
    pub fn evict(&mut self, topic: &String)
        requires
            old(self).wf(),
        ensures
            final(self).wf(),
            final(self)@ == old(self)@.evict(topic@),
    {
        let floor = match self.retention_floor(topic) {
            Some(floor) => floor,
            None => {
                return ;
            },
        };
        proof {
            lemma_awaited_above_floor(old(self)@, topic@, floor as nat, 0);
            let s = choose|s: Seq<char>| #[trigger] old(self)@.subscribed_to(s, topic@);
            assert(old(self)@.subscriber_wf(s));
        }
        let mut log = match self.topics.remove(topic) {
            Some(log) => log,
            None => {
                return ;
            },
        };
        log.evict_through(floor);
        self.topics.insert(topic.clone(), log);
        proof {
            let v = old(self)@;
            lemma_evict_wf(v, topic@);
            assert forall|n: nat| v.awaited(topic@, n) <==> floor < n by {
                lemma_awaited_above_floor(v, topic@, floor as nat, n);
            }
            assert(self@.topics[topic@].posts =~= v.evict(topic@).topics[topic@].posts);
            assert(self@.topics =~= v.evict(topic@).topics);
            assert(self@ =~= v.evict(topic@));
        }
    }

    /// Acknowledges post `post_number` for `sub_id`.
    ///
    /// Only the post after the cursor can be acknowledged, and only while its
    /// delivery is outstanding. The cursor then moves by one and retention
    /// runs on the subscriber's topic.
    pub fn acknowledge(&mut self, sub_id: &String, post_number: u64) -> (outcome: Result<(), BrokerErrorType>)
        requires
            old(self).wf(),
        ensures
            final(self).wf(),
            final(self)@ == old(self)@.acknowledge(sub_id@, post_number as nat),
            outcome == old(self)@.acknowledge_outcome(sub_id@, post_number as nat),
    {
        let mut entry = match self.subs.get(sub_id) {
            Some(entry) => entry.clone(),
            None => {
                return Err(BrokerErrorType::SubscriberNotRegistered);
            },
        };
        if entry.last_read_post() == u64::MAX || entry.last_read_post() + 1 != post_number {
            return Err(BrokerErrorType::AckMismatch);
        }
        match entry.status() {
            SubscriberStatus::WaitingGet => {
                return Err(BrokerErrorType::ProtocolStateViolation);
            },
            SubscriberStatus::WaitingAck => {},
        }
        entry.increment_last_read();
        entry.change_status();
        let topic = entry.topic().clone();
        self.subs.insert(sub_id.clone(), entry);
        proof {
            lemma_advance_wf(old(self)@, sub_id@, post_number as nat);
            assert(self@.subscribers =~= old(self)@.advance(sub_id@).subscribers);
            assert(self@ =~= old(self)@.advance(sub_id@));
        }
        self.evict(&topic);
        Ok(())
    }
}

} // verus!
