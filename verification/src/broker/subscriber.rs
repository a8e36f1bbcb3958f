//! What the broker keeps for one subscriber.

use vstd::prelude::*;
use crate::model::{SubscriberStatus, SubscriberView};

verus! {

/// What the broker keeps for one subscriber.
#[derive(Debug)]
pub struct SubscriberData {
    topic: String,
    status: SubscriberStatus,
    last_read_post: u64,
}

impl View for SubscriberData {
    type V = SubscriberView;

    closed spec fn view(&self) -> SubscriberView {
        SubscriberView {
            topic: self.topic@,
            status: self.status,
            last_acked: self.last_read_post as nat,
        }
    }
}

impl Clone for SubscriberData {
    fn clone(&self) -> (copy: Self)
        ensures
            copy@ == self@,
    {
        SubscriberData {
            topic: self.topic.clone(),
            status: self.status,
            last_read_post: self.last_read_post,
        }
    }
}

impl SubscriberData {
    /// A subscriber of `topic` that has acknowledged everything up to
    /// `last_read_post` and waits for a get.
    pub fn new(topic: String, last_read_post: u64) -> (data: SubscriberData)
        ensures
            data@ == (SubscriberView {
                topic: topic@,
                status: SubscriberStatus::WaitingGet,
                last_acked: last_read_post as nat,
            }),
    {
        SubscriberData { topic, status: SubscriberStatus::WaitingGet, last_read_post }
    }

    /// A subscriber entry with every field given.
    pub fn from_parts(topic: String, status: SubscriberStatus, last_read_post: u64) -> (data: SubscriberData)
        ensures
            data@ == (SubscriberView { topic: topic@, status, last_acked: last_read_post as nat }),
    {
        SubscriberData { topic, status, last_read_post }
    }

    /// The topic the subscriber registered.
    pub fn topic(&self) -> (topic: &String)
        ensures
            topic@ == self@.topic,
    {
        &self.topic
    }

    /// The subscriber's wait state.
    pub fn status(&self) -> (status: SubscriberStatus)
        ensures
            status == self@.status,
    {
        self.status
    }

    /// The subscriber's cursor: the last post it acknowledged, 0 for none.
    pub fn last_read_post(&self) -> (n: u64)
        ensures
            n == self@.last_acked,
    {
        self.last_read_post
    }

    /// Moves the cursor to the next post and returns it.
    pub fn increment_last_read(&mut self) -> (n: u64)
        requires
            old(self)@.last_acked < u64::MAX,
        ensures
            n == old(self)@.last_acked + 1,
            final(self)@ == (SubscriberView { last_acked: n as nat, ..old(self)@ }),
    {
        self.last_read_post += 1;
        self.last_read_post
    }

    /// Switches between the two wait states.
    pub fn change_status(&mut self)
        ensures
            final(self)@ == (SubscriberView {
                status: match old(self)@.status {
                    SubscriberStatus::WaitingAck => SubscriberStatus::WaitingGet,
                    SubscriberStatus::WaitingGet => SubscriberStatus::WaitingAck,
                },
                ..old(self)@
            }),
    {
        match self.status {
            SubscriberStatus::WaitingAck => self.status = SubscriberStatus::WaitingGet,
            SubscriberStatus::WaitingGet => self.status = SubscriberStatus::WaitingAck,
        }
    }
}

} // verus!
