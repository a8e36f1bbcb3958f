//! The session of a subscriber.

use vstd::prelude::*;
use super::{plain_path, storage_path, ContextIOError, FILE_EXTENSION};
use crate::messages::{get, subscribe, unsubscribe};

verus! {

/// Directory of the stored subscriber sessions.
pub const SUB_STORAGE_PATH: &'static str = "./data/sub/";

/// What a subscriber keeps between its calls.
#[derive(Debug)]
pub struct SubscriberContext {
    pub sub_id: String,
    pub topic: String,
    pub known_broker_id: Option<String>,
    pub next_post_no: u64,
}

impl SubscriberContext {
    /// The session of `sub_id` on `topic` before any exchange: no broker is
    /// known and the first post is expected.
    pub fn new(sub_id: String, topic: String) -> (context: SubscriberContext)
        ensures
            context.sub_id == sub_id,
            context.topic == topic,
            context.known_broker_id is None,
            context.next_post_no == 1,
    {
        SubscriberContext { sub_id, topic, known_broker_id: None, next_post_no: 1 }
    }

    /// Expects the post after the one expected so far.
    pub fn increment_next_post_no(&mut self)
        requires
            old(self).next_post_no < u64::MAX,
        ensures
            final(self).next_post_no == old(self).next_post_no + 1,
            final(self).sub_id == old(self).sub_id,
            final(self).topic == old(self).topic,
            final(self).known_broker_id == old(self).known_broker_id,
    {
        self.next_post_no += 1
    }

    /// The session of `sub_id` from what was read at [`Self::read_path`]: the
    /// stored session under the id asked for, or the failure to read it.
    pub fn read(sub_id: String, stored: Result<SubscriberContext, ContextIOError>) -> (context: Result<
        SubscriberContext,
        ContextIOError,
    >)
        ensures
            match stored {
                Ok(found) => context matches Ok(c) && c.sub_id == sub_id && c.topic == found.topic
                    && c.known_broker_id == found.known_broker_id && c.next_post_no == found.next_post_no,
                Err(error) => context == Err::<SubscriberContext, ContextIOError>(error),
            },
    {
        let mut sub_ctx: SubscriberContext = match stored {
            Ok(val) => val,
            Err(err) => {
                return Err(err);
            },
        };
        sub_ctx.sub_id = sub_id;
        Ok(sub_ctx)
    }

    /// Where [`Self::read`] looks for the session of `sub_id`.
    pub fn read_path(sub_id: &String) -> (path: String)
        ensures
            path@ == SUB_STORAGE_PATH@ + sub_id@,
    {
        plain_path(SUB_STORAGE_PATH, sub_id)
    }

    /// A get request for the session's topic.
    pub fn create_get_request(&self) -> (request: get::Request)
        ensures
            request.sub_id == self.sub_id,
            request.topic == self.topic,
    {
        get::Request::new(self.sub_id.clone(), self.topic.clone())
    }

    /// A subscribe request for the session's topic.
    pub fn create_subscribe_request(&self) -> (request: subscribe::Request)
        ensures
            request.sub_id == self.sub_id,
            request.topic == self.topic,
    {
        subscribe::Request::new(self.sub_id.clone(), self.topic.clone())
    }

    /// An unsubscribe request for the session's subscriber.
    pub fn create_unsubscribe_request(&self) -> (request: unsubscribe::Request)
        ensures
            request.sub_id == self.sub_id,
    {
        unsubscribe::Request::new(self.sub_id.clone())
    }

    /// The session of `id` from what was read at [`Self::file_path`]: the
    /// stored session under the id asked for, or the failure to read it.
    pub fn from_file(id: &String, stored: Result<SubscriberContext, ContextIOError>) -> (context: Result<
        SubscriberContext,
        ContextIOError,
    >)
        ensures
            match stored {
                Ok(found) => context matches Ok(c) && c.sub_id@ == id@ && c.topic == found.topic && c.known_broker_id == found.known_broker_id && c.next_post_no == found.next_post_no,
                Err(error) => context == Err::<SubscriberContext, ContextIOError>(error),
            },
    {
        Self::read(id.clone(), stored)
    }

    /// Where [`Self::from_file`] looks for the session of `id`: the file
    /// that a session of that id is stored in.
    pub fn file_path(id: &String) -> (path: String)
        ensures
            path@ == SUB_STORAGE_PATH@ + id@ + FILE_EXTENSION@,
    {
        storage_path(SUB_STORAGE_PATH, id)
    }

    /// The directory that holds this session.
    pub fn get_prefix(&self) -> (prefix: &'static str)
        ensures
            prefix@ == SUB_STORAGE_PATH@,
    {
        SUB_STORAGE_PATH
    }

    /// The directory that holds the subscriber sessions.
    pub fn build_prefix() -> (prefix: &'static str)
        ensures
            prefix@ == SUB_STORAGE_PATH@,
    {
        SUB_STORAGE_PATH
    }

    /// The file that holds this session.
    pub fn build_path(&self) -> (path: String)
        ensures
            path@ == SUB_STORAGE_PATH@ + self.sub_id@ + FILE_EXTENSION@,
    {
        storage_path(SUB_STORAGE_PATH, &self.sub_id)
    }
}

} // verus!
