//! The session of a publisher.

use vstd::prelude::*;
use super::{plain_path, storage_path, ContextIOError, FILE_EXTENSION};
use crate::ident::is_uuid_v4_text;
use crate::keyed::{StringMap, StringSet};
use crate::messages::put;

verus! {

/// Directory of the stored publisher sessions.
pub const PUB_STORAGE_PATH: &'static str = "./data/pub/";

/// What a publisher keeps between its calls. `published_messages` holds, by
/// topic, the publish identifiers it has had confirmed; the broker, not this
/// record, decides what is a duplicate.
#[derive(Debug)]
pub struct PublisherContext {
    pub pub_id: String,
    pub known_broker_id: Option<String>,
    pub published_messages: StringMap<StringSet>,
}

impl PublisherContext {
    /// The record of confirmed publishes is well formed.
    pub open spec fn wf(&self) -> bool {
        &&& self.published_messages.wf()
        &&& forall|i: int|
            0 <= i < self.published_messages.values@.len() ==> (#[trigger] self.published_messages.values@[i]).wf()
    }

    /// Whether `message_id` is recorded under `topic`.
    pub open spec fn recorded(&self, topic: Seq<char>, message_id: Seq<char>) -> bool {
        self.published_messages@.dom().contains(topic) && self.published_messages@[topic]@.contains(message_id)
    }

    /// The session of `pub_id` before any exchange.
    pub fn new(pub_id: String) -> (context: PublisherContext)
        ensures
            context.wf(),
            context.pub_id == pub_id,
            context.known_broker_id is None,
            context.published_messages@ == Map::<Seq<char>, StringSet>::empty(),
    {
        PublisherContext { pub_id, known_broker_id: None, published_messages: StringMap::new() }
    }

    /// Whether the publish `message_id` to `topic` is not on record.
    pub fn is_message_new(&self, topic: &String, message_id: &String) -> (fresh: bool)
        requires
            self.wf(),
        ensures
            fresh == !self.recorded(topic@, message_id@),
    {
        match self.published_messages.get(topic) {
            None => true,
            Some(set) => !set.contains(message_id),
        }
    }

    /// Puts the publish `message_id` to `topic` on record.
    pub fn record_message(&mut self, topic: &String, message_id: String)
        requires
            old(self).wf(),
        ensures
            final(self).wf(),
            final(self).pub_id == old(self).pub_id,
            final(self).known_broker_id == old(self).known_broker_id,
            forall|t: Seq<char>, m: Seq<char>|
                final(self).recorded(t, m) <==> old(self).recorded(t, m) || (t == topic@ && m == message_id@),
    {
        let mut set = match self.published_messages.remove(topic) {
            Some(set) => {
                proof {
                    old(self).published_messages.lemma_position(topic@);
                }
                set
            },
            None => StringSet::new(),
        };
        let ghost before = self.published_messages;
        proof {
            assert forall|i: int| 0 <= i < before.values@.len() implies (#[trigger] before.values@[i]).wf() by {
                before.lemma_entry(i);
                old(self).published_messages.lemma_position(before.keys@[i]@);
            }
        }
        set.insert(message_id);
        self.published_messages.insert(topic.clone(), set);
        proof {
            let after = self.published_messages;
            assert forall|i: int| 0 <= i < after.values@.len() implies (#[trigger] after.values@[i]).wf() by {
                after.lemma_entry(i);
                if after.keys@[i]@ != topic@ {
                    before.lemma_position(after.keys@[i]@);
                }
            }
        }
    }

    /// Forgets the broker and the record of confirmed publishes.
    pub fn reset_context(&mut self)
        ensures
            final(self).wf(),
            final(self).pub_id == old(self).pub_id,
            final(self).known_broker_id is None,
            final(self).published_messages@ == Map::<Seq<char>, StringSet>::empty(),
    {
        self.known_broker_id = None;
        self.published_messages = StringMap::new()
    }

    /// The session of `pub_id` from what was read at [`Self::read_path`]: the
    /// stored session under the id asked for, or the failure to read it.
    pub fn read(pub_id: String, stored: Result<PublisherContext, ContextIOError>) -> (context: Result<
        PublisherContext,
        ContextIOError,
    >)
        ensures
            match stored {
                Ok(found) => context matches Ok(c) && c.pub_id == pub_id && c.known_broker_id
                    == found.known_broker_id && c.published_messages == found.published_messages,
                Err(error) => context == Err::<PublisherContext, ContextIOError>(error),
            },
    {
        let mut pub_ctx: PublisherContext = match stored {
            Ok(val) => val,
            Err(err) => {
                return Err(err);
            },
        };
        pub_ctx.pub_id = pub_id;
        Ok(pub_ctx)
    }

    /// Where [`Self::read`] looks for the session of `pub_id`.
    pub fn read_path(pub_id: &String) -> (path: String)
        ensures
            path@ == PUB_STORAGE_PATH@ + pub_id@,
    {
        plain_path(PUB_STORAGE_PATH, pub_id)
    }

    /// A publish request of this publisher under a freshly drawn identifier.
    pub fn create_put_request(&self, topic: String, payload: Vec<u8>) -> (request: put::Request)
        ensures
            request.pub_id@ == self.pub_id@,
            request.topic == topic,
            request.payload == payload,
            is_uuid_v4_text(request.message_uuid@),
    {
        put::Request::new(self.pub_id.clone(), topic, payload)
    }

    /// The session of `id` from what was read at [`Self::file_path`]: the
    /// stored session under the id asked for, or the failure to read it.
    pub fn from_file(id: &String, stored: Result<PublisherContext, ContextIOError>) -> (context: Result<
        PublisherContext,
        ContextIOError,
    >)
        ensures
            match stored {
                Ok(found) => context matches Ok(c) && c.pub_id@ == id@ && c.known_broker_id == found.known_broker_id && c.published_messages == found.published_messages,
                Err(error) => context == Err::<PublisherContext, ContextIOError>(error),
            },
    {
        Self::read(id.clone(), stored)
    }

    /// Where [`Self::from_file`] looks for the session of `id`: the file
    /// that a session of that id is stored in.
    pub fn file_path(id: &String) -> (path: String)
        ensures
            path@ == PUB_STORAGE_PATH@ + id@ + FILE_EXTENSION@,
    {
        storage_path(PUB_STORAGE_PATH, id)
    }

    /// The directory that holds this session.
    pub fn get_prefix(&self) -> (prefix: &'static str)
        ensures
            prefix@ == PUB_STORAGE_PATH@,
    {
        PUB_STORAGE_PATH
    }

    /// The directory that holds the publisher sessions.
    pub fn build_prefix() -> (prefix: &'static str)
        ensures
            prefix@ == PUB_STORAGE_PATH@,
    {
        PUB_STORAGE_PATH
    }

    /// The file that holds this session.
    pub fn build_path(&self) -> (path: String)
        ensures
            path@ == PUB_STORAGE_PATH@ + self.pub_id@ + FILE_EXTENSION@,
    {
        storage_path(PUB_STORAGE_PATH, &self.pub_id)
    }
}

} // verus!
