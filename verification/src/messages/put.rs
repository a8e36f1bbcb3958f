//! Request and reply of a publish.

use vstd::prelude::*;
use crate::ident::{fresh_uuid, is_uuid_v4_text};
use super::{
    bytes_of, invalid_field, lemma_field_names_distinct, lemma_lookup_push, text_of,
    DeserializationErrors, Document, FieldView, Message, MessageView, NetworkTradeable, ValueView,
    BROKER_ID, MESSAGE_UUID, PAYLOAD, PUB_ID, TOPIC,
};

verus! {

/// Kind label of a publish request.
pub const REQUEST_HEADER: &'static str = "PUT";

/// Kind label of the reply to a publish request.
pub const REPLY_HEADER: &'static str = "PUT_REPL";

/// Publishes a payload to a topic. `message_uuid` identifies the attempt, so
/// that the broker can tell a repeated request from a new one.
#[derive(Debug)]
pub struct Request {
    pub pub_id: String,
    pub topic: String,
    pub message_uuid: String,
    pub payload: Vec<u8>,
}

/// Confirms a publish.
#[derive(Debug)]
pub struct Reply {
    pub message_uuid: String,
    pub topic: String,
    pub broker_id: String,
}

/// The document of a publish request.
pub open spec fn request_payload(pub_id: Seq<char>, topic: Seq<char>, message_uuid: Seq<char>, payload: Seq<u8>) -> Seq<FieldView> {
    Seq::<FieldView>::empty().push(
        FieldView { name: PUB_ID@, value: ValueView::Text(pub_id) },
    ).push(
        FieldView { name: TOPIC@, value: ValueView::Text(topic) },
    ).push(
        FieldView { name: MESSAGE_UUID@, value: ValueView::Text(message_uuid) },
    ).push(
        FieldView { name: PAYLOAD@, value: ValueView::Bytes(payload) },
    )
}

/// The document of a publish's confirmation.
pub open spec fn reply_payload(message_uuid: Seq<char>, topic: Seq<char>, broker_id: Seq<char>) -> Seq<FieldView> {
    Seq::<FieldView>::empty().push(
        FieldView { name: MESSAGE_UUID@, value: ValueView::Text(message_uuid) },
    ).push(
        FieldView { name: TOPIC@, value: ValueView::Text(topic) },
    ).push(
        FieldView { name: BROKER_ID@, value: ValueView::Text(broker_id) },
    )
}

/// A publish request's document holds its four fields.
pub proof fn lemma_request_payload(pub_id: Seq<char>, topic: Seq<char>, message_uuid: Seq<char>, payload: Seq<u8>)
    ensures
        text_of(request_payload(pub_id, topic, message_uuid, payload), PUB_ID@) == Some(pub_id),
        text_of(request_payload(pub_id, topic, message_uuid, payload), TOPIC@) == Some(topic),
        text_of(request_payload(pub_id, topic, message_uuid, payload), MESSAGE_UUID@) == Some(message_uuid),
        bytes_of(request_payload(pub_id, topic, message_uuid, payload), PAYLOAD@) == Some(payload),
{
    lemma_field_names_distinct();
    let f0 = FieldView { name: PUB_ID@, value: ValueView::Text(pub_id) };
    let f1 = FieldView { name: TOPIC@, value: ValueView::Text(topic) };
    let f2 = FieldView { name: MESSAGE_UUID@, value: ValueView::Text(message_uuid) };
    let f3 = FieldView { name: PAYLOAD@, value: ValueView::Bytes(payload) };
    let d0 = Seq::<FieldView>::empty();
    let d1 = d0.push(f0);
    let d2 = d1.push(f1);
    let d3 = d2.push(f2);
    lemma_lookup_push(d0, f0, PUB_ID@);
    lemma_lookup_push(d0, f0, TOPIC@);
    lemma_lookup_push(d0, f0, MESSAGE_UUID@);
    lemma_lookup_push(d0, f0, PAYLOAD@);
    lemma_lookup_push(d1, f1, PUB_ID@);
    lemma_lookup_push(d1, f1, TOPIC@);
    lemma_lookup_push(d1, f1, MESSAGE_UUID@);
    lemma_lookup_push(d1, f1, PAYLOAD@);
    lemma_lookup_push(d2, f2, PUB_ID@);
    lemma_lookup_push(d2, f2, TOPIC@);
    lemma_lookup_push(d2, f2, MESSAGE_UUID@);
    lemma_lookup_push(d2, f2, PAYLOAD@);
    lemma_lookup_push(d3, f3, PUB_ID@);
    lemma_lookup_push(d3, f3, TOPIC@);
    lemma_lookup_push(d3, f3, MESSAGE_UUID@);
    lemma_lookup_push(d3, f3, PAYLOAD@);
}

/// A confirmation's document holds its three fields.
pub proof fn lemma_reply_payload(message_uuid: Seq<char>, topic: Seq<char>, broker_id: Seq<char>)
    ensures
        text_of(reply_payload(message_uuid, topic, broker_id), MESSAGE_UUID@) == Some(message_uuid),
        text_of(reply_payload(message_uuid, topic, broker_id), TOPIC@) == Some(topic),
        text_of(reply_payload(message_uuid, topic, broker_id), BROKER_ID@) == Some(broker_id),
{
    lemma_field_names_distinct();
    let f0 = FieldView { name: MESSAGE_UUID@, value: ValueView::Text(message_uuid) };
    let f1 = FieldView { name: TOPIC@, value: ValueView::Text(topic) };
    let f2 = FieldView { name: BROKER_ID@, value: ValueView::Text(broker_id) };
    let d0 = Seq::<FieldView>::empty();
    let d1 = d0.push(f0);
    let d2 = d1.push(f1);
    lemma_lookup_push(d0, f0, MESSAGE_UUID@);
    lemma_lookup_push(d0, f0, TOPIC@);
    lemma_lookup_push(d0, f0, BROKER_ID@);
    lemma_lookup_push(d1, f1, MESSAGE_UUID@);
    lemma_lookup_push(d1, f1, TOPIC@);
    lemma_lookup_push(d1, f1, BROKER_ID@);
    lemma_lookup_push(d2, f2, MESSAGE_UUID@);
    lemma_lookup_push(d2, f2, TOPIC@);
    lemma_lookup_push(d2, f2, BROKER_ID@);
}

impl Request {
    /// A publish of `payload` to `topic` by `pub_id`, identified by
    /// `message_uuid`.
    pub fn with_uuid(pub_id: String, topic: String, message_uuid: String, payload: Vec<u8>) -> (request: Request)
        ensures
            request.pub_id == pub_id,
            request.topic == topic,
            request.message_uuid == message_uuid,
            request.payload == payload,
    {
        Request { pub_id, topic, message_uuid, payload }
    }

    /// A publish of `payload` to `topic` by `pub_id` under a freshly drawn
    /// identifier.
    pub fn new(pub_id: String, topic: String, payload: Vec<u8>) -> (request: Request)
        ensures
            request.pub_id == pub_id,
            request.topic == topic,
            request.payload == payload,
            is_uuid_v4_text(request.message_uuid@),
    {
        Request::with_uuid(pub_id, topic, fresh_uuid(), payload)
    }

    /// How an envelope reads as a publish request.
    pub open spec fn reads_as(message: MessageView, result: Result<Request, DeserializationErrors>) -> bool {
        if message.msg_type != REQUEST_HEADER@ {
            result matches Err(DeserializationErrors::IncompatibleMessageType)
        } else if text_of(message.payload, PUB_ID@) is None {
            result matches Err(DeserializationErrors::InvalidMessageStructure(field)) && field@ == PUB_ID@
        } else if text_of(message.payload, TOPIC@) is None {
            result matches Err(DeserializationErrors::InvalidMessageStructure(field)) && field@ == TOPIC@
        } else if text_of(message.payload, MESSAGE_UUID@) is None {
            result matches Err(DeserializationErrors::InvalidMessageStructure(field)) && field@ == MESSAGE_UUID@
        } else if bytes_of(message.payload, PAYLOAD@) is None {
            result matches Err(DeserializationErrors::InvalidMessageStructure(field)) && field@ == PAYLOAD@
        } else {
            &&& result matches Ok(request)
            &&& Some(request.pub_id@) == text_of(message.payload, PUB_ID@)
            &&& Some(request.topic@) == text_of(message.payload, TOPIC@)
            &&& Some(request.message_uuid@) == text_of(message.payload, MESSAGE_UUID@)
            &&& Some(request.payload@) == bytes_of(message.payload, PAYLOAD@)
        }
    }
}

impl Reply {
    /// The confirmation that the publish `message_uuid` to `topic` was accepted.
    pub fn new(message_uuid: String, topic: String, broker_id: String) -> (reply: Reply)
        ensures
            reply.message_uuid == message_uuid,
            reply.topic == topic,
            reply.broker_id == broker_id,
    {
        Reply { message_uuid, topic, broker_id }
    }

    /// Whether the confirmation answers `request`: same topic, same publish
    /// identifier.
    pub fn match_request(&self, request: &Request) -> (same: bool)
        ensures
            same == (self.topic@ == request.topic@ && self.message_uuid@ == request.message_uuid@),
    {
        if self.topic != request.topic {
            return false;
        }
        if self.message_uuid != request.message_uuid {
            return false;
        }
        true
    }

    /// How an envelope reads as the confirmation of a publish.
    pub open spec fn reads_as(message: MessageView, result: Result<Reply, DeserializationErrors>) -> bool {
        if message.msg_type != REPLY_HEADER@ {
            result matches Err(DeserializationErrors::IncompatibleMessageType)
        } else if text_of(message.payload, MESSAGE_UUID@) is None {
            result matches Err(DeserializationErrors::InvalidMessageStructure(field)) && field@ == MESSAGE_UUID@
        } else if text_of(message.payload, TOPIC@) is None {
            result matches Err(DeserializationErrors::InvalidMessageStructure(field)) && field@ == TOPIC@
        } else if text_of(message.payload, BROKER_ID@) is None {
            result matches Err(DeserializationErrors::InvalidMessageStructure(field)) && field@ == BROKER_ID@
        } else {
            &&& result matches Ok(reply)
            &&& Some(reply.message_uuid@) == text_of(message.payload, MESSAGE_UUID@)
            &&& Some(reply.topic@) == text_of(message.payload, TOPIC@)
            &&& Some(reply.broker_id@) == text_of(message.payload, BROKER_ID@)
        }
    }
}

/// A publish request that was written to an envelope is read back from it as it was.
pub proof fn lemma_request_round_trip(pub_id: Seq<char>, topic: Seq<char>, message_uuid: Seq<char>, payload: Seq<u8>, result: Result<Request, DeserializationErrors>)
    requires
        Request::reads_as(MessageView { msg_type: REQUEST_HEADER@, payload: request_payload(pub_id, topic, message_uuid, payload) }, result),
    ensures
        result matches Ok(request),
        result matches Ok(request) ==> request.pub_id@ == pub_id,
        result matches Ok(request) ==> request.topic@ == topic,
        result matches Ok(request) ==> request.message_uuid@ == message_uuid,
        result matches Ok(request) ==> request.payload@ == payload,
{
    lemma_request_payload(pub_id, topic, message_uuid, payload);
}

/// A confirmation that was written to an envelope is read back from it as it was.
pub proof fn lemma_reply_round_trip(message_uuid: Seq<char>, topic: Seq<char>, broker_id: Seq<char>, result: Result<Reply, DeserializationErrors>)
    requires
        Reply::reads_as(MessageView { msg_type: REPLY_HEADER@, payload: reply_payload(message_uuid, topic, broker_id) }, result),
    ensures
        result matches Ok(reply),
        result matches Ok(reply) ==> reply.message_uuid@ == message_uuid,
        result matches Ok(reply) ==> reply.topic@ == topic,
        result matches Ok(reply) ==> reply.broker_id@ == broker_id,
{
    lemma_reply_payload(message_uuid, topic, broker_id);
}

impl NetworkTradeable<Request> for Request {
    fn as_message(&self) -> (message: Message)
        ensures
            message@.msg_type == REQUEST_HEADER@,
            message@.payload == request_payload(self.pub_id@, self.topic@, self.message_uuid@, self.payload@),
    {
        let mut payload = Document::new();
        payload.put_text(PUB_ID, self.pub_id.clone());
        payload.put_text(TOPIC, self.topic.clone());
        payload.put_text(MESSAGE_UUID, self.message_uuid.clone());
        payload.put_bytes(PAYLOAD, self.payload.clone());
        Message::new(REQUEST_HEADER.to_owned(), payload)
    }

    fn from_message(message: Message) -> (result: Result<Request, DeserializationErrors>)
        ensures
            Request::reads_as(message@, result),
    {
        if !message.has_type(REQUEST_HEADER) {
            return Err(DeserializationErrors::IncompatibleMessageType);
        }
        let pub_id = match message.payload.get_text(PUB_ID) {
            Some(text) => text,
            None => {
                return Err(invalid_field(PUB_ID));
            },
        };
        let topic = match message.payload.get_text(TOPIC) {
            Some(text) => text,
            None => {
                return Err(invalid_field(TOPIC));
            },
        };
        let message_uuid = match message.payload.get_text(MESSAGE_UUID) {
            Some(text) => text,
            None => {
                return Err(invalid_field(MESSAGE_UUID));
            },
        };
        let payload = match message.payload.get_bytes(PAYLOAD) {
            Some(bytes) => bytes,
            None => {
                return Err(invalid_field(PAYLOAD));
            },
        };
        Ok(Request { pub_id, topic, message_uuid, payload })
    }
}

impl NetworkTradeable<Reply> for Reply {
    fn as_message(&self) -> (message: Message)
        ensures
            message@.msg_type == REPLY_HEADER@,
            message@.payload == reply_payload(self.message_uuid@, self.topic@, self.broker_id@),
    {
        let mut payload = Document::new();
        payload.put_text(MESSAGE_UUID, self.message_uuid.clone());
        payload.put_text(TOPIC, self.topic.clone());
        payload.put_text(BROKER_ID, self.broker_id.clone());
        Message::new(REPLY_HEADER.to_owned(), payload)
    }

    fn from_message(message: Message) -> (result: Result<Reply, DeserializationErrors>)
        ensures
            Reply::reads_as(message@, result),
    {
        if !message.has_type(REPLY_HEADER) {
            return Err(DeserializationErrors::IncompatibleMessageType);
        }
        let message_uuid = match message.payload.get_text(MESSAGE_UUID) {
            Some(text) => text,
            None => {
                return Err(invalid_field(MESSAGE_UUID));
            },
        };
        let topic = match message.payload.get_text(TOPIC) {
            Some(text) => text,
            None => {
                return Err(invalid_field(TOPIC));
            },
        };
        let broker_id = match message.payload.get_text(BROKER_ID) {
            Some(text) => text,
            None => {
                return Err(invalid_field(BROKER_ID));
            },
        };
        Ok(Reply { message_uuid, topic, broker_id })
    }
}

} // verus!
