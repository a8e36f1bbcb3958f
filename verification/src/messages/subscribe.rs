//! Request and reply of a subscription.

use vstd::prelude::*;
use super::{
    invalid_field, lemma_field_names_distinct, lemma_lookup_push, number_of, text_of,
    DeserializationErrors, Document, FieldView, Message, MessageView, NetworkTradeable, ValueView,
    BROKER_ID, POST_OFFSET, SUB_ID, TOPIC,
};

verus! {

/// Kind label of a subscribe request.
pub const REQUEST_HEADER: &'static str = "SUB";

/// Kind label of the reply to a subscribe request.
pub const REPLY_HEADER: &'static str = "SUB_REPL";

/// Registers a subscriber on a topic.
#[derive(Debug)]
pub struct Request {
    pub sub_id: String,
    pub topic: String,
}

/// Confirms a subscription. `post_offset` is the number of the first post the
/// subscriber will read: one more than the cursor it starts from.
#[derive(Debug)]
pub struct Reply {
    pub sub_id: String,
    pub topic: String,
    pub broker_id: String,
    pub post_offset: u64,
}

/// The document of a subscribe request.
pub open spec fn request_payload(sub_id: Seq<char>, topic: Seq<char>) -> Seq<FieldView> {
    Seq::<FieldView>::empty().push(
        FieldView { name: SUB_ID@, value: ValueView::Text(sub_id) },
    ).push(
        FieldView { name: TOPIC@, value: ValueView::Text(topic) },
    )
}

/// The document of a subscription's confirmation.
pub open spec fn reply_payload(sub_id: Seq<char>, topic: Seq<char>, broker_id: Seq<char>, post_offset: u64) -> Seq<FieldView> {
    Seq::<FieldView>::empty().push(
        FieldView { name: SUB_ID@, value: ValueView::Text(sub_id) },
    ).push(
        FieldView { name: TOPIC@, value: ValueView::Text(topic) },
    ).push(
        FieldView { name: BROKER_ID@, value: ValueView::Text(broker_id) },
    ).push(
        FieldView { name: POST_OFFSET@, value: ValueView::Number(post_offset) },
    )
}

/// A subscribe request's document holds its two fields.
pub proof fn lemma_request_payload(sub_id: Seq<char>, topic: Seq<char>)
    ensures
        text_of(request_payload(sub_id, topic), SUB_ID@) == Some(sub_id),
        text_of(request_payload(sub_id, topic), TOPIC@) == Some(topic),
{
    lemma_field_names_distinct();
    let f0 = FieldView { name: SUB_ID@, value: ValueView::Text(sub_id) };
    let f1 = FieldView { name: TOPIC@, value: ValueView::Text(topic) };
    let d0 = Seq::<FieldView>::empty();
    let d1 = d0.push(f0);
    lemma_lookup_push(d0, f0, SUB_ID@);
    lemma_lookup_push(d0, f0, TOPIC@);
    lemma_lookup_push(d1, f1, SUB_ID@);
    lemma_lookup_push(d1, f1, TOPIC@);
}

/// A confirmation's document holds its four fields.
pub proof fn lemma_reply_payload(sub_id: Seq<char>, topic: Seq<char>, broker_id: Seq<char>, post_offset: u64)
    ensures
        text_of(reply_payload(sub_id, topic, broker_id, post_offset), SUB_ID@) == Some(sub_id),
        text_of(reply_payload(sub_id, topic, broker_id, post_offset), TOPIC@) == Some(topic),
        text_of(reply_payload(sub_id, topic, broker_id, post_offset), BROKER_ID@) == Some(broker_id),
        number_of(reply_payload(sub_id, topic, broker_id, post_offset), POST_OFFSET@) == Some(post_offset),
{
    lemma_field_names_distinct();
    let f0 = FieldView { name: SUB_ID@, value: ValueView::Text(sub_id) };
    let f1 = FieldView { name: TOPIC@, value: ValueView::Text(topic) };
    let f2 = FieldView { name: BROKER_ID@, value: ValueView::Text(broker_id) };
    let f3 = FieldView { name: POST_OFFSET@, value: ValueView::Number(post_offset) };
    let d0 = Seq::<FieldView>::empty();
    let d1 = d0.push(f0);
    let d2 = d1.push(f1);
    let d3 = d2.push(f2);
    lemma_lookup_push(d0, f0, SUB_ID@);
    lemma_lookup_push(d0, f0, TOPIC@);
    lemma_lookup_push(d0, f0, BROKER_ID@);
    lemma_lookup_push(d0, f0, POST_OFFSET@);
    lemma_lookup_push(d1, f1, SUB_ID@);
    lemma_lookup_push(d1, f1, TOPIC@);
    lemma_lookup_push(d1, f1, BROKER_ID@);
    lemma_lookup_push(d1, f1, POST_OFFSET@);
    lemma_lookup_push(d2, f2, SUB_ID@);
    lemma_lookup_push(d2, f2, TOPIC@);
    lemma_lookup_push(d2, f2, BROKER_ID@);
    lemma_lookup_push(d2, f2, POST_OFFSET@);
    lemma_lookup_push(d3, f3, SUB_ID@);
    lemma_lookup_push(d3, f3, TOPIC@);
    lemma_lookup_push(d3, f3, BROKER_ID@);
    lemma_lookup_push(d3, f3, POST_OFFSET@);
}

impl Request {
    /// A request to register `sub_id` on `topic`.
    pub fn new(sub_id: String, topic: String) -> (request: Request)
        ensures
            request.sub_id == sub_id,
            request.topic == topic,
    {
        Request { sub_id, topic }
    }

    /// How an envelope reads as a subscribe request.
    pub open spec fn reads_as(message: MessageView, result: Result<Request, DeserializationErrors>) -> bool {
        if message.msg_type != REQUEST_HEADER@ {
            result matches Err(DeserializationErrors::IncompatibleMessageType)
        } else if text_of(message.payload, SUB_ID@) is None {
            result matches Err(DeserializationErrors::InvalidMessageStructure(field)) && field@ == SUB_ID@
        } else if text_of(message.payload, TOPIC@) is None {
            result matches Err(DeserializationErrors::InvalidMessageStructure(field)) && field@ == TOPIC@
        } else {
            &&& result matches Ok(request)
            &&& Some(request.sub_id@) == text_of(message.payload, SUB_ID@)
            &&& Some(request.topic@) == text_of(message.payload, TOPIC@)
        }
    }
}

impl Reply {
    /// The confirmation that `sub_id` reads `topic` from post `post_offset` on.
    pub fn new(sub_id: String, topic: String, broker_id: String, post_offset: u64) -> (reply: Reply)
        ensures
            reply.sub_id == sub_id,
            reply.topic == topic,
            reply.broker_id == broker_id,
            reply.post_offset == post_offset,
    {
        Reply { sub_id, topic, broker_id, post_offset }
    }

    /// How an envelope reads as the confirmation of a subscription.
    pub open spec fn reads_as(message: MessageView, result: Result<Reply, DeserializationErrors>) -> bool {
        if message.msg_type != REPLY_HEADER@ {
            result matches Err(DeserializationErrors::IncompatibleMessageType)
        } else if text_of(message.payload, SUB_ID@) is None {
            result matches Err(DeserializationErrors::InvalidMessageStructure(field)) && field@ == SUB_ID@
        } else if text_of(message.payload, TOPIC@) is None {
            result matches Err(DeserializationErrors::InvalidMessageStructure(field)) && field@ == TOPIC@
        } else if text_of(message.payload, BROKER_ID@) is None {
            result matches Err(DeserializationErrors::InvalidMessageStructure(field)) && field@ == BROKER_ID@
        } else if number_of(message.payload, POST_OFFSET@) is None {
            result matches Err(DeserializationErrors::InvalidMessageStructure(field)) && field@ == POST_OFFSET@
        } else {
            &&& result matches Ok(reply)
            &&& Some(reply.sub_id@) == text_of(message.payload, SUB_ID@)
            &&& Some(reply.topic@) == text_of(message.payload, TOPIC@)
            &&& Some(reply.broker_id@) == text_of(message.payload, BROKER_ID@)
            &&& Some(reply.post_offset) == number_of(message.payload, POST_OFFSET@)
        }
    }
}

/// A subscribe request that was written to an envelope is read back from it as it was.
pub proof fn lemma_request_round_trip(sub_id: Seq<char>, topic: Seq<char>, result: Result<Request, DeserializationErrors>)
    requires
        Request::reads_as(MessageView { msg_type: REQUEST_HEADER@, payload: request_payload(sub_id, topic) }, result),
    ensures
        result matches Ok(request),
        result matches Ok(request) ==> request.sub_id@ == sub_id,
        result matches Ok(request) ==> request.topic@ == topic,
{
    lemma_request_payload(sub_id, topic);
}

/// A confirmation that was written to an envelope is read back from it as it was.
pub proof fn lemma_reply_round_trip(sub_id: Seq<char>, topic: Seq<char>, broker_id: Seq<char>, post_offset: u64, result: Result<Reply, DeserializationErrors>)
    requires
        Reply::reads_as(MessageView { msg_type: REPLY_HEADER@, payload: reply_payload(sub_id, topic, broker_id, post_offset) }, result),
    ensures
        result matches Ok(reply),
        result matches Ok(reply) ==> reply.sub_id@ == sub_id,
        result matches Ok(reply) ==> reply.topic@ == topic,
        result matches Ok(reply) ==> reply.broker_id@ == broker_id,
        result matches Ok(reply) ==> reply.post_offset == post_offset,
{
    lemma_reply_payload(sub_id, topic, broker_id, post_offset);
}

impl NetworkTradeable<Request> for Request {
    fn as_message(&self) -> (message: Message)
        ensures
            message@.msg_type == REQUEST_HEADER@,
            message@.payload == request_payload(self.sub_id@, self.topic@),
    {
        let mut payload = Document::new();
        payload.put_text(SUB_ID, self.sub_id.clone());
        payload.put_text(TOPIC, self.topic.clone());
        Message::new(REQUEST_HEADER.to_owned(), payload)
    }

    fn from_message(message: Message) -> (result: Result<Request, DeserializationErrors>)
        ensures
            Request::reads_as(message@, result),
    {
        if !message.has_type(REQUEST_HEADER) {
            return Err(DeserializationErrors::IncompatibleMessageType);
        }
        let sub_id = match message.payload.get_text(SUB_ID) {
            Some(text) => text,
            None => {
                return Err(invalid_field(SUB_ID));
            },
        };
        let topic = match message.payload.get_text(TOPIC) {
            Some(text) => text,
            None => {
                return Err(invalid_field(TOPIC));
            },
        };
        Ok(Request { sub_id, topic })
    }
}

impl NetworkTradeable<Reply> for Reply {
    fn as_message(&self) -> (message: Message)
        ensures
            message@.msg_type == REPLY_HEADER@,
            message@.payload == reply_payload(self.sub_id@, self.topic@, self.broker_id@, self.post_offset),
    {
        let mut payload = Document::new();
        payload.put_text(SUB_ID, self.sub_id.clone());
        payload.put_text(TOPIC, self.topic.clone());
        payload.put_text(BROKER_ID, self.broker_id.clone());
        payload.put_number(POST_OFFSET, self.post_offset);
        Message::new(REPLY_HEADER.to_owned(), payload)
    }

    fn from_message(message: Message) -> (result: Result<Reply, DeserializationErrors>)
        ensures
            Reply::reads_as(message@, result),
    {
        if !message.has_type(REPLY_HEADER) {
            return Err(DeserializationErrors::IncompatibleMessageType);
        }
        let sub_id = match message.payload.get_text(SUB_ID) {
            Some(text) => text,
            None => {
                return Err(invalid_field(SUB_ID));
            },
        };
        let topic = match message.payload.get_text(TOPIC) {
            Some(text) => text,
            None => {
                return Err(invalid_field(TOPIC));
            },
        };
        let broker_id = match message.payload.get_text(BROKER_ID) {
            Some(text) => text,
            None => {
                return Err(invalid_field(BROKER_ID));
            },
        };
        let post_offset = match message.payload.get_number(POST_OFFSET) {
            Some(number) => number,
            None => {
                return Err(invalid_field(POST_OFFSET));
            },
        };
        Ok(Reply { sub_id, topic, broker_id, post_offset })
    }
}

} // verus!
