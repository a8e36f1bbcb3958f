//! Request and reply of the end of a subscription.

use vstd::prelude::*;
use super::{
    invalid_field, lemma_field_names_distinct, lemma_lookup_push, text_of, DeserializationErrors,
    Document, FieldView, Message, MessageView, NetworkTradeable, ValueView, BROKER_ID, SUB_ID,
};

verus! {

/// Kind label of an unsubscribe request.
pub const REQUEST_HEADER: &'static str = "UNSUB";

/// Kind label of the reply to an unsubscribe request.
pub const REPLY_HEADER: &'static str = "UNSUB_REPL";

/// Ends a subscription.
#[derive(Debug)]
pub struct Request {
    pub sub_id: String,
}

/// Confirms the end of a subscription.
#[derive(Debug)]
pub struct Reply {
    pub sub_id: String,
    pub broker_id: String,
}

/// The document of an unsubscribe request.
pub open spec fn request_payload(sub_id: Seq<char>) -> Seq<FieldView> {
    Seq::<FieldView>::empty().push(
        FieldView { name: SUB_ID@, value: ValueView::Text(sub_id) },
    )
}

/// The document of the confirmation.
pub open spec fn reply_payload(sub_id: Seq<char>, broker_id: Seq<char>) -> Seq<FieldView> {
    Seq::<FieldView>::empty().push(
        FieldView { name: SUB_ID@, value: ValueView::Text(sub_id) },
    ).push(
        FieldView { name: BROKER_ID@, value: ValueView::Text(broker_id) },
    )
}

/// An unsubscribe request's document holds its field.
pub proof fn lemma_request_payload(sub_id: Seq<char>)
    ensures
        text_of(request_payload(sub_id), SUB_ID@) == Some(sub_id),
{
    lemma_field_names_distinct();
    let f0 = FieldView { name: SUB_ID@, value: ValueView::Text(sub_id) };
    let d0 = Seq::<FieldView>::empty();
    lemma_lookup_push(d0, f0, SUB_ID@);
}

/// A confirmation's document holds its two fields.
pub proof fn lemma_reply_payload(sub_id: Seq<char>, broker_id: Seq<char>)
    ensures
        text_of(reply_payload(sub_id, broker_id), SUB_ID@) == Some(sub_id),
        text_of(reply_payload(sub_id, broker_id), BROKER_ID@) == Some(broker_id),
{
    lemma_field_names_distinct();
    let f0 = FieldView { name: SUB_ID@, value: ValueView::Text(sub_id) };
    let f1 = FieldView { name: BROKER_ID@, value: ValueView::Text(broker_id) };
    let d0 = Seq::<FieldView>::empty();
    let d1 = d0.push(f0);
    lemma_lookup_push(d0, f0, SUB_ID@);
    lemma_lookup_push(d0, f0, BROKER_ID@);
    lemma_lookup_push(d1, f1, SUB_ID@);
    lemma_lookup_push(d1, f1, BROKER_ID@);
}

impl Request {
    /// A request to end the subscription of `sub_id`.
    pub fn new(sub_id: String) -> (request: Request)
        ensures
            request.sub_id == sub_id,
    {
        Request { sub_id }
    }

    /// How an envelope reads as an unsubscribe request.
    pub open spec fn reads_as(message: MessageView, result: Result<Request, DeserializationErrors>) -> bool {
        if message.msg_type != REQUEST_HEADER@ {
            result matches Err(DeserializationErrors::IncompatibleMessageType)
        } else if text_of(message.payload, SUB_ID@) is None {
            result matches Err(DeserializationErrors::InvalidMessageStructure(field)) && field@ == SUB_ID@
        } else {
            &&& result matches Ok(request)
            &&& Some(request.sub_id@) == text_of(message.payload, SUB_ID@)
        }
    }
}

impl Reply {
    /// The confirmation that the subscription of `sub_id` ended.
    pub fn new(sub_id: String, broker_id: String) -> (reply: Reply)
        ensures
            reply.sub_id == sub_id,
            reply.broker_id == broker_id,
    {
        Reply { sub_id, broker_id }
    }

    /// How an envelope reads as the confirmation.
    pub open spec fn reads_as(message: MessageView, result: Result<Reply, DeserializationErrors>) -> bool {
        if message.msg_type != REPLY_HEADER@ {
            result matches Err(DeserializationErrors::IncompatibleMessageType)
        } else if text_of(message.payload, SUB_ID@) is None {
            result matches Err(DeserializationErrors::InvalidMessageStructure(field)) && field@ == SUB_ID@
        } else if text_of(message.payload, BROKER_ID@) is None {
            result matches Err(DeserializationErrors::InvalidMessageStructure(field)) && field@ == BROKER_ID@
        } else {
            &&& result matches Ok(reply)
            &&& Some(reply.sub_id@) == text_of(message.payload, SUB_ID@)
            &&& Some(reply.broker_id@) == text_of(message.payload, BROKER_ID@)
        }
    }
}

/// An unsubscribe request that was written to an envelope is read back from it as it was.
pub proof fn lemma_request_round_trip(sub_id: Seq<char>, result: Result<Request, DeserializationErrors>)
    requires
        Request::reads_as(MessageView { msg_type: REQUEST_HEADER@, payload: request_payload(sub_id) }, result),
    ensures
        result matches Ok(request),
        result matches Ok(request) ==> request.sub_id@ == sub_id,
{
    lemma_request_payload(sub_id);
}

/// A confirmation that was written to an envelope is read back from it as it was.
pub proof fn lemma_reply_round_trip(sub_id: Seq<char>, broker_id: Seq<char>, result: Result<Reply, DeserializationErrors>)
    requires
        Reply::reads_as(MessageView { msg_type: REPLY_HEADER@, payload: reply_payload(sub_id, broker_id) }, result),
    ensures
        result matches Ok(reply),
        result matches Ok(reply) ==> reply.sub_id@ == sub_id,
        result matches Ok(reply) ==> reply.broker_id@ == broker_id,
{
    lemma_reply_payload(sub_id, broker_id);
}

impl NetworkTradeable<Request> for Request {
    fn as_message(&self) -> (message: Message)
        ensures
            message@.msg_type == REQUEST_HEADER@,
            message@.payload == request_payload(self.sub_id@),
    {
        let mut payload = Document::new();
        payload.put_text(SUB_ID, self.sub_id.clone());
        Message::new(REQUEST_HEADER.to_owned(), payload)
    }

    fn from_message(message: Message) -> (result: Result<Request, DeserializationErrors>)
        ensures
            Request::reads_as(message@, result),
    {
        if !message.has_type(REQUEST_HEADER) {
            return Err(DeserializationErrors::IncompatibleMessageType);
        }
        let sub_id = match message.payload.get_text(SUB_ID) {
            Some(text) => text,
            None => {
                return Err(invalid_field(SUB_ID));
            },
        };
        Ok(Request { sub_id })
    }
}

impl NetworkTradeable<Reply> for Reply {
    fn as_message(&self) -> (message: Message)
        ensures
            message@.msg_type == REPLY_HEADER@,
            message@.payload == reply_payload(self.sub_id@, self.broker_id@),
    {
        let mut payload = Document::new();
        payload.put_text(SUB_ID, self.sub_id.clone());
        payload.put_text(BROKER_ID, self.broker_id.clone());
        Message::new(REPLY_HEADER.to_owned(), payload)
    }

    fn from_message(message: Message) -> (result: Result<Reply, DeserializationErrors>)
        ensures
            Reply::reads_as(message@, result),
    {
        if !message.has_type(REPLY_HEADER) {
            return Err(DeserializationErrors::IncompatibleMessageType);
        }
        let sub_id = match message.payload.get_text(SUB_ID) {
            Some(text) => text,
            None => {
                return Err(invalid_field(SUB_ID));
            },
        };
        let broker_id = match message.payload.get_text(BROKER_ID) {
            Some(text) => text,
            None => {
                return Err(invalid_field(BROKER_ID));
            },
        };
        Ok(Reply { sub_id, broker_id })
    }
}

} // verus!
