//! Requests and replies of the get/acknowledge exchange.

use vstd::prelude::*;
use super::{
    bytes_of, invalid_field, lemma_field_names_distinct, lemma_lookup_push, number_of, text_of,
    DeserializationErrors, Document, FieldView, Message, MessageView, NetworkTradeable, ValueView,
    BROKER_ID, MESSAGE_NO, PAYLOAD, SUB_ID, TOPIC,
};

verus! {

/// Kind label of a get request.
pub const REQUEST_HEADER: &'static str = "GET";

/// Kind label of the reply that delivers a post.
pub const REPLY_HEADER: &'static str = "GET_REPL";

/// Kind label of an acknowledgement.
pub const ACK_HEADER: &'static str = "GET_ACK";

/// Kind label of the reply to an acknowledgement.
pub const ACK_REPLY_HEADER: &'static str = "GET_ACK_REPL";

/// Asks for the next post of a subscriber's topic.
#[derive(Debug)]
pub struct Request {
    pub sub_id: String,
    pub topic: String,
}

/// Delivers one post.
#[derive(Debug)]
pub struct Reply {
    pub sub_id: String,
    pub message_no: u64,
    pub broker_id: String,
    pub payload: Vec<u8>,
}

/// Acknowledges one post.
#[derive(Debug)]
pub struct Ack {
    pub sub_id: String,
    pub message_no: u64,
}

/// Confirms an acknowledgement.
#[derive(Debug)]
pub struct AckReply {
    pub sub_id: String,
    pub message_no: u64,
}

/// The document of a get request.
pub open spec fn request_payload(sub_id: Seq<char>, topic: Seq<char>) -> Seq<FieldView> {
    Seq::<FieldView>::empty().push(FieldView { name: SUB_ID@, value: ValueView::Text(sub_id) }).push(
        FieldView { name: TOPIC@, value: ValueView::Text(topic) },
    )
}

/// The document of a delivery.
pub open spec fn reply_payload(sub_id: Seq<char>, message_no: u64, broker_id: Seq<char>, payload: Seq<u8>) -> Seq<
    FieldView,
> {
    Seq::<FieldView>::empty().push(FieldView { name: SUB_ID@, value: ValueView::Text(sub_id) }).push(
        FieldView { name: MESSAGE_NO@, value: ValueView::Number(message_no) },
    ).push(FieldView { name: BROKER_ID@, value: ValueView::Text(broker_id) }).push(
        FieldView { name: PAYLOAD@, value: ValueView::Bytes(payload) },
    )
}

/// The document of an acknowledgement and of its reply.
pub open spec fn ack_payload(sub_id: Seq<char>, message_no: u64) -> Seq<FieldView> {
    Seq::<FieldView>::empty().push(FieldView { name: SUB_ID@, value: ValueView::Text(sub_id) }).push(
        FieldView { name: MESSAGE_NO@, value: ValueView::Number(message_no) },
    )
}

/// A get request's document holds its two fields.
pub proof fn lemma_request_payload(sub_id: Seq<char>, topic: Seq<char>)
    ensures
        text_of(request_payload(sub_id, topic), SUB_ID@) == Some(sub_id),
        text_of(request_payload(sub_id, topic), TOPIC@) == Some(topic),
{
    lemma_field_names_distinct();
    let f0 = FieldView { name: SUB_ID@, value: ValueView::Text(sub_id) };
    let f1 = FieldView { name: TOPIC@, value: ValueView::Text(topic) };
    let d0 = Seq::<FieldView>::empty();
    lemma_lookup_push(d0, f0, SUB_ID@);
    lemma_lookup_push(d0, f0, TOPIC@);
    lemma_lookup_push(d0.push(f0), f1, SUB_ID@);
    lemma_lookup_push(d0.push(f0), f1, TOPIC@);
}

/// A delivery's document holds its four fields.
pub proof fn lemma_reply_payload(sub_id: Seq<char>, message_no: u64, broker_id: Seq<char>, payload: Seq<u8>)
    ensures
        text_of(reply_payload(sub_id, message_no, broker_id, payload), SUB_ID@) == Some(sub_id),
        number_of(reply_payload(sub_id, message_no, broker_id, payload), MESSAGE_NO@) == Some(message_no),
        text_of(reply_payload(sub_id, message_no, broker_id, payload), BROKER_ID@) == Some(broker_id),
        bytes_of(reply_payload(sub_id, message_no, broker_id, payload), PAYLOAD@) == Some(payload),
{
    lemma_field_names_distinct();
    let f0 = FieldView { name: SUB_ID@, value: ValueView::Text(sub_id) };
    let f1 = FieldView { name: MESSAGE_NO@, value: ValueView::Number(message_no) };
    let f2 = FieldView { name: BROKER_ID@, value: ValueView::Text(broker_id) };
    let f3 = FieldView { name: PAYLOAD@, value: ValueView::Bytes(payload) };
    let d0 = Seq::<FieldView>::empty();
    let d1 = d0.push(f0);
    let d2 = d1.push(f1);
    let d3 = d2.push(f2);
    lemma_lookup_push(d0, f0, SUB_ID@);
    lemma_lookup_push(d0, f0, MESSAGE_NO@);
    lemma_lookup_push(d0, f0, BROKER_ID@);
    lemma_lookup_push(d0, f0, PAYLOAD@);
    lemma_lookup_push(d1, f1, SUB_ID@);
    lemma_lookup_push(d1, f1, MESSAGE_NO@);
    lemma_lookup_push(d1, f1, BROKER_ID@);
    lemma_lookup_push(d1, f1, PAYLOAD@);
    lemma_lookup_push(d2, f2, SUB_ID@);
    lemma_lookup_push(d2, f2, MESSAGE_NO@);
    lemma_lookup_push(d2, f2, BROKER_ID@);
    lemma_lookup_push(d2, f2, PAYLOAD@);
    lemma_lookup_push(d3, f3, SUB_ID@);
    lemma_lookup_push(d3, f3, MESSAGE_NO@);
    lemma_lookup_push(d3, f3, BROKER_ID@);
    lemma_lookup_push(d3, f3, PAYLOAD@);
}

/// An acknowledgement's document holds its two fields.
pub proof fn lemma_ack_payload(sub_id: Seq<char>, message_no: u64)
    ensures
        text_of(ack_payload(sub_id, message_no), SUB_ID@) == Some(sub_id),
        number_of(ack_payload(sub_id, message_no), MESSAGE_NO@) == Some(message_no),
{
    lemma_field_names_distinct();
    let f0 = FieldView { name: SUB_ID@, value: ValueView::Text(sub_id) };
    let f1 = FieldView { name: MESSAGE_NO@, value: ValueView::Number(message_no) };
    let d0 = Seq::<FieldView>::empty();
    lemma_lookup_push(d0, f0, SUB_ID@);
    lemma_lookup_push(d0, f0, MESSAGE_NO@);
    lemma_lookup_push(d0.push(f0), f1, SUB_ID@);
    lemma_lookup_push(d0.push(f0), f1, MESSAGE_NO@);
}

impl Request {
    /// A get request of `sub_id` for `topic`.
    pub fn new(sub_id: String, topic: String) -> (request: Request)
        ensures
            request.sub_id == sub_id,
            request.topic == topic,
    {
        Request { sub_id, topic }
    }

    /// How an envelope reads as a get request: the kind label must fit, then
    /// each field must be there, and the request holds what the fields hold.
    pub open spec fn reads_as(message: MessageView, result: Result<Request, DeserializationErrors>) -> bool {
        if message.msg_type != REQUEST_HEADER@ {
            result matches Err(DeserializationErrors::IncompatibleMessageType)
        } else if text_of(message.payload, SUB_ID@) is None {
            result matches Err(DeserializationErrors::InvalidMessageStructure(field)) && field@ == SUB_ID@
        } else if text_of(message.payload, TOPIC@) is None {
            result matches Err(DeserializationErrors::InvalidMessageStructure(field)) && field@ == TOPIC@
        } else {
            &&& result matches Ok(request)
            &&& Some(request.sub_id@) == text_of(message.payload, SUB_ID@)
            &&& Some(request.topic@) == text_of(message.payload, TOPIC@)
        }
    }
}

impl Reply {
    /// The delivery of post `message_no` with `payload` to `sub_id`.
    pub fn new(sub_id: String, message_no: u64, broker_id: String, payload: Vec<u8>) -> (reply: Reply)
        ensures
            reply.sub_id == sub_id,
            reply.message_no == message_no,
            reply.broker_id == broker_id,
            reply.payload == payload,
    {
        Reply { sub_id, message_no, broker_id, payload }
    }

    /// Whether the delivery answers `request`: it is for the same subscriber.
    pub fn match_request(&self, request: &Request) -> (same: bool)
        ensures
            same == (self.sub_id@ == request.sub_id@),
    {
        self.sub_id == request.sub_id
    }

    /// How an envelope reads as a delivery.
    pub open spec fn reads_as(message: MessageView, result: Result<Reply, DeserializationErrors>) -> bool {
        if message.msg_type != REPLY_HEADER@ {
            result matches Err(DeserializationErrors::IncompatibleMessageType)
        } else if text_of(message.payload, SUB_ID@) is None {
            result matches Err(DeserializationErrors::InvalidMessageStructure(field)) && field@ == SUB_ID@
        } else if number_of(message.payload, MESSAGE_NO@) is None {
            result matches Err(DeserializationErrors::InvalidMessageStructure(field)) && field@ == MESSAGE_NO@
        } else if text_of(message.payload, BROKER_ID@) is None {
            result matches Err(DeserializationErrors::InvalidMessageStructure(field)) && field@ == BROKER_ID@
        } else if bytes_of(message.payload, PAYLOAD@) is None {
            result matches Err(DeserializationErrors::InvalidMessageStructure(field)) && field@ == PAYLOAD@
        } else {
            &&& result matches Ok(reply)
            &&& Some(reply.sub_id@) == text_of(message.payload, SUB_ID@)
            &&& Some(reply.message_no) == number_of(message.payload, MESSAGE_NO@)
            &&& Some(reply.broker_id@) == text_of(message.payload, BROKER_ID@)
            &&& Some(reply.payload@) == bytes_of(message.payload, PAYLOAD@)
        }
    }
}

impl Ack {
    /// The acknowledgement of post `message_no` by `sub_id`.
    pub fn new(sub_id: String, message_no: u64) -> (ack: Ack)
        ensures
            ack.sub_id == sub_id,
            ack.message_no == message_no,
    {
        Ack { sub_id, message_no }
    }

    /// How an envelope reads as an acknowledgement.
    pub open spec fn reads_as(message: MessageView, result: Result<Ack, DeserializationErrors>) -> bool {
        if message.msg_type != ACK_HEADER@ {
            result matches Err(DeserializationErrors::IncompatibleMessageType)
        } else if text_of(message.payload, SUB_ID@) is None {
            result matches Err(DeserializationErrors::InvalidMessageStructure(field)) && field@ == SUB_ID@
        } else if number_of(message.payload, MESSAGE_NO@) is None {
            result matches Err(DeserializationErrors::InvalidMessageStructure(field)) && field@ == MESSAGE_NO@
        } else {
            &&& result matches Ok(ack)
            &&& Some(ack.sub_id@) == text_of(message.payload, SUB_ID@)
            &&& Some(ack.message_no) == number_of(message.payload, MESSAGE_NO@)
        }
    }
}

impl AckReply {
    /// The confirmation that `sub_id` acknowledged post `message_no`.
    pub fn new(sub_id: String, message_no: u64) -> (reply: AckReply)
        ensures
            reply.sub_id == sub_id,
            reply.message_no == message_no,
    {
        AckReply { sub_id, message_no }
    }

    /// How an envelope reads as the reply to an acknowledgement.
    pub open spec fn reads_as(message: MessageView, result: Result<AckReply, DeserializationErrors>) -> bool {
        if message.msg_type != ACK_REPLY_HEADER@ {
            result matches Err(DeserializationErrors::IncompatibleMessageType)
        } else if text_of(message.payload, SUB_ID@) is None {
            result matches Err(DeserializationErrors::InvalidMessageStructure(field)) && field@ == SUB_ID@
        } else if number_of(message.payload, MESSAGE_NO@) is None {
            result matches Err(DeserializationErrors::InvalidMessageStructure(field)) && field@ == MESSAGE_NO@
        } else {
            &&& result matches Ok(reply)
            &&& Some(reply.sub_id@) == text_of(message.payload, SUB_ID@)
            &&& Some(reply.message_no) == number_of(message.payload, MESSAGE_NO@)
        }
    }
}

/// A get request that was written to an envelope is read back from it as it was.
pub proof fn lemma_request_round_trip(sub_id: Seq<char>, topic: Seq<char>, result: Result<Request, DeserializationErrors>)
    requires
        Request::reads_as(MessageView { msg_type: REQUEST_HEADER@, payload: request_payload(sub_id, topic) }, result),
    ensures
        result matches Ok(request),
        result matches Ok(request) ==> request.sub_id@ == sub_id,
        result matches Ok(request) ==> request.topic@ == topic,
{
    lemma_request_payload(sub_id, topic);
}

/// A delivery that was written to an envelope is read back from it as it was.
pub proof fn lemma_reply_round_trip(sub_id: Seq<char>, message_no: u64, broker_id: Seq<char>, payload: Seq<u8>, result: Result<Reply, DeserializationErrors>)
    requires
        Reply::reads_as(MessageView { msg_type: REPLY_HEADER@, payload: reply_payload(sub_id, message_no, broker_id, payload) }, result),
    ensures
        result matches Ok(reply),
        result matches Ok(reply) ==> reply.sub_id@ == sub_id,
        result matches Ok(reply) ==> reply.message_no == message_no,
        result matches Ok(reply) ==> reply.broker_id@ == broker_id,
        result matches Ok(reply) ==> reply.payload@ == payload,
{
    lemma_reply_payload(sub_id, message_no, broker_id, payload);
}

/// An acknowledgement that was written to an envelope is read back from it as it was.
pub proof fn lemma_ack_round_trip(sub_id: Seq<char>, message_no: u64, result: Result<Ack, DeserializationErrors>)
    requires
        Ack::reads_as(MessageView { msg_type: ACK_HEADER@, payload: ack_payload(sub_id, message_no) }, result),
    ensures
        result matches Ok(ack),
        result matches Ok(ack) ==> ack.sub_id@ == sub_id,
        result matches Ok(ack) ==> ack.message_no == message_no,
{
    lemma_ack_payload(sub_id, message_no);
}

/// The reply to an acknowledgement that was written to an envelope is read back from it as it was.
pub proof fn lemma_ack_reply_round_trip(sub_id: Seq<char>, message_no: u64, result: Result<AckReply, DeserializationErrors>)
    requires
        AckReply::reads_as(MessageView { msg_type: ACK_REPLY_HEADER@, payload: ack_payload(sub_id, message_no) }, result),
    ensures
        result matches Ok(reply),
        result matches Ok(reply) ==> reply.sub_id@ == sub_id,
        result matches Ok(reply) ==> reply.message_no == message_no,
{
    lemma_ack_payload(sub_id, message_no);
}

impl NetworkTradeable<Request> for Request {
    fn as_message(&self) -> (message: Message)
        ensures
            message@.msg_type == REQUEST_HEADER@,
            message@.payload == request_payload(self.sub_id@, self.topic@),
    {
        let mut payload = Document::new();
        payload.put_text(SUB_ID, self.sub_id.clone());
        payload.put_text(TOPIC, self.topic.clone());
        Message::new(REQUEST_HEADER.to_owned(), payload)
    }

    fn from_message(message: Message) -> (result: Result<Request, DeserializationErrors>)
        ensures
            Request::reads_as(message@, result),
    {
        if !message.has_type(REQUEST_HEADER) {
            return Err(DeserializationErrors::IncompatibleMessageType);
        }
        let sub_id = match message.payload.get_text(SUB_ID) {
            Some(text) => text,
            None => {
                return Err(invalid_field(SUB_ID));
            },
        };
        let topic = match message.payload.get_text(TOPIC) {
            Some(text) => text,
            None => {
                return Err(invalid_field(TOPIC));
            },
        };
        Ok(Request { sub_id, topic })
    }
}

impl NetworkTradeable<Reply> for Reply {
    fn as_message(&self) -> (message: Message)
        ensures
            message@.msg_type == REPLY_HEADER@,
            message@.payload == reply_payload(self.sub_id@, self.message_no, self.broker_id@, self.payload@),
    {
        let mut payload = Document::new();
        payload.put_text(SUB_ID, self.sub_id.clone());
        payload.put_number(MESSAGE_NO, self.message_no);
        payload.put_text(BROKER_ID, self.broker_id.clone());
        payload.put_bytes(PAYLOAD, self.payload.clone());
        Message::new(REPLY_HEADER.to_owned(), payload)
    }

    fn from_message(message: Message) -> (result: Result<Reply, DeserializationErrors>)
        ensures
            Reply::reads_as(message@, result),
    {
        if !message.has_type(REPLY_HEADER) {
            return Err(DeserializationErrors::IncompatibleMessageType);
        }
        let sub_id = match message.payload.get_text(SUB_ID) {
            Some(text) => text,
            None => {
                return Err(invalid_field(SUB_ID));
            },
        };
        let message_no = match message.payload.get_number(MESSAGE_NO) {
            Some(number) => number,
            None => {
                return Err(invalid_field(MESSAGE_NO));
            },
        };
        let broker_id = match message.payload.get_text(BROKER_ID) {
            Some(text) => text,
            None => {
                return Err(invalid_field(BROKER_ID));
            },
        };
        let payload = match message.payload.get_bytes(PAYLOAD) {
            Some(bytes) => bytes,
            None => {
                return Err(invalid_field(PAYLOAD));
            },
        };
        Ok(Reply { sub_id, message_no, broker_id, payload })
    }
}

impl NetworkTradeable<Ack> for Ack {
    fn as_message(&self) -> (message: Message)
        ensures
            message@.msg_type == ACK_HEADER@,
            message@.payload == ack_payload(self.sub_id@, self.message_no),
    {
        let mut payload = Document::new();
        payload.put_text(SUB_ID, self.sub_id.clone());
        payload.put_number(MESSAGE_NO, self.message_no);
        Message::new(ACK_HEADER.to_owned(), payload)
    }

    fn from_message(message: Message) -> (result: Result<Ack, DeserializationErrors>)
        ensures
            Ack::reads_as(message@, result),
    {
        if !message.has_type(ACK_HEADER) {
            return Err(DeserializationErrors::IncompatibleMessageType);
        }
        let sub_id = match message.payload.get_text(SUB_ID) {
            Some(text) => text,
            None => {
                return Err(invalid_field(SUB_ID));
            },
        };
        let message_no = match message.payload.get_number(MESSAGE_NO) {
            Some(number) => number,
            None => {
                return Err(invalid_field(MESSAGE_NO));
            },
        };
        Ok(Ack { sub_id, message_no })
    }
}

impl NetworkTradeable<AckReply> for AckReply {
    fn as_message(&self) -> (message: Message)
        ensures
            message@.msg_type == ACK_REPLY_HEADER@,
            message@.payload == ack_payload(self.sub_id@, self.message_no),
    {
        let mut payload = Document::new();
        payload.put_text(SUB_ID, self.sub_id.clone());
        payload.put_number(MESSAGE_NO, self.message_no);
        Message::new(ACK_REPLY_HEADER.to_owned(), payload)
    }

    fn from_message(message: Message) -> (result: Result<AckReply, DeserializationErrors>)
        ensures
            AckReply::reads_as(message@, result),
    {
        if !message.has_type(ACK_REPLY_HEADER) {
            return Err(DeserializationErrors::IncompatibleMessageType);
        }
        let sub_id = match message.payload.get_text(SUB_ID) {
            Some(text) => text,
            None => {
                return Err(invalid_field(SUB_ID));
            },
        };
        let message_no = match message.payload.get_number(MESSAGE_NO) {
            Some(number) => number,
            None => {
                return Err(invalid_field(MESSAGE_NO));
            },
        };
        Ok(AckReply { sub_id, message_no })
    }
}

} // verus!
