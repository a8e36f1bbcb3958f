//! The broker's side of the wire: one handler per request kind, and the
//! dispatcher that reads an envelope, routes it and answers with an envelope.

use vstd::prelude::*;
use crate::broker::BrokerState;
use crate::messages::error::{error_payload, BrokerErrorMessage, BrokerErrorType};
use crate::messages::get::{Ack as AckRequest, AckReply, Reply as GetReply, Request as GetRequest};
use crate::messages::put::{Reply as PutReply, Request as PutRequest};
use crate::messages::subscribe::{Reply as SubReply, Request as SubRequest};
use crate::messages::unsubscribe::{Reply as UnsubReply, Request as UnsubRequest};
use crate::messages::{
    bytes_of, number_of, text_of, Message, MessageView, NetworkTradeable, MESSAGE_NO, MESSAGE_UUID,
    PAYLOAD, PUB_ID, SUB_ID, TOPIC,
};
use crate::model::{BrokerView, Operation};

verus! {

/// The error reply of kind `kind` from the broker `broker_id`.
pub open spec fn error_reply(kind: BrokerErrorType, broker_id: Seq<char>) -> MessageView {
    MessageView {
        msg_type: crate::messages::error::REQUEST_HEADER@,
        payload: error_payload(kind, broker_id, kind.spec_description()),
    }
}

/// The reply to a get in state `v`: the delivery, or the error.
pub open spec fn get_reply(v: BrokerView, sub_id: Seq<char>, topic: Seq<char>) -> MessageView {
    match v.get_outcome(sub_id, topic) {
        Ok((n, payload)) => MessageView {
            msg_type: crate::messages::get::REPLY_HEADER@,
            payload: crate::messages::get::reply_payload(sub_id, n as u64, v.broker_id, payload),
        },
        Err(kind) => error_reply(kind, v.broker_id),
    }
}

/// The reply to a publish in state `v`.
pub open spec fn put_reply(v: BrokerView, topic: Seq<char>, message_uuid: Seq<char>) -> MessageView {
    match v.publish_outcome(topic, message_uuid) {
        Ok(_) => MessageView {
            msg_type: crate::messages::put::REPLY_HEADER@,
            payload: crate::messages::put::reply_payload(message_uuid, topic, v.broker_id),
        },
        Err(kind) => error_reply(kind, v.broker_id),
    }
}

/// The reply to a subscribe in state `v`. It names the first post the
/// subscriber will read, the one after its starting cursor.
pub open spec fn sub_reply(v: BrokerView, sub_id: Seq<char>, topic: Seq<char>) -> MessageView {
    match v.subscribe_outcome(sub_id, topic) {
        Ok(cursor) => MessageView {
            msg_type: crate::messages::subscribe::REPLY_HEADER@,
            payload: crate::messages::subscribe::reply_payload(sub_id, topic, v.broker_id, (cursor + 1) as u64),
        },
        Err(kind) => error_reply(kind, v.broker_id),
    }
}

/// The reply to an unsubscribe in state `v`.
pub open spec fn unsub_reply(v: BrokerView, sub_id: Seq<char>) -> MessageView {
    match v.unsubscribe_outcome(sub_id) {
        Ok(_) => MessageView {
            msg_type: crate::messages::unsubscribe::REPLY_HEADER@,
            payload: crate::messages::unsubscribe::reply_payload(sub_id, v.broker_id),
        },
        Err(kind) => error_reply(kind, v.broker_id),
    }
}

/// The reply to an acknowledgement in state `v`.
pub open spec fn ack_reply(v: BrokerView, sub_id: Seq<char>, message_no: u64) -> MessageView {
    match v.acknowledge_outcome(sub_id, message_no as nat) {
        Ok(_) => MessageView {
            msg_type: crate::messages::get::ACK_REPLY_HEADER@,
            payload: crate::messages::get::ack_payload(sub_id, message_no),
        },
        Err(kind) => error_reply(kind, v.broker_id),
    }
}

/// The request that an envelope carries, if its kind label is that of a
/// request and its payload holds every field of that request.
pub open spec fn decoded(message: MessageView) -> Option<Operation> {
    let doc = message.payload;
    if message.msg_type == crate::messages::get::REQUEST_HEADER@ {
        match (text_of(doc, SUB_ID@), text_of(doc, TOPIC@)) {
            (Some(subscriber), Some(topic)) => Some(Operation::Get { subscriber, topic }),
            _ => None,
        }
    } else if message.msg_type == crate::messages::get::ACK_HEADER@ {
        match (text_of(doc, SUB_ID@), number_of(doc, MESSAGE_NO@)) {
            (Some(subscriber), Some(n)) => Some(Operation::Acknowledge { subscriber, post_number: n as nat }),
            _ => None,
        }
    } else if message.msg_type == crate::messages::put::REQUEST_HEADER@ {
        match (text_of(doc, PUB_ID@), text_of(doc, TOPIC@), text_of(doc, MESSAGE_UUID@), bytes_of(doc, PAYLOAD@)) {
            (Some(_), Some(topic), Some(publish_id), Some(payload)) => Some(
                Operation::Publish { topic, publish_id, payload },
            ),
            _ => None,
        }
    } else if message.msg_type == crate::messages::subscribe::REQUEST_HEADER@ {
        match (text_of(doc, SUB_ID@), text_of(doc, TOPIC@)) {
            (Some(subscriber), Some(topic)) => Some(Operation::Subscribe { subscriber, topic }),
            _ => None,
        }
    } else if message.msg_type == crate::messages::unsubscribe::REQUEST_HEADER@ {
        match text_of(doc, SUB_ID@) {
            Some(subscriber) => Some(Operation::Unsubscribe { subscriber }),
            None => None,
        }
    } else {
        None
    }
}

/// The reply to request `op` in state `v`.
pub open spec fn reply_to(v: BrokerView, op: Operation) -> MessageView {
    match op {
        Operation::Get { subscriber, topic } => get_reply(v, subscriber, topic),
        Operation::Acknowledge { subscriber, post_number } => ack_reply(v, subscriber, post_number as u64),
        Operation::Publish { topic, publish_id, payload } => put_reply(v, topic, publish_id),
        Operation::Subscribe { subscriber, topic } => sub_reply(v, subscriber, topic),
        Operation::Unsubscribe { subscriber } => unsub_reply(v, subscriber),
    }
}

/// Whether the reply `reply` and the state `after` are what serving the
/// envelope `request` in state `before` gives: the step and the reply of the
/// request it carries, or, if it carries none, no change and an
/// `UnknownMessage` error.
pub open spec fn served(before: BrokerView, request: MessageView, after: BrokerView, reply: MessageView) -> bool {
    match decoded(request) {
        Some(op) => after == before.step(op) && reply == reply_to(before, op),
        None => after == before && reply == error_reply(BrokerErrorType::UnknownMessage, before.broker_id),
    }
}

/// Whether the numbers that serving `op` in state `v` produces are 64-bit
/// numbers: the number of a published post, and the number of the first post
/// that a new subscriber reads.
pub open spec fn in_range(v: BrokerView, op: Operation) -> bool {
    match op {
        Operation::Publish { topic, publish_id, .. } => v.publish_outcome(topic, publish_id) matches Ok(n) ==> n
            <= u64::MAX,
        Operation::Subscribe { subscriber, topic } => v.subscribe_outcome(subscriber, topic) matches Ok(cursor)
            ==> cursor < u64::MAX,
        _ => true,
    }
}

/// A broker in which every topic can take one more post serves every
/// request within range.
pub proof fn lemma_headroom_in_range(state: &BrokerState, op: Operation)
    requires
        state.has_headroom(),
    ensures
        in_range(state@, op),
{
}

/// The envelope of the error reply of kind `kind` from `state`.
pub fn error_message(state: &BrokerState, kind: BrokerErrorType) -> (reply: Message)
    ensures
        reply@ == error_reply(kind, state@.broker_id),
{
    BrokerErrorMessage::new(kind, state.broker_id().clone()).as_message()
}

/// Serves a get request.
pub fn handle_get(state: &mut BrokerState, request: GetRequest) -> (reply: Message)
    requires
        old(state).wf(),
    ensures
        final(state).wf(),
        final(state)@ == old(state)@.get(request.sub_id@, request.topic@),
        reply@ == get_reply(old(state)@, request.sub_id@, request.topic@),
{
    match state.get(&request.sub_id, &request.topic) {
        Ok((post_no, post_payload)) => GetReply::new(
            request.sub_id.clone(),
            post_no,
            state.broker_id().clone(),
            post_payload,
        ).as_message(),
        Err(kind) => error_message(state, kind),
    }
}

/// Serves a publish request.
pub fn handle_put(state: &mut BrokerState, request: PutRequest) -> (reply: Message)
    requires
        old(state).wf(),
        old(state)@.publish_outcome(request.topic@, request.message_uuid@) matches Ok(n) ==> n <= u64::MAX,
    ensures
        final(state).wf(),
        final(state)@ == old(state)@.publish(request.topic@, request.message_uuid@, request.payload@),
        reply@ == put_reply(old(state)@, request.topic@, request.message_uuid@),
{
    match state.publish(&request.topic, &request.message_uuid, request.payload) {
        Ok(_) => PutReply::new(
            request.message_uuid.clone(),
            request.topic.clone(),
            state.broker_id().clone(),
        ).as_message(),
        Err(kind) => error_message(state, kind),
    }
}

/// Serves a subscribe request.
pub fn handle_sub(state: &mut BrokerState, request: SubRequest) -> (reply: Message)
    requires
        old(state).wf(),
        old(state)@.subscribe_outcome(request.sub_id@, request.topic@) matches Ok(cursor) ==> cursor < u64::MAX,
    ensures
        final(state).wf(),
        final(state)@ == old(state)@.subscribe(request.sub_id@, request.topic@),
        reply@ == sub_reply(old(state)@, request.sub_id@, request.topic@),
{
    match state.subscribe(&request.sub_id, &request.topic) {
        Ok(cursor) => SubReply::new(
            request.sub_id.clone(),
            request.topic.clone(),
            state.broker_id().clone(),
            cursor + 1,
        ).as_message(),
        Err(kind) => error_message(state, kind),
    }
}

/// Serves an unsubscribe request.
pub fn handle_unsub(state: &mut BrokerState, request: UnsubRequest) -> (reply: Message)
    requires
        old(state).wf(),
    ensures
        final(state).wf(),
        final(state)@ == old(state)@.unsubscribe(request.sub_id@),
        reply@ == unsub_reply(old(state)@, request.sub_id@),
{
    match state.unsubscribe(&request.sub_id) {
        Ok(_) => UnsubReply::new(request.sub_id.clone(), state.broker_id().clone()).as_message(),
        Err(kind) => error_message(state, kind),
    }
}

/// Serves an acknowledgement.
pub fn handle_get_ack(state: &mut BrokerState, request: AckRequest) -> (reply: Message)
    requires
        old(state).wf(),
    ensures
        final(state).wf(),
        final(state)@ == old(state)@.acknowledge(request.sub_id@, request.message_no as nat),
        reply@ == ack_reply(old(state)@, request.sub_id@, request.message_no),
{
    match state.acknowledge(&request.sub_id, request.message_no) {
        Ok(_) => AckReply::new(request.sub_id.clone(), request.message_no).as_message(),
        Err(kind) => error_message(state, kind),
    }
}

/// Serves one envelope: reads it as the request its kind label names,
/// routes it to that request's handler and returns the reply.
///
/// An envelope of unknown kind, or one whose payload lacks a field of its
/// kind, changes nothing and is answered with an `UnknownMessage` error.
pub fn handle_requests(state: &mut BrokerState, request: Message) -> (reply: Message)
    requires
        old(state).wf(),
        decoded(request@) matches Some(op) ==> in_range(old(state)@, op),
    ensures
        final(state).wf(),
        served(old(state)@, request@, final(state)@, reply@),
{
    if request.has_type(crate::messages::get::REQUEST_HEADER) {
        match GetRequest::from_message(request) {
            Ok(get) => handle_get(state, get),
            Err(_) => error_message(state, BrokerErrorType::UnknownMessage),
        }
    } else if request.has_type(crate::messages::get::ACK_HEADER) {
        match AckRequest::from_message(request) {
            Ok(ack) => handle_get_ack(state, ack),
            Err(_) => error_message(state, BrokerErrorType::UnknownMessage),
        }
    } else if request.has_type(crate::messages::put::REQUEST_HEADER) {
        match PutRequest::from_message(request) {
            Ok(put) => handle_put(state, put),
            Err(_) => error_message(state, BrokerErrorType::UnknownMessage),
        }
    } else if request.has_type(crate::messages::subscribe::REQUEST_HEADER) {
        match SubRequest::from_message(request) {
            Ok(sub) => handle_sub(state, sub),
            Err(_) => error_message(state, BrokerErrorType::UnknownMessage),
        }
    } else if request.has_type(crate::messages::unsubscribe::REQUEST_HEADER) {
        match UnsubRequest::from_message(request) {
            Ok(unsub) => handle_unsub(state, unsub),
            Err(_) => error_message(state, BrokerErrorType::UnknownMessage),
        }
    } else {
        error_message(state, BrokerErrorType::UnknownMessage)
    }
}

/// Serves one envelope if every topic can take one more post, and else
/// leaves the broker as it is and returns nothing.
pub fn serve(state: &mut BrokerState, request: Message) -> (reply: Option<Message>)
    requires
        old(state).wf(),
    ensures
        final(state).wf(),
        match reply {
            Some(reply) => old(state).has_headroom() && served(old(state)@, request@, final(state)@, reply@),
            None => !old(state).has_headroom() && final(state)@ == old(state)@,
        },
{
    if !state.check_headroom() {
        return None;
    }
    proof {
        if decoded(request@) is Some {
            lemma_headroom_in_range(state, decoded(request@)->0);
        }
    }
    Some(handle_requests(state, request))
}

} // verus!
