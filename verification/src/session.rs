//! The client's side of an exchange: what a session does with a reply.
//!
//! A client sends a request and waits for the reply. What the reply means for
//! the session, and what the client has to do next, is decided here; sending
//! and receiving is the caller's part. Each function takes the session and a
//! reply, brings the session up to date and says how the exchange goes on.

use vstd::prelude::*;
use crate::context::known;
use crate::context::publisher::PublisherContext;
use crate::context::subscriber::SubscriberContext;
use crate::ident::is_uuid_v4_text;
use crate::messages::error::{BrokerErrorMessage, BrokerErrorType};
use crate::messages::{
    bytes_of, get, number_of, put, subscribe, text_of, unsubscribe, Message, MessageView,
    NetworkTradeable, BROKER_ID, DESCRIPTION, ERROR_TYPE, MESSAGE_NO, MESSAGE_UUID, PAYLOAD,
    POST_OFFSET, SUB_ID, TOPIC,
};

verus! {

/// Wording of [`SessionError::BrokerChanged`].
pub const BROKER_CHANGED: &'static str = "The broker has wiped out its data, need to subscribe again";

/// Wording of [`SessionError::UnexpectedReply`].
pub const UNEXPECTED_REPLY: &'static str = "Unexpected message type";

/// Wording of [`SessionError::ProtocolStateViolation`].
pub const POST_AHEAD: &'static str = "Message number is higher than the one expected to receive";

/// Wording of [`SessionError::RetryBudgetExceeded`].
pub const GIVEN_UP: &'static str = "The request was given up after too many attempts";

/// Why an exchange failed.
#[derive(Debug)]
pub enum SessionError {
    /// The broker refused the request.
    Refused { kind: BrokerErrorType, description: String },
    /// The reply comes from a broker of another identity than the one the
    /// session knows: the broker has lost what it held.
    BrokerChanged,
    /// The reply is not of a kind that answers the request, or cannot be read.
    UnexpectedReply,
    /// The broker delivered a post beyond the one the session expects.
    ProtocolStateViolation,
    /// The exchange was retried as often as the caller allowed.
    RetryBudgetExceeded,
}

/// A [`SessionError`] as plain data.
pub enum SessionErrorView {
    Refused { kind: BrokerErrorType, description: Seq<char> },
    BrokerChanged,
    UnexpectedReply,
    ProtocolStateViolation,
    RetryBudgetExceeded,
}

impl View for SessionError {
    type V = SessionErrorView;

    open spec fn view(&self) -> SessionErrorView {
        match self {
            SessionError::Refused { kind, description } => SessionErrorView::Refused {
                kind: *kind,
                description: description@,
            },
            SessionError::BrokerChanged => SessionErrorView::BrokerChanged,
            SessionError::UnexpectedReply => SessionErrorView::UnexpectedReply,
            SessionError::ProtocolStateViolation => SessionErrorView::ProtocolStateViolation,
            SessionError::RetryBudgetExceeded => SessionErrorView::RetryBudgetExceeded,
        }
    }
}

impl SessionErrorView {
    /// The wording of the failure: the broker's own for a refusal.
    pub open spec fn description(self) -> Seq<char> {
        match self {
            SessionErrorView::Refused { kind, description } => description,
            SessionErrorView::BrokerChanged => BROKER_CHANGED@,
            SessionErrorView::UnexpectedReply => UNEXPECTED_REPLY@,
            SessionErrorView::ProtocolStateViolation => POST_AHEAD@,
            SessionErrorView::RetryBudgetExceeded => GIVEN_UP@,
        }
    }
}

impl SessionError {
    /// The wording of the failure.
    pub fn description(&self) -> (text: String)
        ensures
            text@ == self@.description(),
    {
        match self {
            SessionError::Refused { kind, description } => description.clone(),
            SessionError::BrokerChanged => BROKER_CHANGED.to_owned(),
            SessionError::UnexpectedReply => UNEXPECTED_REPLY.to_owned(),
            SessionError::ProtocolStateViolation => POST_AHEAD.to_owned(),
            SessionError::RetryBudgetExceeded => GIVEN_UP.to_owned(),
        }
    }
}

/// An error reply as plain data.
pub struct ErrorView {
    pub kind: BrokerErrorType,
    pub broker_id: Seq<char>,
    pub description: Seq<char>,
}

/// A delivery as plain data.
pub struct DeliveryView {
    pub sub_id: Seq<char>,
    pub message_no: u64,
    pub broker_id: Seq<char>,
    pub payload: Seq<u8>,
}

/// The error reply that an envelope carries, if it carries one in full.
pub open spec fn error_in(message: MessageView) -> Option<ErrorView> {
    let doc = message.payload;
    if message.msg_type == crate::messages::error::REQUEST_HEADER@ && text_of(doc, ERROR_TYPE@) is Some
        && BrokerErrorType::spec_from_name(text_of(doc, ERROR_TYPE@)->0) is Some && text_of(doc, BROKER_ID@) is Some
        && text_of(doc, DESCRIPTION@) is Some {
        Some(
            ErrorView {
                kind: BrokerErrorType::spec_from_name(text_of(doc, ERROR_TYPE@)->0)->0,
                broker_id: text_of(doc, BROKER_ID@)->0,
                description: text_of(doc, DESCRIPTION@)->0,
            },
        )
    } else {
        None
    }
}

/// The delivery that an envelope carries, if it carries one in full.
pub open spec fn delivery_in(message: MessageView) -> Option<DeliveryView> {
    let doc = message.payload;
    if message.msg_type == get::REPLY_HEADER@ && text_of(doc, SUB_ID@) is Some && number_of(doc, MESSAGE_NO@) is Some
        && text_of(doc, BROKER_ID@) is Some && bytes_of(doc, PAYLOAD@) is Some {
        Some(
            DeliveryView {
                sub_id: text_of(doc, SUB_ID@)->0,
                message_no: number_of(doc, MESSAGE_NO@)->0,
                broker_id: text_of(doc, BROKER_ID@)->0,
                payload: bytes_of(doc, PAYLOAD@)->0,
            },
        )
    } else {
        None
    }
}

/// The broker identity and the first post to read that a confirmation of a
/// subscription carries, if the envelope carries one in full.
pub open spec fn subscription_in(message: MessageView) -> Option<(Seq<char>, u64)> {
    let doc = message.payload;
    if message.msg_type == subscribe::REPLY_HEADER@ && text_of(doc, SUB_ID@) is Some && text_of(doc, TOPIC@) is Some
        && text_of(doc, BROKER_ID@) is Some && number_of(doc, POST_OFFSET@) is Some {
        Some((text_of(doc, BROKER_ID@)->0, number_of(doc, POST_OFFSET@)->0))
    } else {
        None
    }
}

/// The broker identity that a confirmation of a publish carries, if the
/// envelope carries one in full.
pub open spec fn confirmation_in(message: MessageView) -> Option<Seq<char>> {
    let doc = message.payload;
    if message.msg_type == put::REPLY_HEADER@ && text_of(doc, MESSAGE_UUID@) is Some && text_of(doc, TOPIC@) is Some
        && text_of(doc, BROKER_ID@) is Some {
        Some(text_of(doc, BROKER_ID@)->0)
    } else {
        None
    }
}

/// Whether a session that knows `known_id` sees another broker in `seen`.
pub open spec fn changed(known_id: Option<Seq<char>>, seen: Seq<char>) -> bool {
    known_id matches Some(id) && id != seen
}

/// How a failed exchange ends when the reply is an error reply: unreadable,
/// from another broker, or the refusal it carries.
pub open spec fn failure(known_id: Option<Seq<char>>, reply: MessageView) -> SessionErrorView {
    match error_in(reply) {
        None => SessionErrorView::UnexpectedReply,
        Some(error) => if changed(known_id, error.broker_id) {
            SessionErrorView::BrokerChanged
        } else {
            SessionErrorView::Refused { kind: error.kind, description: error.description }
        },
    }
}

/// Whether the session that knows `known_id` sees another broker in `seen`.
pub fn broker_changed(known_id: &Option<String>, seen: &String) -> (differs: bool)
    ensures
        differs == changed(known(*known_id), seen@),
{
    match known_id {
        Some(id) => *id != *seen,
        None => false,
    }
}

/// Reads an error reply.
fn read_error(reply: Message) -> (error: Option<BrokerErrorMessage>)
    requires
        reply@.msg_type == crate::messages::error::REQUEST_HEADER@,
    ensures
        match error {
            Some(e) => error_in(reply@) == Some(
                ErrorView { kind: e.error_type, broker_id: e.broker_id@, description: e.description@ },
            ),
            None => error_in(reply@) is None,
        },
{
    match BrokerErrorMessage::from_message(reply) {
        Ok(e) => Some(e),
        Err(_) => None,
    }
}

/// How an exchange ends whose reply is an error reply.
fn fail_with(known_id: &Option<String>, reply: Message) -> (error: SessionError)
    requires
        reply@.msg_type == crate::messages::error::REQUEST_HEADER@,
    ensures
        error@ == failure(known(*known_id), reply@),
{
    match read_error(reply) {
        None => SessionError::UnexpectedReply,
        Some(e) => if broker_changed(known_id, &e.broker_id) {
            SessionError::BrokerChanged
        } else {
            SessionError::Refused { kind: e.error_type, description: e.description }
        },
    }
}

/// How a get goes on after the broker's reply.
#[derive(Debug)]
pub enum GetStep {
    /// The expected post was delivered: send `ack`, then hand its reply and
    /// `delivery` to [`on_ack_reply`].
    Acknowledge { ack: get::Ack, delivery: get::Reply },
    /// A post before the expected one was delivered: send the get again.
    Retry,
    /// The get failed.
    Fail(SessionError),
}

/// A [`GetStep`] as plain data.
pub enum GetStepView {
    Acknowledge { delivery: DeliveryView },
    Retry,
    Fail(SessionErrorView),
}

impl View for GetStep {
    type V = GetStepView;

    open spec fn view(&self) -> GetStepView {
        match self {
            GetStep::Acknowledge { ack, delivery } => GetStepView::Acknowledge {
                delivery: DeliveryView {
                    sub_id: delivery.sub_id@,
                    message_no: delivery.message_no,
                    broker_id: delivery.broker_id@,
                    payload: delivery.payload@,
                },
            },
            GetStep::Retry => GetStepView::Retry,
            GetStep::Fail(error) => GetStepView::Fail(error@),
        }
    }
}

/// How a get goes on for a session that knows `known_id` and expects post
/// `next`, when `reply` comes in and `retries_left` more tries are allowed.
///
/// An error reply ends the get. A delivery from another broker than the
/// known one ends it too. Otherwise the delivered number decides: the
/// expected post is acknowledged, an earlier one is asked for again while
/// tries are left, a later one is a breach of the protocol.
pub open spec fn get_step(known_id: Option<Seq<char>>, next: u64, reply: MessageView, retries_left: u32) -> GetStepView {
    if reply.msg_type == crate::messages::error::REQUEST_HEADER@ {
        GetStepView::Fail(failure(known_id, reply))
    } else {
        match delivery_in(reply) {
            None => GetStepView::Fail(SessionErrorView::UnexpectedReply),
            Some(delivery) => if changed(known_id, delivery.broker_id) {
                GetStepView::Fail(SessionErrorView::BrokerChanged)
            } else if delivery.message_no < next {
                if retries_left == 0 {
                    GetStepView::Fail(SessionErrorView::RetryBudgetExceeded)
                } else {
                    GetStepView::Retry
                }
            } else if delivery.message_no > next {
                GetStepView::Fail(SessionErrorView::ProtocolStateViolation)
            } else {
                GetStepView::Acknowledge { delivery }
            },
        }
    }
}

/// The broker a session knows after the reply to a get: the one it knew, or,
/// if it knew none, the one that delivered.
pub open spec fn known_after_get(known_id: Option<Seq<char>>, reply: MessageView) -> Option<Seq<char>> {
    if reply.msg_type != crate::messages::error::REQUEST_HEADER@ && delivery_in(reply) is Some && known_id is None {
        Some(delivery_in(reply)->0.broker_id)
    } else {
        known_id
    }
}

/// Takes the reply to a get into the session and says how the get goes on.
pub fn on_get_reply(sub_ctx: &mut SubscriberContext, reply: Message, retries_left: u32) -> (step: GetStep)
    ensures
        step@ == get_step(known(old(sub_ctx).known_broker_id), old(sub_ctx).next_post_no, reply@, retries_left),
        step matches GetStep::Acknowledge { ack, delivery } ==> ack.sub_id@ == delivery.sub_id@ && ack.message_no
            == delivery.message_no,
        known(final(sub_ctx).known_broker_id) == known_after_get(known(old(sub_ctx).known_broker_id), reply@),
        final(sub_ctx).sub_id == old(sub_ctx).sub_id,
        final(sub_ctx).topic == old(sub_ctx).topic,
        final(sub_ctx).next_post_no == old(sub_ctx).next_post_no,
{
    if reply.has_type(crate::messages::error::REQUEST_HEADER) {
        return GetStep::Fail(fail_with(&sub_ctx.known_broker_id, reply));
    }
    let delivery = match get::Reply::from_message(reply) {
        Ok(delivery) => delivery,
        Err(_) => {
            return GetStep::Fail(SessionError::UnexpectedReply);
        },
    };
    if broker_changed(&sub_ctx.known_broker_id, &delivery.broker_id) {
        return GetStep::Fail(SessionError::BrokerChanged);
    }
    if sub_ctx.known_broker_id.is_none() {
        sub_ctx.known_broker_id = Some(delivery.broker_id.clone());
    }
    if sub_ctx.next_post_no > delivery.message_no {
        if retries_left == 0 {
            GetStep::Fail(SessionError::RetryBudgetExceeded)
        } else {
            GetStep::Retry
        }
    } else if sub_ctx.next_post_no < delivery.message_no {
        GetStep::Fail(SessionError::ProtocolStateViolation)
    } else {
        let ack = get::Ack::new(delivery.sub_id.clone(), delivery.message_no);
        GetStep::Acknowledge { ack, delivery }
    }
}

/// How a get ends for a session that knows `known_id` when `reply` answers
/// the acknowledgement of a delivery with `payload`.
pub open spec fn ack_outcome(known_id: Option<Seq<char>>, payload: Seq<u8>, reply: MessageView) -> Result<
    Seq<u8>,
    SessionErrorView,
> {
    if reply.msg_type == crate::messages::error::REQUEST_HEADER@ {
        Err(failure(known_id, reply))
    } else if reply.msg_type != get::ACK_REPLY_HEADER@ {
        Err(SessionErrorView::UnexpectedReply)
    } else {
        Ok(payload)
    }
}

/// Takes the reply to an acknowledgement into the session. When the broker
/// confirms, the session expects the next post and the delivered payload is
/// handed out; otherwise the session stays as it is.
pub fn on_ack_reply(sub_ctx: &mut SubscriberContext, delivery: get::Reply, reply: Message) -> (outcome: Result<
    Vec<u8>,
    SessionError,
>)
    requires
        old(sub_ctx).next_post_no < u64::MAX,
    ensures
        match outcome {
            Ok(payload) => Ok::<Seq<u8>, SessionErrorView>(payload@),
            Err(error) => Err(error@),
        } == ack_outcome(known(old(sub_ctx).known_broker_id), delivery.payload@, reply@),
        final(sub_ctx).next_post_no == old(sub_ctx).next_post_no + (if outcome is Ok {
            1int
        } else {
            0int
        }),
        final(sub_ctx).sub_id == old(sub_ctx).sub_id,
        final(sub_ctx).topic == old(sub_ctx).topic,
        final(sub_ctx).known_broker_id == old(sub_ctx).known_broker_id,
{
    if reply.has_type(crate::messages::error::REQUEST_HEADER) {
        return Err(fail_with(&sub_ctx.known_broker_id, reply));
    }
    if !reply.has_type(get::ACK_REPLY_HEADER) {
        return Err(SessionError::UnexpectedReply);
    }
    sub_ctx.increment_next_post_no();
    Ok(delivery.payload)
}

/// How a subscribe ends when `reply` comes in. A broker that holds the
/// subscriber already is no failure.
pub open spec fn subscribe_outcome(reply: MessageView) -> Result<(), SessionErrorView> {
    if reply.msg_type == crate::messages::error::REQUEST_HEADER@ {
        match error_in(reply) {
            None => Err(SessionErrorView::UnexpectedReply),
            Some(error) => if error.kind == BrokerErrorType::SubscriberAlreadyRegistered {
                Ok(())
            } else {
                Err(SessionErrorView::Refused { kind: error.kind, description: error.description })
            },
        }
    } else if subscription_in(reply) is None {
        Err(SessionErrorView::UnexpectedReply)
    } else {
        Ok(())
    }
}

/// Takes the reply to a subscribe into the session. A confirmation makes the
/// session know the broker and expect the post the broker names; any other
/// reply leaves the session as it is.
pub fn on_subscribe_reply(sub_ctx: &mut SubscriberContext, reply: Message) -> (outcome: Result<(), SessionError>)
    ensures
        match outcome {
            Ok(_) => Ok::<(), SessionErrorView>(()),
            Err(error) => Err(error@),
        } == subscribe_outcome(reply@),
        final(sub_ctx).sub_id == old(sub_ctx).sub_id,
        final(sub_ctx).topic == old(sub_ctx).topic,
        match subscription_in(reply@) {
            Some((broker_id, post_offset)) => {
                &&& known(final(sub_ctx).known_broker_id) == Some(broker_id)
                &&& final(sub_ctx).next_post_no == post_offset
            },
            None => {
                &&& final(sub_ctx).known_broker_id == old(sub_ctx).known_broker_id
                &&& final(sub_ctx).next_post_no == old(sub_ctx).next_post_no
            },
        },
{
    proof {
        crate::messages::lemma_kind_labels_distinct();
    }
    if reply.has_type(crate::messages::error::REQUEST_HEADER) {
        return match read_error(reply) {
            None => Err(SessionError::UnexpectedReply),
            Some(e) => match e.error_type {
                BrokerErrorType::SubscriberAlreadyRegistered => Ok(()),
                _ => Err(SessionError::Refused { kind: e.error_type, description: e.description }),
            },
        };
    }
    let confirmation = match subscribe::Reply::from_message(reply) {
        Ok(confirmation) => confirmation,
        Err(_) => {
            return Err(SessionError::UnexpectedReply);
        },
    };
    sub_ctx.known_broker_id = Some(confirmation.broker_id);
    sub_ctx.next_post_no = confirmation.post_offset;
    Ok(())
}

/// How an unsubscribe ends when `reply` comes in. A broker that does not
/// hold the subscriber is no failure.
pub open spec fn unsubscribe_outcome(reply: MessageView) -> Result<(), SessionErrorView> {
    if reply.msg_type == crate::messages::error::REQUEST_HEADER@ {
        match error_in(reply) {
            None => Err(SessionErrorView::UnexpectedReply),
            Some(error) => if error.kind == BrokerErrorType::SubscriberNotRegistered {
                Ok(())
            } else {
                Err(SessionErrorView::Refused { kind: error.kind, description: error.description })
            },
        }
    } else if reply.msg_type != unsubscribe::REPLY_HEADER@ {
        Err(SessionErrorView::UnexpectedReply)
    } else {
        Ok(())
    }
}

/// Takes the reply to an unsubscribe into the session. A confirmation makes
/// the session forget the broker; any other reply leaves it as it is.
pub fn on_unsubscribe_reply(sub_ctx: &mut SubscriberContext, reply: Message) -> (outcome: Result<(), SessionError>)
    ensures
        match outcome {
            Ok(_) => Ok::<(), SessionErrorView>(()),
            Err(error) => Err(error@),
        } == unsubscribe_outcome(reply@),
        final(sub_ctx).sub_id == old(sub_ctx).sub_id,
        final(sub_ctx).topic == old(sub_ctx).topic,
        final(sub_ctx).next_post_no == old(sub_ctx).next_post_no,
        if reply@.msg_type == unsubscribe::REPLY_HEADER@ {
            final(sub_ctx).known_broker_id is None
        } else {
            final(sub_ctx).known_broker_id == old(sub_ctx).known_broker_id
        },
{
    proof {
        crate::messages::lemma_kind_labels_distinct();
    }
    if reply.has_type(crate::messages::error::REQUEST_HEADER) {
        return match read_error(reply) {
            None => Err(SessionError::UnexpectedReply),
            Some(e) => match e.error_type {
                BrokerErrorType::SubscriberNotRegistered => Ok(()),
                _ => Err(SessionError::Refused { kind: e.error_type, description: e.description }),
            },
        };
    }
    if !reply.has_type(unsubscribe::REPLY_HEADER) {
        return Err(SessionError::UnexpectedReply);
    }
    sub_ctx.known_broker_id = None;
    Ok(())
}

/// How a publish goes on after the broker's reply.
#[derive(Debug)]
pub enum PutStep {
    /// The broker accepted the publish.
    Done,
    /// The reply came from another broker than the known one: send
    /// `request`, which publishes the same payload to the same topic under
    /// a newly drawn publish identifier.
    Retry { request: put::Request },
    /// The publish failed.
    Fail(SessionError),
}

/// A [`PutStep`] as plain data. Of a new try it holds what is fixed: the
/// publisher, the topic and the payload.
pub enum PutStepView {
    Done,
    Retry { pub_id: Seq<char>, topic: Seq<char>, payload: Seq<u8> },
    Fail(SessionErrorView),
}

impl View for PutStep {
    type V = PutStepView;

    open spec fn view(&self) -> PutStepView {
        match self {
            PutStep::Done => PutStepView::Done,
            PutStep::Retry { request } => PutStepView::Retry {
                pub_id: request.pub_id@,
                topic: request.topic@,
                payload: request.payload@,
            },
            PutStep::Fail(error) => PutStepView::Fail(error@),
        }
    }
}

/// The broker identity that a reply to a publish shows, if the reply can be
/// read as an error or as a confirmation.
pub open spec fn broker_seen(reply: MessageView) -> Option<Seq<char>> {
    if reply.msg_type == crate::messages::error::REQUEST_HEADER@ {
        match error_in(reply) {
            Some(error) => Some(error.broker_id),
            None => None,
        }
    } else {
        confirmation_in(reply)
    }
}

/// How a new try of a publish by `pub_id` goes on when `retries_left` more
/// tries are allowed.
pub open spec fn new_try(pub_id: Seq<char>, topic: Seq<char>, payload: Seq<u8>, retries_left: u32) -> PutStepView {
    if retries_left == 0 {
        PutStepView::Fail(SessionErrorView::RetryBudgetExceeded)
    } else {
        PutStepView::Retry { pub_id, topic, payload }
    }
}

/// How the publish of `payload` to `topic` goes on for the session of
/// `pub_id` that knows `known_id`, when `reply` comes in and `retries_left`
/// more tries are allowed.
///
/// A reply from another broker than the known one calls for a new try while
/// tries are left. From the known broker, or when none is known, an error
/// reply ends the publish with the refusal and a confirmation ends it well.
pub open spec fn put_step(
    pub_id: Seq<char>,
    known_id: Option<Seq<char>>,
    topic: Seq<char>,
    payload: Seq<u8>,
    reply: MessageView,
    retries_left: u32,
) -> PutStepView {
    match broker_seen(reply) {
        None => PutStepView::Fail(SessionErrorView::UnexpectedReply),
        Some(seen) => if changed(known_id, seen) {
            new_try(pub_id, topic, payload, retries_left)
        } else if reply.msg_type == crate::messages::error::REQUEST_HEADER@ {
            PutStepView::Fail(failure(known_id, reply))
        } else {
            PutStepView::Done
        },
    }
}

/// What becomes of a session and of its publish `request` when the broker
/// turns out to be another one.
fn start_over(pub_ctx: &mut PublisherContext, request: &put::Request, retries_left: u32) -> (step: PutStep)
    ensures
        step@ == new_try(old(pub_ctx).pub_id@, request.topic@, request.payload@, retries_left),
        step matches PutStep::Retry { request: again } ==> is_uuid_v4_text(again.message_uuid@),
        final(pub_ctx).wf(),
        final(pub_ctx).pub_id == old(pub_ctx).pub_id,
        final(pub_ctx).known_broker_id is None,
        final(pub_ctx).published_messages@ == Map::<Seq<char>, crate::keyed::StringSet>::empty(),
{
    pub_ctx.reset_context();
    if retries_left == 0 {
        PutStep::Fail(SessionError::RetryBudgetExceeded)
    } else {
        PutStep::Retry { request: pub_ctx.create_put_request(request.topic.clone(), request.payload.clone()) }
    }
}

/// Takes the reply to the publish `request` into the session and says how
/// the publish goes on.
///
/// A reply from another broker than the known one resets the session. A
/// confirmation makes the session know the broker and puts the publish on
/// record. Any other reply leaves the session as it is.
pub fn on_put_reply(pub_ctx: &mut PublisherContext, request: &put::Request, reply: Message, retries_left: u32) -> (step:
    PutStep)
    requires
        old(pub_ctx).wf(),
    ensures
        step@ == put_step(
            old(pub_ctx).pub_id@,
            known(old(pub_ctx).known_broker_id),
            request.topic@,
            request.payload@,
            reply@,
            retries_left,
        ),
        step matches PutStep::Retry { request: again } ==> is_uuid_v4_text(again.message_uuid@),
        final(pub_ctx).wf(),
        final(pub_ctx).pub_id == old(pub_ctx).pub_id,
        match broker_seen(reply@) {
            Some(seen) if changed(known(old(pub_ctx).known_broker_id), seen) => {
                &&& final(pub_ctx).known_broker_id is None
                &&& final(pub_ctx).published_messages@ == Map::<Seq<char>, crate::keyed::StringSet>::empty()
            },
            Some(seen) if reply@.msg_type != crate::messages::error::REQUEST_HEADER@ => {
                &&& known(final(pub_ctx).known_broker_id) == Some(seen)
                &&& forall|t: Seq<char>, m: Seq<char>|
                    final(pub_ctx).recorded(t, m) <==> old(pub_ctx).recorded(t, m) || (t == request.topic@ && m
                        == request.message_uuid@)
            },
            _ => {
                &&& final(pub_ctx).known_broker_id == old(pub_ctx).known_broker_id
                &&& final(pub_ctx).published_messages == old(pub_ctx).published_messages
            },
        },
{
    if reply.has_type(crate::messages::error::REQUEST_HEADER) {
        return match read_error(reply) {
            None => PutStep::Fail(SessionError::UnexpectedReply),
            Some(e) => if broker_changed(&pub_ctx.known_broker_id, &e.broker_id) {
                start_over(pub_ctx, request, retries_left)
            } else {
                PutStep::Fail(SessionError::Refused { kind: e.error_type, description: e.description })
            },
        };
    }
    let confirmation = match put::Reply::from_message(reply) {
        Ok(confirmation) => confirmation,
        Err(_) => {
            return PutStep::Fail(SessionError::UnexpectedReply);
        },
    };
    if broker_changed(&pub_ctx.known_broker_id, &confirmation.broker_id) {
        return start_over(pub_ctx, request, retries_left);
    }
    pub_ctx.known_broker_id = Some(confirmation.broker_id);
    pub_ctx.record_message(&request.topic, request.message_uuid.clone());
    PutStep::Done
}

} // verus!
