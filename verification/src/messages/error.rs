//! Error replies of the broker.

use vstd::prelude::*;
use super::{
    invalid_field, lemma_field_names_distinct, lemma_lookup_push, text_of, DeserializationErrors,
    Document, FieldView, Message, MessageView, NetworkTradeable, ValueView, BROKER_ID, DESCRIPTION,
    ERROR_TYPE,
};

verus! {

/// Kind label of an error reply.
pub const REQUEST_HEADER: &'static str = "ERR";

/// Why a request was refused.
#[derive(Clone, Copy, Debug, PartialEq, Eq, Structural)]
pub enum BrokerErrorType {
    /// The subscriber id has no entry at the broker.
    SubscriberNotRegistered,
    /// The subscriber id already has an entry, on whatever topic.
    SubscriberAlreadyRegistered,
    /// The topic named in a publish does not exist.
    UnknownTopic,
    /// The publish identifier was accepted before.
    DuplicatePublish,
    /// The topic of a request is not the one the subscriber registered.
    TopicMismatch,
    /// The acknowledged post is not the one after the subscriber's cursor.
    AckMismatch,
    /// The request's kind is not known, or its payload cannot be read.
    UnknownMessage,
    /// The post after the subscriber's cursor is not in the topic's log.
    NoPostsAvailable,
    /// The request is out of turn for the subscriber's wait state.
    ProtocolStateViolation,
    /// A client session gave up after retrying.
    RetryBudgetExceeded,
}

/// An error reply: the kind of the error, the identity of the broker that
/// raised it, and its wording.
#[derive(Debug)]
pub struct BrokerErrorMessage {
    pub error_type: BrokerErrorType,
    pub broker_id: String,
    pub description: String,
}

impl BrokerErrorType {
    /// The name under which the kind travels.
    pub open spec fn spec_name(self) -> Seq<char> {
        match self {
            BrokerErrorType::SubscriberNotRegistered => "SubscriberNotRegistered"@,
            BrokerErrorType::SubscriberAlreadyRegistered => "SubscriberAlreadyRegistered"@,
            BrokerErrorType::UnknownTopic => "UnknownTopic"@,
            BrokerErrorType::DuplicatePublish => "DuplicatePublish"@,
            BrokerErrorType::TopicMismatch => "TopicMismatch"@,
            BrokerErrorType::AckMismatch => "AckMismatch"@,
            BrokerErrorType::UnknownMessage => "UnknownMessage"@,
            BrokerErrorType::NoPostsAvailable => "NoPostsAvailable"@,
            BrokerErrorType::ProtocolStateViolation => "ProtocolStateViolation"@,
            BrokerErrorType::RetryBudgetExceeded => "RetryBudgetExceeded"@,
        }
    }

    /// The kind that travels under `name`.
    pub open spec fn spec_from_name(name: Seq<char>) -> Option<BrokerErrorType> {
        if name == "SubscriberNotRegistered"@ {
            Some(BrokerErrorType::SubscriberNotRegistered)
        } else if name == "SubscriberAlreadyRegistered"@ {
            Some(BrokerErrorType::SubscriberAlreadyRegistered)
        } else if name == "UnknownTopic"@ {
            Some(BrokerErrorType::UnknownTopic)
        } else if name == "DuplicatePublish"@ {
            Some(BrokerErrorType::DuplicatePublish)
        } else if name == "TopicMismatch"@ {
            Some(BrokerErrorType::TopicMismatch)
        } else if name == "AckMismatch"@ {
            Some(BrokerErrorType::AckMismatch)
        } else if name == "UnknownMessage"@ {
            Some(BrokerErrorType::UnknownMessage)
        } else if name == "NoPostsAvailable"@ {
            Some(BrokerErrorType::NoPostsAvailable)
        } else if name == "ProtocolStateViolation"@ {
            Some(BrokerErrorType::ProtocolStateViolation)
        } else if name == "RetryBudgetExceeded"@ {
            Some(BrokerErrorType::RetryBudgetExceeded)
        } else {
            None
        }
    }

    /// The wording that goes with the kind.
    pub open spec fn spec_description(self) -> Seq<char> {
        match self {
            BrokerErrorType::SubscriberNotRegistered => "You are not subscribed to that topic"@,
            BrokerErrorType::SubscriberAlreadyRegistered => "You are already subscribed to a topic"@,
            BrokerErrorType::UnknownTopic => "The topic mentioned in the request does not exist"@,
            BrokerErrorType::DuplicatePublish => "The message you sent is a duplicate message"@,
            BrokerErrorType::TopicMismatch => "The topic you are subscribed is different from the one you submitted"@,
            BrokerErrorType::AckMismatch => "The ack message id did not match with the last read post"@,
            BrokerErrorType::UnknownMessage => "Couldn't recognize the type of your message"@,
            BrokerErrorType::NoPostsAvailable => "There are still no posts in that topic"@,
            BrokerErrorType::ProtocolStateViolation => "The request is out of turn for your subscription"@,
            BrokerErrorType::RetryBudgetExceeded => "The request was given up after too many attempts"@,
        }
    }

    /// A kind is read back from its own name.
    pub proof fn lemma_name_round_trip(self)
        ensures
            Self::spec_from_name(self.spec_name()) == Some(self),
    {
        reveal_strlit("SubscriberNotRegistered");
        reveal_strlit("SubscriberAlreadyRegistered");
        reveal_strlit("UnknownTopic");
        reveal_strlit("DuplicatePublish");
        reveal_strlit("TopicMismatch");
        reveal_strlit("AckMismatch");
        reveal_strlit("UnknownMessage");
        reveal_strlit("NoPostsAvailable");
        reveal_strlit("ProtocolStateViolation");
        reveal_strlit("RetryBudgetExceeded");
        assert("SubscriberNotRegistered"@.len() == 23);
        assert("SubscriberAlreadyRegistered"@.len() == 27);
        assert("UnknownTopic"@.len() == 12);
        assert("DuplicatePublish"@.len() == 16 && "DuplicatePublish"@[0] == 'D');
        assert("TopicMismatch"@.len() == 13);
        assert("AckMismatch"@.len() == 11);
        assert("UnknownMessage"@.len() == 14);
        assert("NoPostsAvailable"@.len() == 16 && "NoPostsAvailable"@[0] == 'N');
        assert("ProtocolStateViolation"@.len() == 22);
        assert("RetryBudgetExceeded"@.len() == 19);
    }

    /// The name under which the kind travels.
    pub fn name(&self) -> (name: &'static str)
        ensures
            name@ == self.spec_name(),
    {
        match self {
            BrokerErrorType::SubscriberNotRegistered => "SubscriberNotRegistered",
            BrokerErrorType::SubscriberAlreadyRegistered => "SubscriberAlreadyRegistered",
            BrokerErrorType::UnknownTopic => "UnknownTopic",
            BrokerErrorType::DuplicatePublish => "DuplicatePublish",
            BrokerErrorType::TopicMismatch => "TopicMismatch",
            BrokerErrorType::AckMismatch => "AckMismatch",
            BrokerErrorType::UnknownMessage => "UnknownMessage",
            BrokerErrorType::NoPostsAvailable => "NoPostsAvailable",
            BrokerErrorType::ProtocolStateViolation => "ProtocolStateViolation",
            BrokerErrorType::RetryBudgetExceeded => "RetryBudgetExceeded",
        }
    }

    /// The kind that travels under `name`, if it is the name of one.
    pub fn from_name(name: &String) -> (kind: Option<BrokerErrorType>)
        ensures
            kind == Self::spec_from_name(name@),
    {
        if *name == "SubscriberNotRegistered".to_owned() {
            Some(BrokerErrorType::SubscriberNotRegistered)
        } else if *name == "SubscriberAlreadyRegistered".to_owned() {
            Some(BrokerErrorType::SubscriberAlreadyRegistered)
        } else if *name == "UnknownTopic".to_owned() {
            Some(BrokerErrorType::UnknownTopic)
        } else if *name == "DuplicatePublish".to_owned() {
            Some(BrokerErrorType::DuplicatePublish)
        } else if *name == "TopicMismatch".to_owned() {
            Some(BrokerErrorType::TopicMismatch)
        } else if *name == "AckMismatch".to_owned() {
            Some(BrokerErrorType::AckMismatch)
        } else if *name == "UnknownMessage".to_owned() {
            Some(BrokerErrorType::UnknownMessage)
        } else if *name == "NoPostsAvailable".to_owned() {
            Some(BrokerErrorType::NoPostsAvailable)
        } else if *name == "ProtocolStateViolation".to_owned() {
            Some(BrokerErrorType::ProtocolStateViolation)
        } else if *name == "RetryBudgetExceeded".to_owned() {
            Some(BrokerErrorType::RetryBudgetExceeded)
        } else {
            None
        }
    }
}

/// The document of an error reply; the kind travels under its name.
pub open spec fn error_payload(error_type: BrokerErrorType, broker_id: Seq<char>, description: Seq<char>) -> Seq<FieldView> {
    Seq::<FieldView>::empty().push(
        FieldView { name: ERROR_TYPE@, value: ValueView::Text(error_type.spec_name()) },
    ).push(
        FieldView { name: BROKER_ID@, value: ValueView::Text(broker_id) },
    ).push(
        FieldView { name: DESCRIPTION@, value: ValueView::Text(description) },
    )
}

/// An error reply's document holds its three fields.
pub proof fn lemma_error_payload(error_type: BrokerErrorType, broker_id: Seq<char>, description: Seq<char>)
    ensures
        text_of(error_payload(error_type, broker_id, description), ERROR_TYPE@) == Some(error_type.spec_name()),
        text_of(error_payload(error_type, broker_id, description), BROKER_ID@) == Some(broker_id),
        text_of(error_payload(error_type, broker_id, description), DESCRIPTION@) == Some(description),
{
    lemma_field_names_distinct();
    let f0 = FieldView { name: ERROR_TYPE@, value: ValueView::Text(error_type.spec_name()) };
    let f1 = FieldView { name: BROKER_ID@, value: ValueView::Text(broker_id) };
    let f2 = FieldView { name: DESCRIPTION@, value: ValueView::Text(description) };
    let d0 = Seq::<FieldView>::empty();
    let d1 = d0.push(f0);
    let d2 = d1.push(f1);
    lemma_lookup_push(d0, f0, ERROR_TYPE@);
    lemma_lookup_push(d0, f0, BROKER_ID@);
    lemma_lookup_push(d0, f0, DESCRIPTION@);
    lemma_lookup_push(d1, f1, ERROR_TYPE@);
    lemma_lookup_push(d1, f1, BROKER_ID@);
    lemma_lookup_push(d1, f1, DESCRIPTION@);
    lemma_lookup_push(d2, f2, ERROR_TYPE@);
    lemma_lookup_push(d2, f2, BROKER_ID@);
    lemma_lookup_push(d2, f2, DESCRIPTION@);
}

impl BrokerErrorMessage {
    /// The error reply of kind `error_type` from the broker `broker_id`, with
    /// the wording that goes with the kind.
    pub fn new(error_type: BrokerErrorType, broker_id: String) -> (error: BrokerErrorMessage)
        ensures
            error.error_type == error_type,
            error.broker_id == broker_id,
            error.description@ == error_type.spec_description(),
    {
        let description = match error_type {
            BrokerErrorType::SubscriberNotRegistered => "You are not subscribed to that topic",
            BrokerErrorType::SubscriberAlreadyRegistered => "You are already subscribed to a topic",
            BrokerErrorType::UnknownTopic => "The topic mentioned in the request does not exist",
            BrokerErrorType::DuplicatePublish => "The message you sent is a duplicate message",
            BrokerErrorType::TopicMismatch => "The topic you are subscribed is different from the one you submitted",
            BrokerErrorType::AckMismatch => "The ack message id did not match with the last read post",
            BrokerErrorType::UnknownMessage => "Couldn't recognize the type of your message",
            BrokerErrorType::NoPostsAvailable => "There are still no posts in that topic",
            BrokerErrorType::ProtocolStateViolation => "The request is out of turn for your subscription",
            BrokerErrorType::RetryBudgetExceeded => "The request was given up after too many attempts",
        };
        BrokerErrorMessage { error_type, broker_id, description: description.to_owned() }
    }

    /// How an envelope reads as an error reply. The kind must travel under
    /// the name of a kind.
    pub open spec fn reads_as(message: MessageView, result: Result<BrokerErrorMessage, DeserializationErrors>) -> bool {
        if message.msg_type != REQUEST_HEADER@ {
            result matches Err(DeserializationErrors::IncompatibleMessageType)
        } else if text_of(message.payload, ERROR_TYPE@) is None || BrokerErrorType::spec_from_name(
            text_of(message.payload, ERROR_TYPE@)->0,
        ) is None {
            result matches Err(DeserializationErrors::InvalidMessageStructure(field)) && field@ == ERROR_TYPE@
        } else if text_of(message.payload, BROKER_ID@) is None {
            result matches Err(DeserializationErrors::InvalidMessageStructure(field)) && field@ == BROKER_ID@
        } else if text_of(message.payload, DESCRIPTION@) is None {
            result matches Err(DeserializationErrors::InvalidMessageStructure(field)) && field@ == DESCRIPTION@
        } else {
            &&& result matches Ok(error)
            &&& Some(error.error_type) == BrokerErrorType::spec_from_name(text_of(message.payload, ERROR_TYPE@)->0)
            &&& Some(error.broker_id@) == text_of(message.payload, BROKER_ID@)
            &&& Some(error.description@) == text_of(message.payload, DESCRIPTION@)
        }
    }
}

/// An error reply that was written to an envelope is read back from it as it was.
pub proof fn lemma_error_round_trip(
    error_type: BrokerErrorType,
    broker_id: Seq<char>,
    description: Seq<char>,
    result: Result<BrokerErrorMessage, DeserializationErrors>,
)
    requires
        BrokerErrorMessage::reads_as(
            MessageView { msg_type: REQUEST_HEADER@, payload: error_payload(error_type, broker_id, description) },
            result,
        ),
    ensures
        result matches Ok(error),
        result matches Ok(error) ==> error.error_type == error_type,
        result matches Ok(error) ==> error.broker_id@ == broker_id,
        result matches Ok(error) ==> error.description@ == description,
{
    lemma_error_payload(error_type, broker_id, description);
    error_type.lemma_name_round_trip();
}

impl NetworkTradeable<BrokerErrorMessage> for BrokerErrorMessage {
    fn as_message(&self) -> (message: Message)
        ensures
            message@.msg_type == REQUEST_HEADER@,
            message@.payload == error_payload(self.error_type, self.broker_id@, self.description@),
    {
        let mut payload = Document::new();
        payload.put_text(ERROR_TYPE, self.error_type.name().to_owned());
        payload.put_text(BROKER_ID, self.broker_id.clone());
        payload.put_text(DESCRIPTION, self.description.clone());
        Message::new(REQUEST_HEADER.to_owned(), payload)
    }

    fn from_message(message: Message) -> (result: Result<BrokerErrorMessage, DeserializationErrors>)
        ensures
            BrokerErrorMessage::reads_as(message@, result),
    {
        if !message.has_type(REQUEST_HEADER) {
            return Err(DeserializationErrors::IncompatibleMessageType);
        }
        let name = match message.payload.get_text(ERROR_TYPE) {
            Some(text) => text,
            None => {
                return Err(invalid_field(ERROR_TYPE));
            },
        };
        let error_type = match BrokerErrorType::from_name(&name) {
            Some(kind) => kind,
            None => {
                return Err(invalid_field(ERROR_TYPE));
            },
        };
        let broker_id = match message.payload.get_text(BROKER_ID) {
            Some(text) => text,
            None => {
                return Err(invalid_field(BROKER_ID));
            },
        };
        let description = match message.payload.get_text(DESCRIPTION) {
            Some(text) => text,
            None => {
                return Err(invalid_field(DESCRIPTION));
            },
        };
        Ok(BrokerErrorMessage { error_type, broker_id, description })
    }
}

} // verus!
