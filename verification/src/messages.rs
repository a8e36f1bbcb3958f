//! The messages that clients and the broker exchange.
//!
//! Every message travels as an envelope: a kind label and a payload. The
//! payload is a document, a list of named fields that hold text, a number or
//! bytes. Each protocol structure says which fields it is made of, writes
//! itself as a document and reads itself back from one.

use vstd::prelude::*;

pub mod error;
pub mod get;
pub mod put;
pub mod subscribe;
pub mod unsubscribe;

verus! {

/// Name of the field that holds a subscriber's id.
pub const SUB_ID: &'static str = "sub_id";

/// Name of the field that holds a topic's name.
pub const TOPIC: &'static str = "topic";

/// Name of the field that holds a post number.
pub const MESSAGE_NO: &'static str = "message_no";

/// Name of the field that holds the broker's identity.
pub const BROKER_ID: &'static str = "broker_id";

/// Name of the field that holds a post's bytes.
pub const PAYLOAD: &'static str = "payload";

/// Name of the field that holds a publisher's id.
pub const PUB_ID: &'static str = "pub_id";

/// Name of the field that holds a publish identifier.
pub const MESSAGE_UUID: &'static str = "message_uuid";

/// Name of the field that holds the number of the first post a new subscriber reads.
pub const POST_OFFSET: &'static str = "post_offset";

/// Name of the field that holds the kind of an error.
pub const ERROR_TYPE: &'static str = "error_type";

/// Name of the field that holds the wording of an error.
pub const DESCRIPTION: &'static str = "description";

/// The field names differ from one another.
pub proof fn lemma_field_names_distinct()
    ensures
        SUB_ID@ != TOPIC@,
        SUB_ID@ != MESSAGE_NO@,
        SUB_ID@ != BROKER_ID@,
        SUB_ID@ != PAYLOAD@,
        SUB_ID@ != PUB_ID@,
        SUB_ID@ != MESSAGE_UUID@,
        SUB_ID@ != POST_OFFSET@,
        SUB_ID@ != ERROR_TYPE@,
        SUB_ID@ != DESCRIPTION@,
        TOPIC@ != MESSAGE_NO@,
        TOPIC@ != BROKER_ID@,
        TOPIC@ != PAYLOAD@,
        TOPIC@ != PUB_ID@,
        TOPIC@ != MESSAGE_UUID@,
        TOPIC@ != POST_OFFSET@,
        TOPIC@ != ERROR_TYPE@,
        TOPIC@ != DESCRIPTION@,
        MESSAGE_NO@ != BROKER_ID@,
        MESSAGE_NO@ != PAYLOAD@,
        MESSAGE_NO@ != PUB_ID@,
        MESSAGE_NO@ != MESSAGE_UUID@,
        MESSAGE_NO@ != POST_OFFSET@,
        MESSAGE_NO@ != ERROR_TYPE@,
        MESSAGE_NO@ != DESCRIPTION@,
        BROKER_ID@ != PAYLOAD@,
        BROKER_ID@ != PUB_ID@,
        BROKER_ID@ != MESSAGE_UUID@,
        BROKER_ID@ != POST_OFFSET@,
        BROKER_ID@ != ERROR_TYPE@,
        BROKER_ID@ != DESCRIPTION@,
        PAYLOAD@ != PUB_ID@,
        PAYLOAD@ != MESSAGE_UUID@,
        PAYLOAD@ != POST_OFFSET@,
        PAYLOAD@ != ERROR_TYPE@,
        PAYLOAD@ != DESCRIPTION@,
        PUB_ID@ != MESSAGE_UUID@,
        PUB_ID@ != POST_OFFSET@,
        PUB_ID@ != ERROR_TYPE@,
        PUB_ID@ != DESCRIPTION@,
        MESSAGE_UUID@ != POST_OFFSET@,
        MESSAGE_UUID@ != ERROR_TYPE@,
        MESSAGE_UUID@ != DESCRIPTION@,
        POST_OFFSET@ != ERROR_TYPE@,
        POST_OFFSET@ != DESCRIPTION@,
        ERROR_TYPE@ != DESCRIPTION@,
{
    reveal_strlit("sub_id");
    reveal_strlit("topic");
    reveal_strlit("message_no");
    reveal_strlit("broker_id");
    reveal_strlit("payload");
    reveal_strlit("pub_id");
    reveal_strlit("message_uuid");
    reveal_strlit("post_offset");
    reveal_strlit("error_type");
    reveal_strlit("description");
    assert(SUB_ID@.len() == 6 && SUB_ID@[0] == 's');
    assert(TOPIC@.len() == 5);
    assert(MESSAGE_NO@.len() == 10 && MESSAGE_NO@[0] == 'm');
    assert(BROKER_ID@.len() == 9);
    assert(PAYLOAD@.len() == 7);
    assert(PUB_ID@.len() == 6 && PUB_ID@[0] == 'p');
    assert(MESSAGE_UUID@.len() == 12);
    assert(POST_OFFSET@.len() == 11 && POST_OFFSET@[0] == 'p');
    assert(ERROR_TYPE@.len() == 10 && ERROR_TYPE@[0] == 'e');
    assert(DESCRIPTION@.len() == 11 && DESCRIPTION@[0] == 'd');
}

/// The kind labels differ from one another.
pub proof fn lemma_kind_labels_distinct()
    ensures
        error::REQUEST_HEADER@ != get::REQUEST_HEADER@,
        error::REQUEST_HEADER@ != get::REPLY_HEADER@,
        error::REQUEST_HEADER@ != get::ACK_HEADER@,
        error::REQUEST_HEADER@ != get::ACK_REPLY_HEADER@,
        error::REQUEST_HEADER@ != put::REQUEST_HEADER@,
        error::REQUEST_HEADER@ != put::REPLY_HEADER@,
        error::REQUEST_HEADER@ != subscribe::REQUEST_HEADER@,
        error::REQUEST_HEADER@ != subscribe::REPLY_HEADER@,
        error::REQUEST_HEADER@ != unsubscribe::REQUEST_HEADER@,
        error::REQUEST_HEADER@ != unsubscribe::REPLY_HEADER@,
        get::REQUEST_HEADER@ != get::REPLY_HEADER@,
        get::REQUEST_HEADER@ != get::ACK_HEADER@,
        get::REQUEST_HEADER@ != get::ACK_REPLY_HEADER@,
        get::REQUEST_HEADER@ != put::REQUEST_HEADER@,
        get::REQUEST_HEADER@ != put::REPLY_HEADER@,
        get::REQUEST_HEADER@ != subscribe::REQUEST_HEADER@,
        get::REQUEST_HEADER@ != subscribe::REPLY_HEADER@,
        get::REQUEST_HEADER@ != unsubscribe::REQUEST_HEADER@,
        get::REQUEST_HEADER@ != unsubscribe::REPLY_HEADER@,
        get::REPLY_HEADER@ != get::ACK_HEADER@,
        get::REPLY_HEADER@ != get::ACK_REPLY_HEADER@,
        get::REPLY_HEADER@ != put::REQUEST_HEADER@,
        get::REPLY_HEADER@ != put::REPLY_HEADER@,
        get::REPLY_HEADER@ != subscribe::REQUEST_HEADER@,
        get::REPLY_HEADER@ != subscribe::REPLY_HEADER@,
        get::REPLY_HEADER@ != unsubscribe::REQUEST_HEADER@,
        get::REPLY_HEADER@ != unsubscribe::REPLY_HEADER@,
        get::ACK_HEADER@ != get::ACK_REPLY_HEADER@,
        get::ACK_HEADER@ != put::REQUEST_HEADER@,
        get::ACK_HEADER@ != put::REPLY_HEADER@,
        get::ACK_HEADER@ != subscribe::REQUEST_HEADER@,
        get::ACK_HEADER@ != subscribe::REPLY_HEADER@,
        get::ACK_HEADER@ != unsubscribe::REQUEST_HEADER@,
        get::ACK_HEADER@ != unsubscribe::REPLY_HEADER@,
        get::ACK_REPLY_HEADER@ != put::REQUEST_HEADER@,
        get::ACK_REPLY_HEADER@ != put::REPLY_HEADER@,
        get::ACK_REPLY_HEADER@ != subscribe::REQUEST_HEADER@,
        get::ACK_REPLY_HEADER@ != subscribe::REPLY_HEADER@,
        get::ACK_REPLY_HEADER@ != unsubscribe::REQUEST_HEADER@,
        get::ACK_REPLY_HEADER@ != unsubscribe::REPLY_HEADER@,
        put::REQUEST_HEADER@ != put::REPLY_HEADER@,
        put::REQUEST_HEADER@ != subscribe::REQUEST_HEADER@,
        put::REQUEST_HEADER@ != subscribe::REPLY_HEADER@,
        put::REQUEST_HEADER@ != unsubscribe::REQUEST_HEADER@,
        put::REQUEST_HEADER@ != unsubscribe::REPLY_HEADER@,
        put::REPLY_HEADER@ != subscribe::REQUEST_HEADER@,
        put::REPLY_HEADER@ != subscribe::REPLY_HEADER@,
        put::REPLY_HEADER@ != unsubscribe::REQUEST_HEADER@,
        put::REPLY_HEADER@ != unsubscribe::REPLY_HEADER@,
        subscribe::REQUEST_HEADER@ != subscribe::REPLY_HEADER@,
        subscribe::REQUEST_HEADER@ != unsubscribe::REQUEST_HEADER@,
        subscribe::REQUEST_HEADER@ != unsubscribe::REPLY_HEADER@,
        subscribe::REPLY_HEADER@ != unsubscribe::REQUEST_HEADER@,
        subscribe::REPLY_HEADER@ != unsubscribe::REPLY_HEADER@,
        unsubscribe::REQUEST_HEADER@ != unsubscribe::REPLY_HEADER@,
{
    reveal_strlit("ERR");
    reveal_strlit("GET");
    reveal_strlit("GET_REPL");
    reveal_strlit("GET_ACK");
    reveal_strlit("GET_ACK_REPL");
    reveal_strlit("PUT");
    reveal_strlit("PUT_REPL");
    reveal_strlit("SUB");
    reveal_strlit("SUB_REPL");
    reveal_strlit("UNSUB");
    reveal_strlit("UNSUB_REPL");
    assert(error::REQUEST_HEADER@.len() == 3 && error::REQUEST_HEADER@[0] == 'E');
    assert(get::REQUEST_HEADER@.len() == 3 && get::REQUEST_HEADER@[0] == 'G');
    assert(get::REPLY_HEADER@.len() == 8 && get::REPLY_HEADER@[0] == 'G');
    assert(get::ACK_HEADER@.len() == 7);
    assert(get::ACK_REPLY_HEADER@.len() == 12);
    assert(put::REQUEST_HEADER@.len() == 3 && put::REQUEST_HEADER@[0] == 'P');
    assert(put::REPLY_HEADER@.len() == 8 && put::REPLY_HEADER@[0] == 'P');
    assert(subscribe::REQUEST_HEADER@.len() == 3 && subscribe::REQUEST_HEADER@[0] == 'S');
    assert(subscribe::REPLY_HEADER@.len() == 8 && subscribe::REPLY_HEADER@[0] == 'S');
    assert(unsubscribe::REQUEST_HEADER@.len() == 5);
    assert(unsubscribe::REPLY_HEADER@.len() == 10);
}

/// Why an envelope could not be read as a given protocol structure.
#[derive(Debug)]
pub enum DeserializationErrors {
    /// The envelope's kind label is that of another structure.
    IncompatibleMessageType,
    /// The payload lacks a field of the structure, or holds it with another
    /// kind of value. The string is the name of the first such field.
    InvalidMessageStructure(String),
}

/// What a field of a document holds.
#[derive(Debug)]
pub enum Value {
    Text(String),
    Number(u64),
    Bytes(Vec<u8>),
    /// A value of a kind that no protocol structure is made of.
    Other,
}

/// A [`Value`] as plain data.
pub enum ValueView {
    Text(Seq<char>),
    Number(u64),
    Bytes(Seq<u8>),
    Other,
}

impl View for Value {
    type V = ValueView;

    open spec fn view(&self) -> ValueView {
        match self {
            Value::Text(s) => ValueView::Text(s@),
            Value::Number(n) => ValueView::Number(*n),
            Value::Bytes(b) => ValueView::Bytes(b@),
            Value::Other => ValueView::Other,
        }
    }
}

/// A named value.
#[derive(Debug)]
pub struct Field {
    pub name: String,
    pub value: Value,
}

/// A [`Field`] as plain data.
pub struct FieldView {
    pub name: Seq<char>,
    pub value: ValueView,
}

impl View for Field {
    type V = FieldView;

    open spec fn view(&self) -> FieldView {
        FieldView { name: self.name@, value: self.value@ }
    }
}

/// A list of named values.
#[derive(Debug)]
pub struct Document {
    pub fields: Vec<Field>,
}

impl View for Document {
    type V = Seq<FieldView>;

    open spec fn view(&self) -> Seq<FieldView> {
        Seq::new(self.fields@.len(), |i: int| self.fields@[i]@)
    }
}

/// The value of the first field of `doc` called `name`.
pub open spec fn lookup(doc: Seq<FieldView>, name: Seq<char>) -> Option<ValueView>
    decreases doc.len(),
{
    if doc.len() == 0 {
        None
    } else {
        match lookup(doc.drop_last(), name) {
            Some(value) => Some(value),
            None => if doc.last().name == name {
                Some(doc.last().value)
            } else {
                None
            },
        }
    }
}

/// The text held by the field `name`, if there is such a field and it holds text.
pub open spec fn text_of(doc: Seq<FieldView>, name: Seq<char>) -> Option<Seq<char>> {
    match lookup(doc, name) {
        Some(ValueView::Text(s)) => Some(s),
        _ => None,
    }
}

/// The number held by the field `name`, if there is such a field and it holds a number.
pub open spec fn number_of(doc: Seq<FieldView>, name: Seq<char>) -> Option<u64> {
    match lookup(doc, name) {
        Some(ValueView::Number(n)) => Some(n),
        _ => None,
    }
}

/// The bytes held by the field `name`, if there is such a field and it holds bytes.
pub open spec fn bytes_of(doc: Seq<FieldView>, name: Seq<char>) -> Option<Seq<u8>> {
    match lookup(doc, name) {
        Some(ValueView::Bytes(b)) => Some(b),
        _ => None,
    }
}

/// A field appended to a document is found under its name unless an earlier
/// field has that name; other names are found as before.
pub proof fn lemma_lookup_push(doc: Seq<FieldView>, field: FieldView, name: Seq<char>)
    ensures
        lookup(doc.push(field), name) == match lookup(doc, name) {
            Some(value) => Some(value),
            None => if field.name == name {
                Some(field.value)
            } else {
                None
            },
        },
{
    assert(doc.push(field).drop_last() =~= doc);
}

/// What is found in the first `i` fields is found in the first `j >= i`.
pub proof fn lemma_lookup_extends(doc: Seq<FieldView>, i: int, j: int, name: Seq<char>)
    requires
        0 <= i <= j <= doc.len(),
        lookup(doc.take(i), name) is Some,
    ensures
        lookup(doc.take(j), name) == lookup(doc.take(i), name),
    decreases j - i,
{
    if i < j {
        lemma_lookup_extends(doc, i, j - 1, name);
        assert(doc.take(j).drop_last() =~= doc.take(j - 1));
    }
}

impl Document {
    /// A document without fields.
    pub fn new() -> (doc: Document)
        ensures
            doc@ == Seq::<FieldView>::empty(),
    {
        let doc = Document { fields: Vec::new() };
        assert(doc@ =~= Seq::<FieldView>::empty());
        doc
    }

    /// Appends a field.
    pub fn put(&mut self, name: &str, value: Value)
        ensures
            final(self)@ == old(self)@.push(FieldView { name: name@, value: value@ }),
    {
        self.fields.push(Field { name: name.to_owned(), value });
        assert(final(self)@ =~= old(self)@.push(FieldView { name: name@, value: value@ }));
    }

    /// Appends a field that holds text.
    pub fn put_text(&mut self, name: &str, text: String)
        ensures
            final(self)@ == old(self)@.push(FieldView { name: name@, value: ValueView::Text(text@) }),
    {
        self.put(name, Value::Text(text));
    }

    /// Appends a field that holds a number.
    pub fn put_number(&mut self, name: &str, number: u64)
        ensures
            final(self)@ == old(self)@.push(FieldView { name: name@, value: ValueView::Number(number) }),
    {
        self.put(name, Value::Number(number));
    }

    /// Appends a field that holds bytes.
    pub fn put_bytes(&mut self, name: &str, bytes: Vec<u8>)
        ensures
            final(self)@ == old(self)@.push(FieldView { name: name@, value: ValueView::Bytes(bytes@) }),
    {
        self.put(name, Value::Bytes(bytes));
    }

    /// The value of the first field called `name`.
    pub fn get(&self, name: &str) -> (value: Option<&Value>)
        ensures
            match value {
                Some(v) => lookup(self@, name@) == Some(v@),
                None => lookup(self@, name@) is None,
            },
    {
        let wanted = name.to_owned();
        let mut i: usize = 0;
        while i < self.fields.len()
            invariant
                i <= self.fields@.len(),
                wanted@ == name@,
                lookup(self@.take(i as int), name@) is None,
            decreases self.fields@.len() - i,
        {
            proof {
                assert(self@.take(i + 1).drop_last() =~= self@.take(i as int));
            }
            if self.fields[i].name == wanted {
                proof {
                    lemma_lookup_extends(self@, i + 1, self@.len() as int, name@);
                    assert(self@.take(self@.len() as int) =~= self@);
                }
                return Some(&self.fields[i].value);
            }
            i += 1;
        }
        assert(self@.take(self@.len() as int) =~= self@);
        None
    }

    /// A copy of the text held by the field `name`.
    pub fn get_text(&self, name: &str) -> (text: Option<String>)
        ensures
            match text {
                Some(s) => text_of(self@, name@) == Some(s@),
                None => text_of(self@, name@) is None,
            },
    {
        match self.get(name) {
            Some(Value::Text(s)) => Some(s.clone()),
            _ => None,
        }
    }

    /// The number held by the field `name`.
    pub fn get_number(&self, name: &str) -> (number: Option<u64>)
        ensures
            number == number_of(self@, name@),
    {
        match self.get(name) {
            Some(Value::Number(n)) => Some(*n),
            _ => None,
        }
    }

    /// A copy of the bytes held by the field `name`.
    pub fn get_bytes(&self, name: &str) -> (bytes: Option<Vec<u8>>)
        ensures
            match bytes {
                Some(b) => bytes_of(self@, name@) == Some(b@),
                None => bytes_of(self@, name@) is None,
            },
    {
        match self.get(name) {
            Some(Value::Bytes(b)) => Some(b.clone()),
            _ => None,
        }
    }
}

/// The envelope of every request and reply.
#[derive(Debug)]
pub struct Message {
    pub msg_type: String,
    pub payload: Document,
}

/// A [`Message`] as plain data.
pub struct MessageView {
    pub msg_type: Seq<char>,
    pub payload: Seq<FieldView>,
}

impl View for Message {
    type V = MessageView;

    open spec fn view(&self) -> MessageView {
        MessageView { msg_type: self.msg_type@, payload: self.payload@ }
    }
}

impl Message {
    /// An envelope of kind `msg_type` around `payload`.
    pub fn new(msg_type: String, payload: Document) -> (message: Message)
        ensures
            message@ == (MessageView { msg_type: msg_type@, payload: payload@ }),
    {
        Message { msg_type, payload }
    }

    /// Whether the envelope's kind label is `label`.
    pub fn has_type(&self, label: &str) -> (same: bool)
        ensures
            same == (self@.msg_type == label@),
    {
        self.msg_type == label.to_owned()
    }
}

/// The failure to read the field `name`.
pub fn invalid_field(name: &str) -> (error: DeserializationErrors)
    ensures
        error matches DeserializationErrors::InvalidMessageStructure(field) && field@ == name@,
{
    DeserializationErrors::InvalidMessageStructure(name.to_owned())
}

/// A protocol structure that travels in an envelope.
pub trait NetworkTradeable<T> {
    /// The envelope that carries this structure.
    fn as_message(&self) -> Message;

    /// The structure that an envelope carries.
    fn from_message(message: Message) -> Result<T, DeserializationErrors>;
}

} // verus!
