//! The wire protocol: the envelope that a frame carries, its JSON form, and
//! the chat message that a `message` envelope carries in turn.
//!
//! A frame is one JSON object. Its member `messageType` is one of the tags
//! `users`, `register` and `message`; `dataArray` holds the names of a
//! roster, `data` a single string. A member that is `null` counts as absent,
//! and members of other names are not looked at.

use vstd::prelude::*;
use crate::json::{
    object_printable, parse_object, parsed_object, print_object, FieldModel, ItemModel, JsonField,
    JsonItem, JsonObject, ObjectModel,
};

verus! {

/// The kind of an envelope.
#[derive(Clone, Copy, Debug, PartialEq, Eq, Structural)]
pub enum MsgTypes {
    /// A snapshot of the roster.
    Users,
    /// A client announces its name.
    Register,
    /// A chat message.
    Message,
}

/// Why a text is not an envelope.
#[derive(Clone, Copy, Debug, PartialEq, Eq, Structural)]
pub enum DecodeError {
    /// The text is not JSON, or the JSON value is not an object.
    NotAnObject,
    /// `messageType` is absent, not a string, or none of the three tags.
    UnknownKind,
    /// A member is of the wrong JSON type, or the kind does not carry it.
    PayloadMismatch,
    /// The kind needs a payload and the frame has none.
    MissingPayload,
}

/// The unit that travels over the socket. A roster snapshot carries a list
/// of names; a registration and a chat message carry one string or nothing.
#[derive(Clone, Debug, PartialEq, Eq)]
pub enum Envelope {
    Users(Vec<String>),
    Register(Option<String>),
    Message(Option<String>),
}

/// Mathematical model of an [`Envelope`].
#[verifier::ext_equal]
pub enum EnvelopeModel {
    Users(Seq<Seq<char>>),
    Register(Option<Seq<char>>),
    Message(Option<Seq<char>>),
}

/// The texts that a list of strings holds.
pub open spec fn texts(strings: Seq<String>) -> Seq<Seq<char>> {
    strings.map_values(|s: String| s@)
}

/// The text that an optional string holds.
pub open spec fn optional_text(string: Option<String>) -> Option<Seq<char>> {
    match string {
        Some(s) => Some(s@),
        None => None,
    }
}

impl View for Envelope {
    type V = EnvelopeModel;

    open spec fn view(&self) -> EnvelopeModel {
        match self {
            Envelope::Users(names) => EnvelopeModel::Users(texts(names@)),
            Envelope::Register(name) => EnvelopeModel::Register(optional_text(*name)),
            Envelope::Message(data) => EnvelopeModel::Message(optional_text(*data)),
        }
    }
}

impl EnvelopeModel {
    /// The kind of the envelope.
    pub open spec fn kind(self) -> MsgTypes {
        match self {
            EnvelopeModel::Users(_) => MsgTypes::Users,
            EnvelopeModel::Register(_) => MsgTypes::Register,
            EnvelopeModel::Message(_) => MsgTypes::Message,
        }
    }
}

/// The name of the member that holds the kind.
pub open spec fn kind_key() -> Seq<char> {
    "messageType"@
}

/// The name of the member that holds a list of names.
pub open spec fn list_key() -> Seq<char> {
    "dataArray"@
}

/// The name of the member that holds a single string.
pub open spec fn data_key() -> Seq<char> {
    "data"@
}

/// The tag that stands for a kind on the wire.
pub open spec fn tag_of(kind: MsgTypes) -> Seq<char> {
    match kind {
        MsgTypes::Users => "users"@,
        MsgTypes::Register => "register"@,
        MsgTypes::Message => "message"@,
    }
}

/// The kind that a tag stands for.
pub open spec fn kind_of_tag(tag: Seq<char>) -> Option<MsgTypes> {
    if tag == "users"@ {
        Some(MsgTypes::Users)
    } else if tag == "register"@ {
        Some(MsgTypes::Register)
    } else if tag == "message"@ {
        Some(MsgTypes::Message)
    } else {
        None
    }
}

/// The kind that an object announces.
pub open spec fn kind_of(object: ObjectModel) -> Option<MsgTypes> {
    if object.contains_key(kind_key()) {
        match object[kind_key()] {
            FieldModel::Text(tag) => kind_of_tag(tag),
            _ => None,
        }
    } else {
        None
    }
}

/// Whether the object has a member of this name that is not `null`.
pub open spec fn present(object: ObjectModel, key: Seq<char>) -> bool {
    object.contains_key(key) && !(object[key] is Null)
}

/// The strings of an array whose elements are all strings.
pub open spec fn item_texts(items: Seq<ItemModel>) -> Seq<Seq<char>> {
    items.map_values(|item: ItemModel| item->Text_0)
}

/// The array that holds these strings.
pub open spec fn text_items(names: Seq<Seq<char>>) -> Seq<ItemModel> {
    names.map_values(|name: Seq<char>| ItemModel::Text(name))
}

/// Whether the member, if present, is an array of strings.
pub open spec fn list_well_typed(object: ObjectModel) -> bool {
    present(object, list_key()) ==> object[list_key()] is List && object[list_key()].printable()
}

/// Whether the member, if present, is a string.
pub open spec fn data_well_typed(object: ObjectModel) -> bool {
    present(object, data_key()) ==> object[data_key()] is Text
}

/// The single string that the object carries, if any.
pub open spec fn data_of(object: ObjectModel) -> Option<Seq<char>> {
    if present(object, data_key()) {
        Some(object[data_key()]->Text_0)
    } else {
        None
    }
}

/// The envelope that a JSON object stands for, or the reason why it stands
/// for none.
pub open spec fn envelope_of(object: ObjectModel) -> Result<EnvelopeModel, DecodeError> {
    match kind_of(object) {
        None => Err(DecodeError::UnknownKind),
        Some(kind) => {
            if !list_well_typed(object) || !data_well_typed(object) {
                Err(DecodeError::PayloadMismatch)
            } else {
                match kind {
                    MsgTypes::Users => {
                        if present(object, data_key()) {
                            Err(DecodeError::PayloadMismatch)
                        } else if !present(object, list_key()) {
                            Err(DecodeError::MissingPayload)
                        } else {
                            Ok(EnvelopeModel::Users(item_texts(object[list_key()]->List_0)))
                        }
                    },
                    MsgTypes::Register => {
                        if present(object, list_key()) {
                            Err(DecodeError::PayloadMismatch)
                        } else {
                            Ok(EnvelopeModel::Register(data_of(object)))
                        }
                    },
                    MsgTypes::Message => {
                        if present(object, list_key()) {
                            Err(DecodeError::PayloadMismatch)
                        } else {
                            Ok(EnvelopeModel::Message(data_of(object)))
                        }
                    },
                }
            }
        },
    }
}

/// The JSON object that stands for an envelope: the tag of its kind, and the
/// one member that holds its payload, if it has one.
pub open spec fn object_of(envelope: EnvelopeModel) -> ObjectModel {
    let tagged = Map::<Seq<char>, FieldModel>::empty().insert(
        kind_key(),
        FieldModel::Text(tag_of(envelope.kind())),
    );
    match envelope {
        EnvelopeModel::Users(names) => tagged.insert(list_key(), FieldModel::List(text_items(names))),
        EnvelopeModel::Register(Some(name)) => tagged.insert(data_key(), FieldModel::Text(name)),
        EnvelopeModel::Message(Some(data)) => tagged.insert(data_key(), FieldModel::Text(data)),
        _ => tagged,
    }
}

/// What decoding a text gives: the envelope that the object in the text
/// stands for.
pub open spec fn decoded(text: Seq<char>) -> Result<EnvelopeModel, DecodeError> {
    match parsed_object(text) {
        None => Err(DecodeError::NotAnObject),
        Some(object) => envelope_of(object),
    }
}

/// Whether a text is a wire form of the envelope.
pub open spec fn encodes(text: Seq<char>, envelope: EnvelopeModel) -> bool {
    parsed_object(text) == Some(object_of(envelope))
}

/// The three member names are pairwise different, and so are the tags.
pub proof fn lemma_names_differ()
    ensures
        kind_key() != list_key(),
        kind_key() != data_key(),
        list_key() != data_key(),
        kind_of_tag(tag_of(MsgTypes::Users)) == Some(MsgTypes::Users),
        kind_of_tag(tag_of(MsgTypes::Register)) == Some(MsgTypes::Register),
        kind_of_tag(tag_of(MsgTypes::Message)) == Some(MsgTypes::Message),
{
    reveal_strlit("messageType");
    reveal_strlit("dataArray");
    reveal_strlit("data");
    reveal_strlit("users");
    reveal_strlit("register");
    reveal_strlit("message");
    assert("messageType"@.len() == 11);
    assert("dataArray"@.len() == 9);
    assert("data"@.len() == 4);
    assert("users"@.len() == 5);
    assert("register"@.len() == 8);
    assert("message"@.len() == 7);
}

/// Reading the object that stands for an envelope gives the envelope back.
pub proof fn lemma_object_round_trip(envelope: EnvelopeModel)
    ensures
        envelope_of(object_of(envelope)) == Ok::<EnvelopeModel, DecodeError>(envelope),
        object_printable(object_of(envelope)),
{
    lemma_names_differ();
    let object = object_of(envelope);
    assert(kind_of(object) == Some(envelope.kind()));
    match envelope {
        EnvelopeModel::Users(names) => {
            assert(item_texts(text_items(names)) =~= names);
        },
        _ => {},
    }
}

/// Decoding inverts encoding: a text that is a wire form of an envelope
/// decodes to that envelope.
pub proof fn law_decode_inverts_encode(text: Seq<char>, envelope: EnvelopeModel)
    requires
        encodes(text, envelope),
    ensures
        decoded(text) == Ok::<EnvelopeModel, DecodeError>(envelope),
{
    lemma_object_round_trip(envelope);
}

/// A chat message: who said it, and what.
#[derive(Clone, Debug, PartialEq, Eq)]
pub struct ChatMessage {
    pub sender: String,
    pub body: String,
}

/// Mathematical model of a [`ChatMessage`].
#[verifier::ext_equal]
pub struct ChatMessageModel {
    pub sender: Seq<char>,
    pub body: Seq<char>,
}

impl View for ChatMessage {
    type V = ChatMessageModel;

    open spec fn view(&self) -> ChatMessageModel {
        ChatMessageModel { sender: self.sender@, body: self.body@ }
    }
}

/// The name of the member that holds the sender of a chat message.
pub open spec fn sender_key() -> Seq<char> {
    "from"@
}

/// The name of the member that holds the body of a chat message.
pub open spec fn body_key() -> Seq<char> {
    "message"@
}

/// The chat message that a JSON object stands for: both members must be
/// there, and both must be strings.
pub open spec fn chat_message_of(object: ObjectModel) -> Result<ChatMessageModel, DecodeError> {
    if !object.contains_key(sender_key()) || !object.contains_key(body_key()) {
        Err(DecodeError::MissingPayload)
    } else if !(object[sender_key()] is Text) || !(object[body_key()] is Text) {
        Err(DecodeError::PayloadMismatch)
    } else {
        Ok(
            ChatMessageModel {
                sender: object[sender_key()]->Text_0,
                body: object[body_key()]->Text_0,
            },
        )
    }
}

/// What decoding the payload of a `message` envelope gives.
pub open spec fn decoded_chat_message(text: Seq<char>) -> Result<ChatMessageModel, DecodeError> {
    match parsed_object(text) {
        None => Err(DecodeError::NotAnObject),
        Some(object) => chat_message_of(object),
    }
}

impl MsgTypes {
    /// The tag that stands for the kind on the wire.
    pub fn tag(self) -> (tag: String)
        ensures
            tag@ == tag_of(self),
    {
        match self {
            MsgTypes::Users => "users".to_owned(),
            MsgTypes::Register => "register".to_owned(),
            MsgTypes::Message => "message".to_owned(),
        }
    }

    /// The kind that a tag stands for, if it is one of the three.
    pub fn from_tag(tag: &String) -> (kind: Option<MsgTypes>)
        ensures
            kind == kind_of_tag(tag@),
    {
        if *tag == "users".to_owned() {
            Some(MsgTypes::Users)
        } else if *tag == "register".to_owned() {
            Some(MsgTypes::Register)
        } else if *tag == "message".to_owned() {
            Some(MsgTypes::Message)
        } else {
            None
        }
    }
}

impl Envelope {
    /// The kind of the envelope.
    pub fn kind(&self) -> (kind: MsgTypes)
        ensures
            kind == self@.kind(),
    {
        match self {
            Envelope::Users(_) => MsgTypes::Users,
            Envelope::Register(_) => MsgTypes::Register,
            Envelope::Message(_) => MsgTypes::Message,
        }
    }

    /// The JSON object that stands for the envelope.
    pub fn to_object(&self) -> (object: JsonObject)
        ensures
            object@ == object_of(self@),
    {
        let mut object = JsonObject::new();
        object.insert("messageType".to_owned(), JsonField::Text(self.kind().tag()));
        match self {
            Envelope::Users(names) => {
                let mut items: Vec<JsonItem> = Vec::new();
                let mut i: usize = 0;
                while i < names.len()
                    invariant
                        i <= names.len(),
                        items.len() == i,
                        forall|j: int| 0 <= j < i ==> (#[trigger] items[j])@ == ItemModel::Text(names[j]@),
                    decreases names.len() - i,
                {
                    items.push(JsonItem::Text(names[i].clone()));
                    i = i + 1;
                }
                assert(items@.map_values(|item: JsonItem| item@) =~= text_items(texts(names@)));
                object.insert("dataArray".to_owned(), JsonField::List(items));
            },
            Envelope::Register(Some(name)) => {
                object.insert("data".to_owned(), JsonField::Text(name.clone()));
            },
            Envelope::Message(Some(data)) => {
                object.insert("data".to_owned(), JsonField::Text(data.clone()));
            },
            _ => {},
        }
        object
    }

    /// The envelope that a JSON object stands for, or the reason why it
    /// stands for none.
    pub fn from_object(object: &JsonObject) -> (read: Result<Envelope, DecodeError>)
        ensures
            match read {
                Ok(envelope) => envelope_of(object@) == Ok::<EnvelopeModel, DecodeError>(envelope@),
                Err(error) => envelope_of(object@) == Err::<EnvelopeModel, DecodeError>(error),
            },
    {
        let kind = match object.get(&"messageType".to_owned()) {
            Some(JsonField::Text(tag)) => MsgTypes::from_tag(tag),
            _ => None,
        };
        let kind = match kind {
            Some(kind) => kind,
            None => {
                return Err(DecodeError::UnknownKind);
            },
        };
        let names = match read_list(object) {
            Ok(names) => names,
            Err(error) => {
                return Err(error);
            },
        };
        let data = match read_data(object) {
            Ok(data) => data,
            Err(error) => {
                return Err(error);
            },
        };
        match kind {
            MsgTypes::Users => {
                if data.is_some() {
                    Err(DecodeError::PayloadMismatch)
                } else {
                    match names {
                        Some(names) => Ok(Envelope::Users(names)),
                        None => Err(DecodeError::MissingPayload),
                    }
                }
            },
            MsgTypes::Register => {
                if names.is_some() {
                    Err(DecodeError::PayloadMismatch)
                } else {
                    Ok(Envelope::Register(data))
                }
            },
            MsgTypes::Message => {
                if names.is_some() {
                    Err(DecodeError::PayloadMismatch)
                } else {
                    Ok(Envelope::Message(data))
                }
            },
        }
    }
}

/// The list of names that an object carries, `None` where it carries none,
/// or `PayloadMismatch` where the member is not an array of strings.
fn read_list(object: &JsonObject) -> (read: Result<Option<Vec<String>>, DecodeError>)
    ensures
        match read {
            Ok(Some(names)) => list_well_typed(object@) && present(object@, list_key()) && texts(
                names@,
            ) == item_texts(object@[list_key()]->List_0),
            Ok(None) => !present(object@, list_key()),
            Err(error) => !list_well_typed(object@) && error == DecodeError::PayloadMismatch,
        },
{
    match object.get(&"dataArray".to_owned()) {
        None => Ok(None),
        Some(JsonField::Null) => Ok(None),
        Some(JsonField::List(items)) => {
            let mut names: Vec<String> = Vec::new();
            let mut i: usize = 0;
            while i < items.len()
                invariant
                    i <= items.len(),
                    names.len() == i,
                    forall|j: int| 0 <= j < i ==> (#[trigger] items[j])@ == ItemModel::Text(names[j]@),
                    present(object@, list_key()),
                    object@[list_key()] == FieldModel::List(
                        items@.map_values(|item: JsonItem| item@),
                    ),
                decreases items.len() - i,
            {
                match &items[i] {
                    JsonItem::Text(name) => {
                        names.push(name.clone());
                    },
                    JsonItem::Other => {
                        assert(!((items@.map_values(|item: JsonItem| item@))[i as int] is Text));
                        return Err(DecodeError::PayloadMismatch);
                    },
                }
                i = i + 1;
            }
            assert(texts(names@) =~= item_texts(items@.map_values(|item: JsonItem| item@)));
            Ok(Some(names))
        },
        Some(_) => Err(DecodeError::PayloadMismatch),
    }
}

/// The single string that an object carries, `None` where it carries none,
/// or `PayloadMismatch` where the member is not a string.
fn read_data(object: &JsonObject) -> (read: Result<Option<String>, DecodeError>)
    ensures
        match read {
            Ok(data) => data_well_typed(object@) && optional_text(data) == data_of(object@),
            Err(error) => !data_well_typed(object@) && error == DecodeError::PayloadMismatch,
        },
{
    match object.get(&"data".to_owned()) {
        None => Ok(None),
        Some(JsonField::Null) => Ok(None),
        Some(JsonField::Text(data)) => Ok(Some(data.clone())),
        Some(_) => Err(DecodeError::PayloadMismatch),
    }
}

/// The wire form of an envelope.
pub fn encode(envelope: &Envelope) -> (text: String)
    ensures
        encodes(text@, envelope@),
{
    let object = envelope.to_object();
    proof {
        lemma_object_round_trip(envelope@);
    }
    print_object(&object)
}

/// The envelope that a text carries, or the reason why it carries none.
pub fn decode(text: &str) -> (read: Result<Envelope, DecodeError>)
    ensures
        match read {
            Ok(envelope) => decoded(text@) == Ok::<EnvelopeModel, DecodeError>(envelope@),
            Err(error) => decoded(text@) == Err::<EnvelopeModel, DecodeError>(error),
        },
{
    match parse_object(text) {
        Some(object) => Envelope::from_object(&object),
        None => Err(DecodeError::NotAnObject),
    }
}

impl ChatMessage {
    /// The chat message that a JSON object stands for, or the reason why it
    /// stands for none.
    pub fn from_object(object: &JsonObject) -> (read: Result<ChatMessage, DecodeError>)
        ensures
            match read {
                Ok(message) => chat_message_of(object@) == Ok::<ChatMessageModel, DecodeError>(
                    message@,
                ),
                Err(error) => chat_message_of(object@) == Err::<ChatMessageModel, DecodeError>(
                    error,
                ),
            },
    {
        let sender = object.get(&"from".to_owned());
        let body = object.get(&"message".to_owned());
        match (sender, body) {
            (Some(JsonField::Text(sender)), Some(JsonField::Text(body))) => Ok(
                ChatMessage { sender: sender.clone(), body: body.clone() },
            ),
            (Some(_), Some(_)) => Err(DecodeError::PayloadMismatch),
            _ => Err(DecodeError::MissingPayload),
        }
    }
}

/// The chat message that the payload of a `message` envelope carries, or the
/// reason why it carries none.
pub fn decode_chat_message(text: &str) -> (read: Result<ChatMessage, DecodeError>)
    ensures
        match read {
            Ok(message) => decoded_chat_message(text@) == Ok::<ChatMessageModel, DecodeError>(
                message@,
            ),
            Err(error) => decoded_chat_message(text@) == Err::<ChatMessageModel, DecodeError>(error),
        },
{
    match parse_object(text) {
        Some(object) => ChatMessage::from_object(&object),
        None => Err(DecodeError::NotAnObject),
    }
}

} // verus!
