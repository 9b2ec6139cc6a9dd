//! JSON objects as the chat protocol reads them, and the boundary to
//! `serde_json`, which parses and prints them.
//!
//! A frame on the wire is one JSON object whose members are strings, arrays
//! of strings, or `null`. The types here hold exactly that much of a JSON
//! document; whatever else a document contains is kept as `Other`, so that
//! the protocol code can tell "absent" from "present, but of the wrong kind".

use serde_json::Value;
use vstd::prelude::*;

verus! {

/// One element of a JSON array.
#[derive(Clone, Debug, PartialEq, Eq)]
pub enum JsonItem {
    /// A JSON string.
    Text(String),
    /// Anything that is not a string.
    Other,
}

/// The value of one member of a JSON object.
#[derive(Clone, Debug, PartialEq, Eq)]
pub enum JsonField {
    /// The JSON `null`.
    Null,
    /// A JSON string.
    Text(String),
    /// A JSON array.
    List(Vec<JsonItem>),
    /// A boolean, a number or a nested object.
    Other,
}

/// Mathematical model of a [`JsonItem`].
#[verifier::ext_equal]
pub enum ItemModel {
    Text(Seq<char>),
    Other,
}

/// Mathematical model of a [`JsonField`].
#[verifier::ext_equal]
pub enum FieldModel {
    Null,
    Text(Seq<char>),
    List(Seq<ItemModel>),
    Other,
}

/// Mathematical model of a JSON object: its members by name.
pub type ObjectModel = Map<Seq<char>, FieldModel>;

impl View for JsonItem {
    type V = ItemModel;

    open spec fn view(&self) -> ItemModel {
        match self {
            JsonItem::Text(s) => ItemModel::Text(s@),
            JsonItem::Other => ItemModel::Other,
        }
    }
}

impl View for JsonField {
    type V = FieldModel;

    open spec fn view(&self) -> FieldModel {
        match self {
            JsonField::Null => FieldModel::Null,
            JsonField::Text(s) => FieldModel::Text(s@),
            JsonField::List(items) => FieldModel::List(items@.map_values(|i: JsonItem| i@)),
            JsonField::Other => FieldModel::Other,
        }
    }
}

impl FieldModel {
    /// Whether the value can be printed: it holds no `Other` anywhere.
    pub open spec fn printable(self) -> bool {
        match self {
            FieldModel::Null => true,
            FieldModel::Text(_) => true,
            FieldModel::List(items) => forall|i: int| 0 <= i < items.len() ==> items[i] is Text,
            FieldModel::Other => false,
        }
    }
}

/// The object that a list of members denotes: where a name occurs twice, the
/// later member stands.
pub open spec fn members_model(members: Seq<(String, JsonField)>) -> ObjectModel
    decreases members.len(),
{
    if members.len() == 0 {
        Map::empty()
    } else {
        members_model(members.drop_last()).insert(members.last().0@, members.last().1@)
    }
}

/// Whether every member of an object can be printed.
pub open spec fn object_printable(object: ObjectModel) -> bool {
    forall|name: Seq<char>| object.contains_key(name) ==> (#[trigger] object[name]).printable()
}

/// A name that does not occur among the members is not a member of the
/// object; one that does is mapped to the value of its last occurrence.
pub proof fn lemma_members_lookup(members: Seq<(String, JsonField)>, name: Seq<char>, at: int)
    requires
        -1 <= at < members.len(),
        at >= 0 ==> members[at].0@ == name,
        forall|j: int| at < j < members.len() ==> members[j].0@ != name,
    ensures
        at < 0 ==> !members_model(members).contains_key(name),
        at >= 0 ==> members_model(members).contains_key(name) && members_model(members)[name]
            == members[at].1@,
    decreases members.len(),
{
    if members.len() > 0 {
        let last = members.len() - 1;
        if at < last {
            lemma_members_lookup(members.drop_last(), name, at);
        }
    }
}

/// A JSON object: a list of named members.
#[derive(Debug)]
pub struct JsonObject {
    members: Vec<(String, JsonField)>,
}

impl View for JsonObject {
    type V = ObjectModel;

    closed spec fn view(&self) -> ObjectModel {
        members_model(self.members@)
    }
}

impl JsonObject {
    /// The object without members.
    pub fn new() -> (object: JsonObject)
        ensures
            object@ == Map::<Seq<char>, FieldModel>::empty(),
    {
        JsonObject { members: Vec::new() }
    }

    /// Sets the member `name` to `value`, replacing an earlier member of
    /// that name.
    pub fn insert(&mut self, name: String, value: JsonField)
        ensures
            final(self)@ == old(self)@.insert(name@, value@),
    {
        let ghost before = self.members@;
        self.members.push((name, value));
        assert(self.members@.drop_last() == before);
    }

    /// The value of the member `name`, if the object has one.
    pub fn get(&self, name: &String) -> (found: Option<&JsonField>)
        ensures
            match found {
                Some(value) => self@.contains_key(name@) && self@[name@] == value@,
                None => !self@.contains_key(name@),
            },
    {
        let mut i: usize = self.members.len();
        while i > 0
            invariant
                i <= self.members.len(),
                forall|j: int| i <= j < self.members.len() ==> self.members[j].0@ != name@,
            decreases i,
        {
            i = i - 1;
            if self.members[i].0 == *name {
                proof {
                    lemma_members_lookup(self.members@, name@, i as int);
                }
                return Some(&self.members[i].1);
            }
        }
        proof {
            lemma_members_lookup(self.members@, name@, -1);
        }
        None
    }
}

/// The object that `serde_json::from_str` reads from a text: `None` where
/// the text is not JSON or the JSON value is not an object.
pub uninterp spec fn parsed_object(text: Seq<char>) -> Option<ObjectModel>;

/// Calls `serde_json::from_str` for a `serde_json::Value` and, where that is
/// an object, moves its members out, variant by variant: `Null`, `String`
/// and `Array` keep their contents, and every other variant becomes `Other`.
/// The contract names the outcome [`parsed_object`]: the same text always
/// reads as the same object, and as none where `serde_json` reports an error
/// or reads another kind of value.
#[verifier::external_body]
pub(crate) fn parse_object(text: &str) -> (parsed: Option<JsonObject>)
    ensures
        match parsed {
            Some(object) => parsed_object(text@) == Some(object@),
            None => parsed_object(text@) is None,
        },
{
    let Ok(Value::Object(map)) = serde_json::from_str::<Value>(text) else { return None; };
    let item = |value: Value| match value {
        Value::String(text) => JsonItem::Text(text),
        _ => JsonItem::Other,
    };
    let field = |value: Value| match value {
        Value::Null => JsonField::Null,
        Value::String(text) => JsonField::Text(text),
        Value::Array(items) => JsonField::List(items.into_iter().map(item).collect()),
        _ => JsonField::Other,
    };
    Some(JsonObject { members: map.into_iter().map(|(name, value)| (name, field(value))).collect() })
}

/// Copies the members, in their order, into a `serde_json::Map` and calls
/// `serde_json::to_string` on it. The contract claims that `serde_json`
/// reads its own output back: the text printed for a printable object parses
/// as that object. This holds because strings are escaped on the way out and
/// unescaped on the way in, an array keeps its order, and `Map::insert`
/// replaces an earlier member of the same name.
#[verifier::external_body]
pub(crate) fn print_object(object: &JsonObject) -> (text: String)
    requires
        object_printable(object@),
    ensures
        parsed_object(text@) == Some(object@),
{
    let item = |item: &JsonItem| match item {
        JsonItem::Text(text) => Value::String(text.clone()),
        JsonItem::Other => Value::Null,
    };
    let field = |field: &JsonField| match field {
        JsonField::Text(text) => Value::String(text.clone()),
        JsonField::List(items) => Value::Array(items.iter().map(item).collect()),
        _ => Value::Null,
    };
    let mut map = serde_json::Map::new();
    for (name, value) in object.members.iter() {
        map.insert(name.clone(), field(value));
    }
    serde_json::to_string(&Value::Object(map)).unwrap_or_default()
}

} // verus!
