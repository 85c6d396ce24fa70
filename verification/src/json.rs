//! JSON documents as values of the library.
//!
//! Reading a text into a document and writing a document out as text is the
//! work of `serde_json`. What the library does with a document (looking up a
//! member, an item, a string) is done here, on a type of its own.

use crate::error::CustomError;
use vstd::prelude::*;

verus! {

#[verifier::external_type_specification]
#[verifier::external_body]
pub struct ExValue(serde_json::Value);

#[verifier::external_type_specification]
#[verifier::external_body]
pub struct ExNumber(serde_json::Number);

/// What a JSON document holds. The members of an object are a map: a key
/// occurs once, and the members have no order.
pub enum JsonView {
    Null,
    Bool(bool),
    Number(serde_json::Number),
    String(Seq<char>),
    Array(Seq<JsonView>),
    Object(Map<Seq<char>, JsonView>),
}

/// A JSON document. An object is written as a list of members; where a key
/// occurs more than once in the list, its last occurrence counts.
#[derive(Debug, PartialEq)]
pub enum Json {
    Null,
    Bool(bool),
    Number(serde_json::Number),
    String(String),
    Array(Vec<Json>),
    Object(Vec<(String, Json)>),
}

/// The members that a list of members stands for: later entries replace
/// earlier ones of the same key.
pub open spec fn members_view(members: Seq<(String, Json)>) -> Map<Seq<char>, JsonView>
    decreases members, 0nat,
{
    if members.len() == 0 {
        Map::empty()
    } else {
        let last = members.last();
        members_view(members.drop_last()).insert(last.0@, json_view(last.1))
    }
}

/// The items that a list of documents holds.
pub open spec fn items_view(items: Seq<Json>) -> Seq<JsonView>
    decreases items, 0nat,
{
    if items.len() == 0 {
        Seq::empty()
    } else {
        items_view(items.drop_last()).push(json_view(items.last()))
    }
}

/// What a document holds.
pub open spec fn json_view(json: Json) -> JsonView
    decreases json, 1nat,
{
    match json {
        Json::Null => JsonView::Null,
        Json::Bool(flag) => JsonView::Bool(flag),
        Json::Number(number) => JsonView::Number(number),
        Json::String(text) => JsonView::String(text@),
        Json::Array(items) => JsonView::Array(items_view(items@)),
        Json::Object(members) => JsonView::Object(members_view(members@)),
    }
}

impl View for Json {
    type V = JsonView;

    open spec fn view(&self) -> JsonView {
        json_view(*self)
    }
}

impl JsonView {
    /// The member `key` of an object; `None` for an object without that key
    /// and for what is no object.
    pub open spec fn member(self, key: Seq<char>) -> Option<JsonView> {
        match self {
            JsonView::Object(members) => if members.dom().contains(key) {
                Some(members[key])
            } else {
                None
            },
            _ => None,
        }
    }

    /// The item at `index` of an array; `None` past its end and for what is
    /// no array.
    pub open spec fn item(self, index: int) -> Option<JsonView> {
        match self {
            JsonView::Array(items) => if 0 <= index < items.len() {
                Some(items[index])
            } else {
                None
            },
            _ => None,
        }
    }

    /// The text of a string; `None` for what is no string.
    pub open spec fn text(self) -> Option<Seq<char>> {
        match self {
            JsonView::String(text) => Some(text),
            _ => None,
        }
    }
}

/// What a `serde_json::Value` holds, as a document of this library.
pub uninterp spec fn value_tree(value: serde_json::Value) -> JsonView;

/// The document that `serde_json::from_str` reads from `text`, or `None`
/// where it reports an error.
pub uninterp spec fn parsed_text(text: Seq<char>) -> Option<JsonView>;

/// The text that `serde_json::to_string` writes for a document.
pub uninterp spec fn printed_tree(tree: JsonView) -> Seq<char>;

/// `serde_json::from_str` at the type `serde_json::Value`. The contract
/// gives its result a name: the same text is read as the same document, and
/// an error is reported for the same texts.
#[verifier::external_body]
fn parse_value(text: &str) -> (parsed: Result<serde_json::Value, serde_json::Error>)
    ensures
        match parsed {
            Ok(value) => parsed_text(text@) == Some(value_tree(value)),
            Err(_) => parsed_text(text@) is None,
        },
{
    serde_json::from_str::<serde_json::Value>(text)
}

/// `serde_json::to_string` on a `serde_json::Value`. It never reports an
/// error there: it writes into memory, the keys of an object are strings, and
/// a number that is held is finite. The contract gives the text a name: what
/// is written depends on what the value holds and on nothing else (the
/// members of an object are written in the order of their keys).
#[verifier::external_body]
fn print_value(value: &serde_json::Value) -> (printed: Result<String, serde_json::Error>)
    ensures
        printed is Ok,
        printed->Ok_0@ == printed_tree(value_tree(*value)),
{
    serde_json::to_string(value)
}

/// Takes a `serde_json::Value` apart, variant by variant, into a document of
/// this library. The contract says that the document holds what the value
/// held; the members of an object come out of its map, each key once.
#[verifier::external_body]
fn json_from_value(value: serde_json::Value) -> (json: Json)
    ensures
        json@ == value_tree(value),
{
    match value {
        serde_json::Value::Null => Json::Null,
        serde_json::Value::Bool(flag) => Json::Bool(flag),
        serde_json::Value::Number(number) => Json::Number(number),
        serde_json::Value::String(text) => Json::String(text),
        serde_json::Value::Array(items) => Json::Array(items.into_iter().map(json_from_value).collect()),
        serde_json::Value::Object(members) => {
            Json::Object(members.into_iter().map(|(key, member)| (key, json_from_value(member))).collect())
        },
    }
}

/// Builds the `serde_json::Value` of a document, variant by variant. The
/// members of an object are put into a `serde_json::Map` with `insert`, in
/// the order of the list, so that a later entry replaces an earlier one of
/// the same key. The contract says that the value holds what the document
/// holds.
#[verifier::external_body]
fn value_from_json(json: &Json) -> (value: serde_json::Value)
    ensures
        value_tree(value) == json@,
{
    match json {
        Json::Null => serde_json::Value::Null,
        Json::Bool(flag) => serde_json::Value::Bool(*flag),
        Json::Number(number) => serde_json::Value::Number(number.clone()),
        Json::String(text) => serde_json::Value::String(text.clone()),
        Json::Array(items) => serde_json::Value::Array(items.iter().map(value_from_json).collect()),
        Json::Object(members) => {
            let mut map = serde_json::Map::new();
            for (key, member) in members {
                map.insert(key.clone(), value_from_json(member));
            }
            serde_json::Value::Object(map)
        },
    }
}

/// The error that `serde::de::Error::custom` makes of `message` at
/// `serde_json::Error`.
pub uninterp spec fn error_with_message(message: Seq<char>) -> serde_json::Error;

/// `serde::de::Error::custom` at `serde_json::Error`: an error of
/// `serde_json` that carries `message`. The contract gives its result a
/// name: the error is made of the message and of nothing else.
#[verifier::external_body]
pub(crate) fn data_error(message: &str) -> (error: serde_json::Error)
    ensures
        error == error_with_message(message@),
{
    <serde_json::Error as serde::de::Error>::custom(message)
}

/// A list of members with one more entry holds the members of the list, and
/// the new entry in place of any member of the same key.
pub proof fn lemma_members_push(members: Seq<(String, Json)>, entry: (String, Json))
    ensures
        members_view(members.push(entry)) == members_view(members).insert(entry.0@, entry.1@),
{
    assert(members.push(entry).drop_last() =~= members);
    assert(members.push(entry).last() == entry);
}

/// A list of documents with one more document holds the items of the list
/// and then the new one.
pub proof fn lemma_items_push(items: Seq<Json>, item: Json)
    ensures
        items_view(items.push(item)) == items_view(items).push(item@),
{
    assert(items.push(item).drop_last() =~= items);
    assert(items.push(item).last() == item);
}

/// The items of a list of documents are the documents' views, one for one.
pub proof fn lemma_items_view(items: Seq<Json>)
    ensures
        items_view(items).len() == items.len(),
        forall|i: int| 0 <= i < items.len() ==> #[trigger] items_view(items)[i] == items[i]@,
    decreases items.len(),
{
    if items.len() > 0 {
        lemma_items_view(items.drop_last());
    }
}

impl Json {
    /// Reads `text` as a JSON document.
    pub fn parse(text: &str) -> (parsed: Result<Json, CustomError>)
        ensures
            match parsed {
                Ok(json) => parsed_text(text@) == Some(json@),
                Err(error) => parsed_text(text@) is None && error is Serde,
            },
    {
        match parse_value(text) {
            Ok(value) => Ok(json_from_value(value)),
            Err(error) => Err(CustomError::Serde(error)),
        }
    }

    /// Writes the document out as JSON text. This always succeeds.
    pub fn to_text(&self) -> (printed: Result<String, CustomError>)
        ensures
            printed matches Ok(text) && text@ == printed_tree(self@),
    {
        let value = value_from_json(self);
        match print_value(&value) {
            Ok(text) => Ok(text),
            Err(error) => Err(CustomError::Serde(error)),
        }
    }

    /// The member `key` of an object.
    pub fn get(&self, key: &str) -> (found: Option<&Json>)
        ensures
            match found {
                Some(member) => self@.member(key@) == Some(member@),
                None => self@.member(key@) is None,
            },
    {
        match self {
            Json::Object(members) => {
                let wanted = String::from_str(key);
                let mut i: usize = members.len();
                proof {
                    assert(members@.take(i as int) =~= members@);
                }
                while i > 0
                    invariant
                        i <= members.len(),
                        wanted@ == key@,
                        self@.member(key@) == JsonView::Object(
                            members_view(members@.take(i as int)),
                        ).member(key@),
                    decreases i,
                {
                    i -= 1;
                    proof {
                        let upto = members@.take(i + 1);
                        assert(upto.drop_last() =~= members@.take(i as int));
                        assert(upto.last() == members@[i as int]);
                    }
                    if members[i].0 == wanted {
                        return Some(&members[i].1);
                    }
                }
                None
            },
            _ => None,
        }
    }

    /// The item at `index` of an array.
    pub fn at(&self, index: usize) -> (found: Option<&Json>)
        ensures
            match found {
                Some(item) => self@.item(index as int) == Some(item@),
                None => self@.item(index as int) is None,
            },
    {
        match self {
            Json::Array(items) => {
                proof {
                    lemma_items_view(items@);
                }
                if index < items.len() {
                    Some(&items[index])
                } else {
                    None
                }
            },
            _ => None,
        }
    }

    /// The text of a string.
    pub fn as_str(&self) -> (found: Option<&str>)
        ensures
            match found {
                Some(text) => self@.text() == Some(text@),
                None => self@.text() is None,
            },
    {
        match self {
            Json::String(text) => Some(text.as_str()),
            _ => None,
        }
    }

    /// The items of an array.
    pub fn as_array(&self) -> (found: Option<&Vec<Json>>)
        ensures
            match found {
                Some(items) => self@ == JsonView::Array(items_view(items@)),
                None => !(self@ is Array),
            },
    {
        match self {
            Json::Array(items) => Some(items),
            _ => None,
        }
    }

    /// Whether the document is `null`.
    pub fn is_null(&self) -> (null: bool)
        ensures
            null == (self@ is Null),
    {
        match self {
            Json::Null => true,
            _ => false,
        }
    }
}

} // verus!
