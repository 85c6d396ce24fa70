//! Contacts and how they are written as JSON.
//!
//! On the wire a contact is a JSON object with the members `email`,
//! `firstName`, `lastName`, `phone` and `fieldValues`, wrapped in an envelope
//! `{"contact": ...}`. `email` is mandatory. The other members are optional:
//! one that is absent or `null` is read as `None`, and a field that is `None`
//! is left out when the contact is written. Members that the record does not
//! know are ignored.

use crate::error::CustomError;
use crate::json::{
    data_error, error_with_message, items_view, lemma_items_push, lemma_items_view,
    lemma_members_push, members_view, parsed_text, printed_tree, Json, JsonView,
};
use vstd::prelude::*;

verus! {

/// The value of one custom field of a contact.
#[derive(Debug, Clone, PartialEq, Eq)]
pub struct FieldValue {
    pub field: String,
    pub value: String,
}

/// What a [`FieldValue`] holds.
pub struct FieldValueView {
    pub field: Seq<char>,
    pub value: Seq<char>,
}

impl View for FieldValue {
    type V = FieldValueView;

    open spec fn view(&self) -> FieldValueView {
        FieldValueView { field: self.field@, value: self.value@ }
    }
}

/// A contact.
#[derive(Debug, Clone, PartialEq, Eq)]
pub struct Contact {
    pub email: String,
    pub first_name: Option<String>,
    pub last_name: Option<String>,
    pub phone: Option<String>,
    pub field_values: Option<Vec<FieldValue>>,
}

/// What a [`Contact`] holds.
pub struct ContactView {
    pub email: Seq<char>,
    pub first_name: Option<Seq<char>>,
    pub last_name: Option<Seq<char>>,
    pub phone: Option<Seq<char>>,
    pub field_values: Option<Seq<FieldValueView>>,
}

/// The text of an optional string.
pub open spec fn optional_text(text: Option<String>) -> Option<Seq<char>> {
    match text {
        Some(given) => Some(given@),
        None => None,
    }
}

/// What a list of field values holds.
pub open spec fn field_values_view(values: Seq<FieldValue>) -> Seq<FieldValueView> {
    values.map_values(|value: FieldValue| value@)
}

impl View for Contact {
    type V = ContactView;

    open spec fn view(&self) -> ContactView {
        ContactView {
            email: self.email@,
            first_name: optional_text(self.first_name),
            last_name: optional_text(self.last_name),
            phone: optional_text(self.phone),
            field_values: match self.field_values {
                Some(values) => Some(field_values_view(values@)),
                None => None,
            },
        }
    }
}

/// The envelope in which a contact is sent.
#[derive(Debug, Clone, PartialEq, Eq)]
pub struct ContactRequest {
    pub contact: Contact,
}

impl View for ContactRequest {
    type V = ContactView;

    open spec fn view(&self) -> ContactView {
        self.contact@
    }
}

/// The members `members` and, where `text` is there, the member `key` with
/// `text` as its string: an optional field that is absent is left out.
pub open spec fn with_optional(
    members: Map<Seq<char>, JsonView>,
    key: Seq<char>,
    text: Option<Seq<char>>,
) -> Map<Seq<char>, JsonView> {
    match text {
        Some(given) => members.insert(key, JsonView::String(given)),
        None => members,
    }
}

/// The members `members` and, where `values` are there, the member
/// `fieldValues` with the list of them, which may be empty.
pub open spec fn with_field_values(
    members: Map<Seq<char>, JsonView>,
    values: Option<Seq<FieldValueView>>,
) -> Map<Seq<char>, JsonView> {
    match values {
        Some(given) => members.insert("fieldValues"@, JsonView::Array(write_field_values(given))),
        None => members,
    }
}

/// How an optional member `key` of `json` is read as a string: `Some(None)`
/// where it is absent or `null`, `Some(Some(..))` where it is a string, and
/// `None` where it is anything else.
pub open spec fn read_optional(json: JsonView, key: Seq<char>) -> Option<Option<Seq<char>>> {
    match json.member(key) {
        None => Some(None),
        Some(JsonView::Null) => Some(None),
        Some(JsonView::String(text)) => Some(Some(text)),
        Some(_) => None,
    }
}

impl FieldValueView {
    /// How a field value is written: an object with the members `field` and
    /// `value`.
    pub open spec fn to_json(self) -> JsonView {
        JsonView::Object(
            Map::empty().insert("field"@, JsonView::String(self.field)).insert(
                "value"@,
                JsonView::String(self.value),
            ),
        )
    }

    /// The field value that `json` holds: both members must be there and be
    /// strings.
    pub open spec fn from_json(json: JsonView) -> Option<FieldValueView> {
        match (json.member("field"@), json.member("value"@)) {
            (Some(JsonView::String(field)), Some(JsonView::String(value))) => Some(
                FieldValueView { field, value },
            ),
            _ => None,
        }
    }
}

/// How a list of field values is written, value by value.
pub open spec fn write_field_values(values: Seq<FieldValueView>) -> Seq<JsonView> {
    values.map_values(|value: FieldValueView| value.to_json())
}

/// The field values that a list of documents holds, or `None` where one of
/// the documents is no field value.
pub open spec fn read_field_values(items: Seq<JsonView>) -> Option<Seq<FieldValueView>> {
    if forall|i: int| 0 <= i < items.len() ==> (#[trigger] FieldValueView::from_json(items[i]))
        is Some {
        Some(items.map_values(|item: JsonView| FieldValueView::from_json(item)->0))
    } else {
        None
    }
}

/// How the optional member `fieldValues` of `json` is read: `Some(None)`
/// where it is absent or `null`, the field values where it is an array of
/// them, and `None` where it is anything else.
pub open spec fn read_optional_field_values(json: JsonView) -> Option<
    Option<Seq<FieldValueView>>,
> {
    match json.member("fieldValues"@) {
        None => Some(None),
        Some(JsonView::Null) => Some(None),
        Some(JsonView::Array(items)) => match read_field_values(items) {
            Some(values) => Some(Some(values)),
            None => None,
        },
        Some(_) => None,
    }
}

impl ContactView {
    /// How a contact is written: an object with the member `email` and a
    /// member for each of the other fields that is there, under its name in
    /// camel case. A field that is `None` has no member.
    pub open spec fn to_json(self) -> JsonView {
        JsonView::Object(
            with_field_values(
                with_optional(
                    with_optional(
                        with_optional(
                            Map::empty().insert("email"@, JsonView::String(self.email)),
                            "firstName"@,
                            self.first_name,
                        ),
                        "lastName"@,
                        self.last_name,
                    ),
                    "phone"@,
                    self.phone,
                ),
                self.field_values,
            ),
        )
    }

    /// The contact that `json` holds, or `None` where it holds none: `email`
    /// must be there and be a string, and every other member that is there
    /// must be of its kind or `null`.
    pub open spec fn from_json(json: JsonView) -> Option<ContactView> {
        match (
            json.member("email"@),
            read_optional(json, "firstName"@),
            read_optional(json, "lastName"@),
            read_optional(json, "phone"@),
            read_optional_field_values(json),
        ) {
            (
                Some(JsonView::String(email)),
                Some(first_name),
                Some(last_name),
                Some(phone),
                Some(field_values),
            ) => Some(ContactView { email, first_name, last_name, phone, field_values }),
            _ => None,
        }
    }

    /// How a contact is written for the wire: as the member `contact` of an
    /// envelope.
    pub open spec fn to_envelope(self) -> JsonView {
        JsonView::Object(Map::empty().insert("contact"@, self.to_json()))
    }

    /// The contact that the envelope `json` holds, or `None` where it holds
    /// none.
    pub open spec fn from_envelope(json: JsonView) -> Option<ContactView> {
        match json.member("contact"@) {
            Some(contact) => ContactView::from_json(contact),
            None => None,
        }
    }

    /// The contact that the text of a contact holds.
    pub open spec fn from_text(text: Seq<char>) -> Option<ContactView> {
        match parsed_text(text) {
            Some(json) => ContactView::from_json(json),
            None => None,
        }
    }

    /// The contact that the text of an envelope holds.
    pub open spec fn from_envelope_text(text: Seq<char>) -> Option<ContactView> {
        match parsed_text(text) {
            Some(json) => ContactView::from_envelope(json),
            None => None,
        }
    }
}

/// The contact that `Contact::default` returns.
pub open spec fn default_contact() -> ContactView {
    ContactView {
        email: "johndoe@example.com"@,
        first_name: Some("John"@),
        last_name: Some("Doe"@),
        phone: Some("7223224241"@),
        field_values: Some(
            seq![
                FieldValueView { field: "1"@, value: "The Value for First Field"@ },
                FieldValueView { field: "6"@, value: "2008-01-20"@ },
            ],
        ),
    }
}

/// The error for a document that is not the record asked for: an error of
/// `serde_json` made of `message`.
fn mismatch(message: &str) -> (error: CustomError)
    ensures
        error == CustomError::Serde(error_with_message(message@)),
{
    CustomError::Serde(data_error(message))
}

/// Adds the member `key` with the string `text` to `members`, where `text`
/// is there.
fn push_optional(members: &mut Vec<(String, Json)>, key: &str, text: &Option<String>)
    ensures
        members_view(final(members)@) == with_optional(
            members_view(old(members)@),
            key@,
            optional_text(*text),
        ),
{
    match text {
        Some(given) => {
            let member = (String::from_str(key), Json::String(given.clone()));
            proof {
                lemma_members_push(members@, member);
            }
            members.push(member);
        },
        None => {},
    }
}

/// How the optional member `key` of `json` is read as a string.
fn optional_from_json(json: &Json, key: &str) -> (read: Option<Option<String>>)
    ensures
        match read {
            Some(text) => read_optional(json@, key@) == Some(optional_text(text)),
            None => read_optional(json@, key@) is None,
        },
{
    match json.get(key) {
        None => Some(None),
        Some(member) => match member {
            Json::Null => Some(None),
            Json::String(text) => Some(Some(text.clone())),
            _ => None,
        },
    }
}

impl FieldValue {
    /// The field value as a JSON document.
    pub fn to_json(&self) -> (json: Json)
        ensures
            json@ == self@.to_json(),
    {
        let mut members: Vec<(String, Json)> = Vec::new();
        let field = (String::from_str("field"), Json::String(self.field.clone()));
        proof {
            lemma_members_push(members@, field);
        }
        members.push(field);
        let value = (String::from_str("value"), Json::String(self.value.clone()));
        proof {
            lemma_members_push(members@, value);
        }
        members.push(value);
        Json::Object(members)
    }

    /// The field value that a JSON document holds.
    pub fn from_json(json: &Json) -> (read: Result<FieldValue, CustomError>)
        ensures
            match read {
                Ok(value) => FieldValueView::from_json(json@) == Some(value@),
                Err(error) => FieldValueView::from_json(json@) is None && error is Serde,
            },
    {
        let field = match json.get("field") {
            Some(member) => match member.as_str() {
                Some(text) => String::from_str(text),
                None => {
                    return Err(mismatch("invalid type for `field`: expected a string"));
                },
            },
            None => {
                return Err(mismatch("missing field `field`"));
            },
        };
        let value = match json.get("value") {
            Some(member) => match member.as_str() {
                Some(text) => String::from_str(text),
                None => {
                    return Err(mismatch("invalid type for `value`: expected a string"));
                },
            },
            None => {
                return Err(mismatch("missing field `value`"));
            },
        };
        Ok(FieldValue { field, value })
    }
}

/// How a list of field values is written.
fn field_values_to_json(values: &Vec<FieldValue>) -> (json: Json)
    ensures
        json@ == JsonView::Array(write_field_values(field_values_view(values@))),
{
    let mut items: Vec<Json> = Vec::new();
    let mut i: usize = 0;
    while i < values.len()
        invariant
            i <= values.len(),
            items_view(items@) == write_field_values(field_values_view(values@.take(i as int))),
        decreases values.len() - i,
    {
        let item = values[i].to_json();
        proof {
            lemma_items_push(items@, item);
            assert(values@.take(i + 1) =~= values@.take(i as int).push(values@[i as int]));
            assert(write_field_values(field_values_view(values@.take(i + 1)))
                =~= write_field_values(field_values_view(values@.take(i as int))).push(
                values@[i as int]@.to_json(),
            ));
        }
        items.push(item);
        i += 1;
    }
    proof {
        assert(values@.take(i as int) =~= values@);
    }
    Json::Array(items)
}

/// The field values that a list of documents holds.
fn field_values_from_items(items: &Vec<Json>) -> (read: Option<Vec<FieldValue>>)
    ensures
        match read {
            Some(values) => read_field_values(items_view(items@)) == Some(
                field_values_view(values@),
            ),
            None => read_field_values(items_view(items@)) is None,
        },
{
    let mut values: Vec<FieldValue> = Vec::new();
    let mut i: usize = 0;
    proof {
        lemma_items_view(items@);
    }
    while i < items.len()
        invariant
            i <= items.len(),
            values.len() == i,
            items_view(items@).len() == items.len(),
            forall|k: int|
                0 <= k < items.len() ==> #[trigger] items_view(items@)[k] == items@[k]@,
            forall|k: int|
                0 <= k < i ==> FieldValueView::from_json(#[trigger] items_view(items@)[k])
                    == Some(values@[k]@),
        decreases items.len() - i,
    {
        match FieldValue::from_json(&items[i]) {
            Ok(value) => {
                values.push(value);
            },
            Err(_) => {
                proof {
                    assert(FieldValueView::from_json(items_view(items@)[i as int]) is None);
                }
                return None;
            },
        }
        i += 1;
    }
    proof {
        let docs = items_view(items@);
        assert forall|k: int| 0 <= k < docs.len() implies (#[trigger] FieldValueView::from_json(
            docs[k],
        )) is Some by {}
        assert(docs.map_values(|item: JsonView| FieldValueView::from_json(item)->0)
            =~= field_values_view(values@));
    }
    Some(values)
}

/// How the optional member `fieldValues` of `json` is read.
fn optional_field_values_from_json(json: &Json) -> (read: Option<Option<Vec<FieldValue>>>)
    ensures
        match read {
            Some(Some(values)) => read_optional_field_values(json@) == Some(
                Some(field_values_view(values@)),
            ),
            Some(None) => read_optional_field_values(json@) == Some(
                None::<Seq<FieldValueView>>,
            ),
            None => read_optional_field_values(json@) is None,
        },
{
    match json.get("fieldValues") {
        None => Some(None),
        Some(member) => match member {
            Json::Null => Some(None),
            Json::Array(items) => match field_values_from_items(items) {
                Some(values) => Some(Some(values)),
                None => None,
            },
            _ => None,
        },
    }
}

impl Contact {
    /// A contact with the given fields.
    pub fn new(
        email: String,
        first_name: Option<String>,
        last_name: Option<String>,
        phone: Option<String>,
        field_values: Option<Vec<FieldValue>>,
    ) -> (contact: Self)
        ensures
            contact.email == email,
            contact.first_name == first_name,
            contact.last_name == last_name,
            contact.phone == phone,
            contact.field_values == field_values,
    {
        Self { email, first_name, last_name, phone, field_values }
    }

    /// The contact as a JSON document.
    pub fn to_json(&self) -> (json: Json)
        ensures
            json@ == self@.to_json(),
    {
        let mut members: Vec<(String, Json)> = Vec::new();
        let email = (String::from_str("email"), Json::String(self.email.clone()));
        proof {
            lemma_members_push(members@, email);
        }
        members.push(email);
        push_optional(&mut members, "firstName", &self.first_name);
        push_optional(&mut members, "lastName", &self.last_name);
        push_optional(&mut members, "phone", &self.phone);
        match &self.field_values {
            Some(values) => {
                let field_values = (String::from_str("fieldValues"), field_values_to_json(values));
                proof {
                    lemma_members_push(members@, field_values);
                }
                members.push(field_values);
            },
            None => {},
        }
        Json::Object(members)
    }

    /// The contact that a JSON document holds.
    pub fn from_json(json: &Json) -> (read: Result<Contact, CustomError>)
        ensures
            match read {
                Ok(contact) => ContactView::from_json(json@) == Some(contact@),
                Err(error) => ContactView::from_json(json@) is None && error is Serde,
            },
    {
        let email = match json.get("email") {
            Some(member) => match member.as_str() {
                Some(text) => String::from_str(text),
                None => {
                    return Err(mismatch("invalid type for `email`: expected a string"));
                },
            },
            None => {
                return Err(mismatch("missing field `email`"));
            },
        };
        let first_name = match optional_from_json(json, "firstName") {
            Some(text) => text,
            None => {
                return Err(mismatch("invalid type for `firstName`: expected a string"));
            },
        };
        let last_name = match optional_from_json(json, "lastName") {
            Some(text) => text,
            None => {
                return Err(mismatch("invalid type for `lastName`: expected a string"));
            },
        };
        let phone = match optional_from_json(json, "phone") {
            Some(text) => text,
            None => {
                return Err(mismatch("invalid type for `phone`: expected a string"));
            },
        };
        let field_values = match optional_field_values_from_json(json) {
            Some(values) => values,
            None => {
                return Err(
                    mismatch("invalid type for `fieldValues`: expected a list of field values"),
                );
            },
        };
        Ok(Contact { email, first_name, last_name, phone, field_values })
    }

    /// The contact as JSON text.
    pub fn to_json_text(&self) -> (written: Result<String, CustomError>)
        ensures
            written matches Ok(text) && text@ == printed_tree(self@.to_json()),
    {
        self.to_json().to_text()
    }

    /// The contact that a JSON text holds.
    pub fn from_json_text(text: &str) -> (read: Result<Contact, CustomError>)
        ensures
            match read {
                Ok(contact) => ContactView::from_text(text@) == Some(contact@),
                Err(error) => ContactView::from_text(text@) is None && error is Serde,
            },
    {
        match Json::parse(text) {
            Ok(json) => Contact::from_json(&json),
            Err(error) => Err(error),
        }
    }

    /// The body of a request that creates or updates this contact: the
    /// contact in its envelope, as JSON text.
    pub fn to_request(self) -> (body: Result<String, CustomError>)
        ensures
            body matches Ok(text) && text@ == printed_tree(self@.to_envelope()),
    {
        ContactRequest::new(self).to_json().to_text()
    }
}

impl Default for Contact {
    /// A sample contact, John Doe, with two field values.
    fn default() -> (contact: Self)
        ensures
            contact@ == default_contact(),
    {
        let mut values: Vec<FieldValue> = Vec::new();
        values.push(
            FieldValue {
                field: String::from_str("1"),
                value: String::from_str("The Value for First Field"),
            },
        );
        values.push(
            FieldValue { field: String::from_str("6"), value: String::from_str("2008-01-20") },
        );
        proof {
            assert(field_values_view(values@) =~= default_contact().field_values->0);
        }
        Self {
            email: String::from_str("johndoe@example.com"),
            first_name: Some(String::from_str("John")),
            last_name: Some(String::from_str("Doe")),
            phone: Some(String::from_str("7223224241")),
            field_values: Some(values),
        }
    }
}

impl ContactRequest {
    /// The envelope of `contact`.
    pub fn new(contact: Contact) -> (request: Self)
        ensures
            request.contact == contact,
    {
        Self { contact }
    }

    /// The envelope as a JSON document.
    pub fn to_json(&self) -> (json: Json)
        ensures
            json@ == self@.to_envelope(),
    {
        let mut members: Vec<(String, Json)> = Vec::new();
        let contact = (String::from_str("contact"), self.contact.to_json());
        proof {
            lemma_members_push(members@, contact);
        }
        members.push(contact);
        Json::Object(members)
    }

    /// The envelope that a JSON document holds.
    pub fn from_json(json: &Json) -> (read: Result<ContactRequest, CustomError>)
        ensures
            match read {
                Ok(request) => ContactView::from_envelope(json@) == Some(request@),
                Err(error) => ContactView::from_envelope(json@) is None && error is Serde,
            },
    {
        match json.get("contact") {
            Some(member) => match Contact::from_json(member) {
                Ok(contact) => Ok(ContactRequest { contact }),
                Err(error) => Err(error),
            },
            None => Err(mismatch("missing field `contact`")),
        }
    }

    /// The envelope as JSON text.
    pub fn to_json_text(&self) -> (written: Result<String, CustomError>)
        ensures
            written matches Ok(text) && text@ == printed_tree(self@.to_envelope()),
    {
        self.to_json().to_text()
    }

    /// The envelope that a JSON text holds.
    pub fn from_json_text(text: &str) -> (read: Result<ContactRequest, CustomError>)
        ensures
            match read {
                Ok(request) => ContactView::from_envelope_text(text@) == Some(request@),
                Err(error) => ContactView::from_envelope_text(text@) is None && error is Serde,
            },
    {
        match Json::parse(text) {
            Ok(json) => ContactRequest::from_json(&json),
            Err(error) => Err(error),
        }
    }
}

/// The names of the members of a contact differ from each other, and so do
/// those of a field value.
proof fn lemma_member_names_differ()
    ensures
        "email"@ != "firstName"@,
        "email"@ != "lastName"@,
        "email"@ != "phone"@,
        "email"@ != "fieldValues"@,
        "firstName"@ != "lastName"@,
        "firstName"@ != "phone"@,
        "firstName"@ != "fieldValues"@,
        "lastName"@ != "phone"@,
        "lastName"@ != "fieldValues"@,
        "phone"@ != "fieldValues"@,
        "field"@ != "value"@,
{
    reveal_strlit("email");
    reveal_strlit("firstName");
    reveal_strlit("lastName");
    reveal_strlit("phone");
    reveal_strlit("fieldValues");
    reveal_strlit("field");
    reveal_strlit("value");
    assert("email"@.len() == 5 && "phone"@.len() == 5 && "field"@.len() == 5);
    assert("firstName"@.len() == 9 && "lastName"@.len() == 8 && "fieldValues"@.len() == 11);
    assert("email"@[0] != "phone"@[0]);
    assert("field"@[0] != "value"@[0]);
}

/// A field value that is written and read again is the same field value.
pub proof fn lemma_field_value_round_trip(value: FieldValueView)
    ensures
        FieldValueView::from_json(value.to_json()) == Some(value),
{
    lemma_member_names_differ();
}

/// A list of field values that is written and read again is the same list,
/// whether it is empty or not.
pub proof fn lemma_field_values_round_trip(values: Seq<FieldValueView>)
    ensures
        read_field_values(write_field_values(values)) == Some(values),
{
    let items = write_field_values(values);
    assert forall|i: int| 0 <= i < items.len() implies (#[trigger] FieldValueView::from_json(
        items[i],
    )) == Some(values[i]) by {
        lemma_field_value_round_trip(values[i]);
    }
    assert(items.map_values(|item: JsonView| FieldValueView::from_json(item)->0) =~= values);
}

/// A contact that is written as JSON and read again is the same contact,
/// with or without its envelope, and whether its field values are absent,
/// empty or populated.
pub proof fn lemma_contact_round_trip(contact: ContactView)
    ensures
        ContactView::from_json(contact.to_json()) == Some(contact),
        ContactView::from_envelope(contact.to_envelope()) == Some(contact),
{
    lemma_member_names_differ();
    if contact.field_values is Some {
        lemma_field_values_round_trip(contact.field_values->0);
    }
    let json = contact.to_json();
    assert(json.member("email"@) == Some(JsonView::String(contact.email)));
    assert(read_optional(json, "firstName"@) == Some(contact.first_name));
    assert(read_optional(json, "lastName"@) == Some(contact.last_name));
    assert(read_optional(json, "phone"@) == Some(contact.phone));
    assert(read_optional_field_values(json) == Some(contact.field_values));
    assert(contact.to_envelope().member("contact"@) == Some(json));
}

/// A document without the member `email` holds no contact.
pub proof fn lemma_missing_email_fails(json: JsonView)
    requires
        json.member("email"@) is None,
    ensures
        ContactView::from_json(json) is None,
{
}

/// An envelope holds no contact where it has no member `contact`, or where
/// that member has no member `email`.
pub proof fn lemma_envelope_without_email_fails(envelope: JsonView)
    requires
        match envelope.member("contact"@) {
            Some(contact) => contact.member("email"@) is None,
            None => true,
        },
    ensures
        ContactView::from_envelope(envelope) is None,
{
}

} // verus!
