use active_campaign::error::CustomError;
use active_campaign::json::Json;
use active_campaign::models::contact::{Contact, ContactRequest, FieldValue};

const FULL: &str = r#"{
            "contact": {
                "email": "johndoe@example.com",
                "firstName": "John",
                "lastName": "Doe",
                "phone": "7223224241",
                "fieldValues": [
                    {
                        "field": "1",
                        "value": "The Value for First Field"
                    },
                    {
                        "field": "6",
                        "value": "2008-01-20"
                    }
                ]
            }
        }"#;

#[test]
fn deserialize_missing_email_fails() {
    let json_str = r#"{
            "contact": {
                "firstName": "John",
                "lastName": "Doe",
                "phone": "7223224241",
                "fieldValues": [
                    {
                        "field": "1",
                        "value": "The Value for First Field"
                    },
                    {
                        "field": "6",
                        "value": "2008-01-20"
                    }
                ]
            }
        }"#;

    let result = Contact::from_json_text(json_str);
    assert!(result.is_err());
    let envelope = ContactRequest::from_json_text(json_str);
    assert!(matches!(envelope, Err(CustomError::Serde(_))));
}

#[test]
fn deserialize_1() {
    let request = ContactRequest::from_json_text(FULL).unwrap();
    assert_eq!(request.contact, Contact::default());
}

#[test]
fn deserialize_2() {
    let json_str = r#"{
            "contact": {
                "email": "johndoe@example.com",
                "firstName": "John",
                "lastName": null,
                "phone": "7223224241",
                "fieldValues": null
            }
        }"#;

    let request = ContactRequest::from_json_text(json_str).unwrap();
    assert_eq!(
        request.contact,
        Contact::new(
            "johndoe@example.com".to_owned(),
            Some("John".to_owned()),
            None,
            Some("7223224241".to_owned()),
            None,
        )
    );
}

#[test]
fn deserialize_3() {
    let json_str = r#"{
            "contact": {
                "email": "johndoe@example.com",
                "lastName": null,
                "phone": "7223224241"
            }
        }"#;

    let request = ContactRequest::from_json_text(json_str).unwrap();
    assert_eq!(
        request.contact,
        Contact::new(
            "johndoe@example.com".to_owned(),
            None,
            None,
            Some("7223224241".to_owned()),
            None,
        )
    );
}

#[test]
fn serialize_1() {
    let request = ContactRequest::new(Contact::default());
    let text = request.to_json_text().unwrap();
    let value: serde_json::Value = serde_json::from_str(&text).unwrap();
    assert_eq!(value["contact"]["email"], "johndoe@example.com");
    assert_eq!(value["contact"]["firstName"], "John");
    assert_eq!(value["contact"]["lastName"], "Doe");
    assert_eq!(value["contact"]["phone"], "7223224241");
    assert_eq!(value["contact"]["fieldValues"][0]["field"], "1");
    assert_eq!(value["contact"]["fieldValues"][0]["value"], "The Value for First Field");
    assert_eq!(value["contact"]["fieldValues"][1]["field"], "6");
    assert_eq!(value["contact"]["fieldValues"][1]["value"], "2008-01-20");
}

#[test]
fn serialize_2() {
    let contact = Contact {
        email: "johndoe@example.com".to_owned(),
        first_name: None,
        last_name: None,
        phone: None,
        field_values: None,
    };

    let request = ContactRequest::new(contact);
    let text = request.to_json_text().unwrap();
    assert_eq!(
        text,
        r#"{"contact":{"email":"johndoe@example.com"}}"#
    );
}

#[test]
fn serialize_deserialize_1() {
    let contact = Contact {
        field_values: None,
        ..Default::default()
    };

    let serialized_contact = contact.to_json_text().unwrap();
    let deserialized_contact = Contact::from_json_text(&serialized_contact).unwrap();

    assert_eq!(contact, deserialized_contact);
}

#[test]
fn serialize_deserialize_2() {
    let contact = Contact {
        field_values: Some(vec![]),
        ..Default::default()
    };

    let serialized_contact = contact.to_json_text().unwrap();
    let deserialized_contact = Contact::from_json_text(&serialized_contact).unwrap();

    assert_eq!(contact, deserialized_contact);
}

#[test]
fn round_trip_with_populated_field_values() {
    let contact = Contact::default();
    let text = contact.to_json_text().unwrap();
    assert_eq!(Contact::from_json_text(&text).unwrap(), contact);
    let document = contact.to_json();
    assert_eq!(Contact::from_json(&document).unwrap(), contact);
    let envelope = ContactRequest::new(Contact::default()).to_json();
    assert_eq!(ContactRequest::from_json(&envelope).unwrap().contact, contact);
}

#[test]
fn default_contact_is_john_doe() {
    let contact = Contact::default();
    assert_eq!(contact.email, "johndoe@example.com");
    assert_eq!(contact.first_name.as_deref(), Some("John"));
    assert_eq!(contact.last_name.as_deref(), Some("Doe"));
    assert_eq!(contact.phone.as_deref(), Some("7223224241"));
    assert_eq!(
        contact.field_values,
        Some(vec![
            FieldValue { field: "1".to_owned(), value: "The Value for First Field".to_owned() },
            FieldValue { field: "6".to_owned(), value: "2008-01-20".to_owned() },
        ])
    );
}

#[test]
fn to_request_wraps_the_contact_in_an_envelope() {
    let body = Contact::default().to_request().unwrap();
    let read = ContactRequest::from_json_text(&body).unwrap();
    assert_eq!(read.contact, Contact::default());
    assert!(Contact::from_json_text(&body).is_err());
    assert!(body.starts_with(r#"{"contact":{"#));
}

#[test]
fn members_of_the_wrong_kind_are_refused() {
    assert!(Contact::from_json_text(r#"{"email": 7}"#).is_err());
    assert!(Contact::from_json_text(r#"{"email": "a@b.c", "firstName": 1}"#).is_err());
    assert!(Contact::from_json_text(r#"{"email": "a@b.c", "lastName": []}"#).is_err());
    assert!(Contact::from_json_text(r#"{"email": "a@b.c", "phone": {}}"#).is_err());
    assert!(Contact::from_json_text(r#"{"email": "a@b.c", "fieldValues": "x"}"#).is_err());
    assert!(Contact::from_json_text(r#"{"email": "a@b.c", "fieldValues": [{"field": "1"}]}"#).is_err());
    assert!(Contact::from_json_text(r#"["a@b.c"]"#).is_err());
    assert!(Contact::from_json_text("not json").is_err());
    assert!(ContactRequest::from_json_text(r#"{"email": "a@b.c"}"#).is_err());
}

#[test]
fn unknown_members_are_ignored_and_the_last_of_a_key_counts() {
    let contact = Contact::from_json_text(r#"{"email": "a@b.c", "id": "9", "links": {}}"#).unwrap();
    assert_eq!(contact, Contact::new("a@b.c".to_owned(), None, None, None, None));
    let document = Json::Object(vec![
        ("email".to_owned(), Json::String("first@b.c".to_owned())),
        ("email".to_owned(), Json::String("last@b.c".to_owned())),
    ]);
    assert_eq!(Contact::from_json(&document).unwrap().email, "last@b.c");
}

#[test]
fn field_value_round_trip() {
    let value = FieldValue { field: "6".to_owned(), value: "2008-01-20".to_owned() };
    assert_eq!(FieldValue::from_json(&value.to_json()).unwrap(), value);
    assert!(FieldValue::from_json(&Json::Null).is_err());
}

#[test]
fn absent_fields_are_left_out_and_present_ones_are_written() {
    let only_email = Contact::new("a@b.c".to_owned(), None, None, None, None);
    assert_eq!(only_email.to_json(), Json::Object(vec![("email".to_owned(), Json::String("a@b.c".to_owned()))]));
    assert_eq!(only_email.to_json_text().unwrap(), r#"{"email":"a@b.c"}"#);
    assert_eq!(only_email.to_request().unwrap(), r#"{"contact":{"email":"a@b.c"}}"#);

    let some = Contact::new("a@b.c".to_owned(), None, Some("Doe".to_owned()), None, Some(vec![]));
    assert_eq!(some.to_json_text().unwrap(), r#"{"email":"a@b.c","fieldValues":[],"lastName":"Doe"}"#);
    assert_eq!(Contact::from_json_text(&some.to_json_text().unwrap()).unwrap(), some);

    let full = Contact::default().to_json_text().unwrap();
    assert_eq!(
        full,
        r#"{"email":"johndoe@example.com","fieldValues":[{"field":"1","value":"The Value for First Field"},{"field":"6","value":"2008-01-20"}],"firstName":"John","lastName":"Doe","phone":"7223224241"}"#
    );
}

#[test]
fn writing_a_contact_succeeds_for_any_strings() {
    let odd = Contact::new(
        "\u{0}\"quoted\"\n\u{7f}ü€\\".to_owned(),
        Some(String::new()),
        Some("\t".to_owned()),
        Some("\u{1f600}".to_owned()),
        Some(vec![FieldValue { field: "\"".to_owned(), value: "\r\n".to_owned() }]),
    );
    let body = odd.clone().to_request().unwrap();
    assert_eq!(ContactRequest::from_json_text(&body).unwrap().contact, odd);
}
