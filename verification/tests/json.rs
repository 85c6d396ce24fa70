use active_campaign::error::CustomError;
use active_campaign::json::Json;

#[test]
fn parse_reads_every_kind_of_value() {
    let json = Json::parse(r#"{"a": null, "b": true, "c": "text", "d": [1, "x"], "e": {"f": "g"}}"#).unwrap();
    assert!(json.get("a").unwrap().is_null());
    assert_eq!(json.get("b"), Some(&Json::Bool(true)));
    assert_eq!(json.get("c").unwrap().as_str(), Some("text"));
    let items = json.get("d").unwrap().as_array().unwrap();
    assert_eq!(items.len(), 2);
    assert!(matches!(items[0], Json::Number(_)));
    assert_eq!(json.get("d").unwrap().at(1).unwrap().as_str(), Some("x"));
    assert!(json.get("d").unwrap().at(2).is_none());
    assert_eq!(json.get("e").unwrap().get("f").unwrap().as_str(), Some("g"));
    assert!(json.get("missing").is_none());
    assert!(json.at(0).is_none());
    assert!(json.as_str().is_none());
    assert!(json.as_array().is_none());
}

#[test]
fn parse_refuses_what_is_no_json() {
    assert!(matches!(Json::parse("{"), Err(CustomError::Serde(_))));
    assert!(matches!(Json::parse(""), Err(CustomError::Serde(_))));
}

#[test]
fn to_text_writes_what_parse_reads() {
    let text = r#"{"a":[1,2.5,-3,"x",null,false],"b":{"c":"d"}}"#;
    let json = Json::parse(text).unwrap();
    assert_eq!(json.to_text().unwrap(), text);
}

#[test]
fn to_text_escapes_strings() {
    let json = Json::Array(vec![Json::String("a\"b\n".to_owned()), Json::Null, Json::Bool(true)]);
    assert_eq!(json.to_text().unwrap(), r#"["a\"b\n",null,true]"#);
}

#[test]
fn the_last_member_of_a_key_is_the_one_that_is_found_and_written() {
    let json = Json::Object(vec![
        ("k".to_owned(), Json::String("first".to_owned())),
        ("j".to_owned(), Json::Null),
        ("k".to_owned(), Json::String("last".to_owned())),
    ]);
    assert_eq!(json.get("k").unwrap().as_str(), Some("last"));
    assert_eq!(json.to_text().unwrap(), r#"{"j":null,"k":"last"}"#);
}

#[test]
fn error_messages() {
    let error = Json::parse("{").unwrap_err();
    assert_eq!(error.describe(), "serde_json");
    assert_eq!(CustomError::Other("something else".to_owned()).describe(), "something else");
    let wrapped: CustomError = serde_json::from_str::<serde_json::Value>("[").unwrap_err().into();
    assert!(matches!(wrapped, CustomError::Serde(_)));
    let io: CustomError = std::io::Error::other("disk").into();
    assert_eq!(io.describe(), "IO");
}
