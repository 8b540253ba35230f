use genai_types::errors::GenAiError;
use genai_types::json::{from_text, to_text};
use serde_json::Value;

#[test]
fn from_text_parses_json() {
    let v = from_text("{\"a\": [1, true, null, \"x\"]}").unwrap();
    let items = v.get("a").unwrap().as_array().unwrap();
    assert_eq!(items.len(), 4);
    assert_eq!(items[0].as_u64(), Some(1));
    assert_eq!(items[1].as_bool(), Some(true));
    assert!(items[2].is_null());
    assert_eq!(items[3].as_str(), Some("x"));
}

#[test]
fn from_text_reports_the_parsers_diagnostic() {
    let expected = serde_json::from_str::<Value>("[1, 2").unwrap_err().to_string();
    assert_eq!(from_text("[1, 2"), Err(GenAiError::JsonError(expected)));
}

#[test]
fn from_text_rejects_empty_text() {
    assert!(matches!(from_text(""), Err(GenAiError::JsonError(_))));
}

#[test]
fn to_text_prints_compact_json() {
    let v = from_text("{ \"b\" : [ 1 , 2 ] , \"a\" : \"x\" }").unwrap();
    assert_eq!(to_text(&v), Ok("{\"a\":\"x\",\"b\":[1,2]}".to_string()));
}

#[test]
fn text_round_trips_through_a_value() {
    let text = "{\"k\":[null,false,\"s\",{\"n\":-3}]}";
    let v = from_text(text).unwrap();
    assert_eq!(to_text(&v).unwrap(), text);
}
