use genai_types::errors::GenAiError;
use genai_types::json::from_text;
use genai_types::wire::{
    cloned_values, expected_fault, fault, fields_of, flag_of, items_of, missing_fault, number_of,
    optional, read_items, read_number, read_opt_flag, read_opt_items, read_opt_number,
    read_opt_text, read_text, read_u32, required, text_of, u32_of,
};

fn json_error(message: &str) -> GenAiError {
    GenAiError::JsonError(message.to_string())
}

#[test]
fn fault_carries_the_message() {
    assert_eq!(fault("boom".to_string()), json_error("boom"));
}

#[test]
fn missing_fault_names_the_field() {
    assert_eq!(missing_fault("model"), json_error("missing field `model`"));
}

#[test]
fn expected_fault_names_field_and_kind() {
    assert_eq!(
        expected_fault("max_tokens", "an unsigned 32-bit integer"),
        json_error("field `max_tokens` must be an unsigned 32-bit integer")
    );
}

#[test]
fn fields_of_takes_objects_only() {
    let v = from_text("{\"a\": 1}").unwrap();
    assert_eq!(fields_of(&v).unwrap().len(), 1);
    let v = from_text("[1]").unwrap();
    assert_eq!(fields_of(&v), Err(json_error("expected a JSON object")));
    let v = from_text("\"text\"").unwrap();
    assert_eq!(fields_of(&v), Err(json_error("expected a JSON object")));
}

#[test]
fn required_finds_the_field_or_says_it_is_missing() {
    let v = from_text("{\"a\": 1, \"b\": null}").unwrap();
    let m = fields_of(&v).unwrap();
    assert_eq!(required(m, "a").unwrap().as_u64(), Some(1));
    assert!(required(m, "b").unwrap().is_null());
    assert_eq!(required(m, "c"), Err(json_error("missing field `c`")));
}

#[test]
fn optional_takes_missing_and_null_as_absent() {
    let v = from_text("{\"a\": false, \"b\": null}").unwrap();
    let m = fields_of(&v).unwrap();
    assert_eq!(optional(m, "a").unwrap().as_bool(), Some(false));
    assert_eq!(optional(m, "b"), None);
    assert_eq!(optional(m, "c"), None);
}

#[test]
fn text_of_takes_strings_only() {
    assert_eq!(text_of(&from_text("\"hi\"").unwrap(), "k"), Ok("hi".to_string()));
    assert_eq!(text_of(&from_text("\"\"").unwrap(), "k"), Ok(String::new()));
    assert_eq!(
        text_of(&from_text("3").unwrap(), "k"),
        Err(json_error("field `k` must be a string"))
    );
    assert_eq!(
        text_of(&from_text("null").unwrap(), "k"),
        Err(json_error("field `k` must be a string"))
    );
}

#[test]
fn flag_of_takes_booleans_only() {
    assert_eq!(flag_of(&from_text("true").unwrap(), "k"), Ok(true));
    assert_eq!(flag_of(&from_text("false").unwrap(), "k"), Ok(false));
    assert_eq!(
        flag_of(&from_text("0").unwrap(), "k"),
        Err(json_error("field `k` must be a boolean"))
    );
}

#[test]
fn u32_of_takes_unsigned_integers_up_to_the_largest() {
    assert_eq!(u32_of(&from_text("0").unwrap(), "k"), Ok(0));
    assert_eq!(u32_of(&from_text("100").unwrap(), "k"), Ok(100));
    assert_eq!(u32_of(&from_text("4294967295").unwrap(), "k"), Ok(u32::MAX));
}

#[test]
fn u32_of_turns_down_what_does_not_fit() {
    let e = Err(json_error("field `k` must be an unsigned 32-bit integer"));
    assert_eq!(u32_of(&from_text("4294967296").unwrap(), "k"), e);
    assert_eq!(u32_of(&from_text("-1").unwrap(), "k"), e);
    assert_eq!(u32_of(&from_text("1.0").unwrap(), "k"), e);
    assert_eq!(u32_of(&from_text("\"1\"").unwrap(), "k"), e);
}

#[test]
fn number_of_takes_any_number() {
    let n = number_of(&from_text("0.5").unwrap(), "k").unwrap();
    assert_eq!(n.as_f64(), Some(0.5));
    let n = number_of(&from_text("-7").unwrap(), "k").unwrap();
    assert_eq!(n.as_i64(), Some(-7));
    assert_eq!(
        number_of(&from_text("\"0.5\"").unwrap(), "k"),
        Err(json_error("field `k` must be a number"))
    );
}

#[test]
fn items_of_takes_arrays_only() {
    let v = from_text("[1, 2, 3]").unwrap();
    assert_eq!(items_of(&v, "k").unwrap().len(), 3);
    let v = from_text("{}").unwrap();
    assert_eq!(items_of(&v, "k"), Err(json_error("field `k` must be an array")));
}

#[test]
fn cloned_values_keeps_values_and_order() {
    let v = from_text("[1, \"two\", [3], {\"four\": 4}]").unwrap();
    let items = v.as_array().unwrap();
    assert_eq!(&cloned_values(items), items);
    assert_eq!(cloned_values(&Vec::new()), Vec::<serde_json::Value>::new());
}

#[test]
fn read_text_needs_the_field_and_a_string() {
    let v = from_text("{\"a\": \"x\", \"b\": 1, \"c\": null}").unwrap();
    let m = fields_of(&v).unwrap();
    assert_eq!(read_text(m, "a"), Ok("x".to_string()));
    assert_eq!(read_text(m, "b"), Err(json_error("field `b` must be a string")));
    assert_eq!(read_text(m, "c"), Err(json_error("field `c` must be a string")));
    assert_eq!(read_text(m, "d"), Err(json_error("missing field `d`")));
}

#[test]
fn read_opt_text_takes_missing_and_null_as_absent() {
    let v = from_text("{\"a\": \"x\", \"b\": 1, \"c\": null, \"e\": \"\"}").unwrap();
    let m = fields_of(&v).unwrap();
    assert_eq!(read_opt_text(m, "a"), Ok(Some("x".to_string())));
    assert_eq!(read_opt_text(m, "e"), Ok(Some(String::new())));
    assert_eq!(read_opt_text(m, "b"), Err(json_error("field `b` must be a string")));
    assert_eq!(read_opt_text(m, "c"), Ok(None));
    assert_eq!(read_opt_text(m, "d"), Ok(None));
}

#[test]
fn read_opt_flag_tells_false_from_absent() {
    let v = from_text("{\"a\": false, \"b\": true, \"c\": null, \"e\": 0}").unwrap();
    let m = fields_of(&v).unwrap();
    assert_eq!(read_opt_flag(m, "a"), Ok(Some(false)));
    assert_eq!(read_opt_flag(m, "b"), Ok(Some(true)));
    assert_eq!(read_opt_flag(m, "c"), Ok(None));
    assert_eq!(read_opt_flag(m, "d"), Ok(None));
    assert_eq!(read_opt_flag(m, "e"), Err(json_error("field `e` must be a boolean")));
}

#[test]
fn read_u32_needs_the_field_and_a_fitting_integer() {
    let v = from_text("{\"a\": 7, \"b\": 4294967296, \"c\": null}").unwrap();
    let m = fields_of(&v).unwrap();
    assert_eq!(read_u32(m, "a"), Ok(7));
    assert_eq!(
        read_u32(m, "b"),
        Err(json_error("field `b` must be an unsigned 32-bit integer"))
    );
    assert_eq!(
        read_u32(m, "c"),
        Err(json_error("field `c` must be an unsigned 32-bit integer"))
    );
    assert_eq!(read_u32(m, "d"), Err(json_error("missing field `d`")));
}

#[test]
fn read_number_and_read_opt_number_take_any_number() {
    let v = from_text("{\"a\": 1.5, \"b\": \"1.5\", \"c\": null, \"e\": 2}").unwrap();
    let m = fields_of(&v).unwrap();
    assert_eq!(read_number(m, "a").unwrap().as_f64(), Some(1.5));
    assert_eq!(read_number(m, "e").unwrap().as_u64(), Some(2));
    assert_eq!(read_number(m, "b"), Err(json_error("field `b` must be a number")));
    assert_eq!(read_number(m, "c"), Err(json_error("field `c` must be a number")));
    assert_eq!(read_number(m, "d"), Err(json_error("missing field `d`")));
    assert_eq!(read_opt_number(m, "a").unwrap().unwrap().as_f64(), Some(1.5));
    assert_eq!(read_opt_number(m, "b"), Err(json_error("field `b` must be a number")));
    assert_eq!(read_opt_number(m, "c"), Ok(None));
    assert_eq!(read_opt_number(m, "d"), Ok(None));
}

#[test]
fn read_items_and_read_opt_items_take_arrays() {
    let v = from_text("{\"a\": [1, 2], \"b\": {}, \"c\": null, \"e\": []}").unwrap();
    let m = fields_of(&v).unwrap();
    assert_eq!(read_items(m, "a").unwrap().len(), 2);
    assert_eq!(read_items(m, "e").unwrap().len(), 0);
    assert_eq!(read_items(m, "b"), Err(json_error("field `b` must be an array")));
    assert_eq!(read_items(m, "c"), Err(json_error("field `c` must be an array")));
    assert_eq!(read_items(m, "d"), Err(json_error("missing field `d`")));
    assert_eq!(read_opt_items(m, "a").unwrap().unwrap().len(), 2);
    assert_eq!(read_opt_items(m, "e"), Ok(Some(Vec::new())));
    assert_eq!(read_opt_items(m, "b"), Err(json_error("field `b` must be an array")));
    assert_eq!(read_opt_items(m, "c"), Ok(None));
    assert_eq!(read_opt_items(m, "d"), Ok(None));
}
