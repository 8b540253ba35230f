use genai_types::errors::GenAiError;
use genai_types::json::{from_text, to_text};
use genai_types::models::{decode_models, encode_models, ModelInfo, ModelPricing};
use serde_json::Number;

fn json_error(message: &str) -> GenAiError {
    GenAiError::JsonError(message.to_string())
}

fn pricing(input: f64, output: f64) -> ModelPricing {
    ModelPricing {
        input_cost_per_million_tokens: Number::from_f64(input).unwrap(),
        output_cost_per_million_tokens: Number::from_f64(output).unwrap(),
    }
}

fn model(id: &str, pricing: Option<ModelPricing>) -> ModelInfo {
    ModelInfo {
        id: id.to_string(),
        display_name: format!("Model {}", id),
        max_tokens: 200000,
        provider: "anthropic".to_string(),
        pricing,
    }
}

#[test]
fn pricing_encodes_both_costs() {
    let text = to_text(&pricing(3.0, 15.5).encode()).unwrap();
    assert_eq!(
        text,
        "{\"input_cost_per_million_tokens\":3.0,\"output_cost_per_million_tokens\":15.5}"
    );
}

#[test]
fn pricing_round_trips() {
    let p = pricing(0.25, 1.25);
    assert_eq!(ModelPricing::decode(&p.encode()), Ok(p));
}

#[test]
fn pricing_keeps_integer_costs_as_they_are() {
    let v = from_text(
        "{\"input_cost_per_million_tokens\": 3, \"output_cost_per_million_tokens\": 15}",
    )
    .unwrap();
    let p = ModelPricing::decode(&v).unwrap();
    assert_eq!(p.input_cost_per_million_tokens, Number::from(3u64));
    assert_eq!(p.output_cost_per_million_tokens, Number::from(15u64));
    assert_eq!(p.encode(), v);
}

#[test]
fn pricing_needs_both_costs_as_numbers() {
    let v = from_text("{\"input_cost_per_million_tokens\": 3.0}").unwrap();
    assert_eq!(
        ModelPricing::decode(&v),
        Err(json_error("missing field `output_cost_per_million_tokens`"))
    );
    let v = from_text(
        "{\"input_cost_per_million_tokens\": \"3\", \"output_cost_per_million_tokens\": 1}",
    )
    .unwrap();
    assert_eq!(
        ModelPricing::decode(&v),
        Err(json_error("field `input_cost_per_million_tokens` must be a number"))
    );
}

#[test]
fn model_without_pricing_has_no_pricing_key() {
    let v = model("m1", None).encode();
    assert!(v.get("pricing").is_none());
    assert_eq!(v.as_object().unwrap().len(), 4);
    assert_eq!(v.get("id").unwrap().as_str(), Some("m1"));
    assert_eq!(v.get("display_name").unwrap().as_str(), Some("Model m1"));
    assert_eq!(v.get("max_tokens").unwrap().as_u64(), Some(200000));
    assert_eq!(v.get("provider").unwrap().as_str(), Some("anthropic"));
}

#[test]
fn model_round_trips_with_and_without_pricing() {
    let with = model("m1", Some(pricing(3.0, 15.0)));
    assert_eq!(ModelInfo::decode(&with.encode()), Ok(with));
    let without = model("m2", None);
    assert_eq!(ModelInfo::decode(&without.encode()), Ok(without));
}

#[test]
fn model_takes_null_pricing_as_absent() {
    let v = from_text(
        "{\"id\": \"m\", \"display_name\": \"M\", \"max_tokens\": 1, \"provider\": \"p\", \"pricing\": null}",
    )
    .unwrap();
    assert_eq!(ModelInfo::decode(&v).unwrap().pricing, None);
}

#[test]
fn model_reports_the_first_field_that_fails() {
    let v = from_text("{\"display_name\": \"M\", \"max_tokens\": 1, \"provider\": \"p\"}").unwrap();
    assert_eq!(ModelInfo::decode(&v), Err(json_error("missing field `id`")));
    let v = from_text(
        "{\"id\": \"m\", \"display_name\": \"M\", \"max_tokens\": -1, \"provider\": \"p\"}",
    )
    .unwrap();
    assert_eq!(
        ModelInfo::decode(&v),
        Err(json_error("field `max_tokens` must be an unsigned 32-bit integer"))
    );
    let v = from_text(
        "{\"id\": \"m\", \"display_name\": \"M\", \"max_tokens\": 1, \"provider\": \"p\", \"pricing\": 5}",
    )
    .unwrap();
    assert_eq!(ModelInfo::decode(&v), Err(json_error("expected a JSON object")));
}

#[test]
fn models_keep_their_order() {
    let models = vec![model("a", None), model("b", Some(pricing(1.0, 2.0))), model("c", None)];
    let v = encode_models(&models);
    let items = v.as_array().unwrap();
    assert_eq!(items.len(), 3);
    assert_eq!(items[0].get("id").unwrap().as_str(), Some("a"));
    assert_eq!(items[2].get("id").unwrap().as_str(), Some("c"));
    assert_eq!(decode_models(items), Ok(models));
}

#[test]
fn models_report_the_first_element_that_fails() {
    let v = from_text(
        "[{\"id\": \"m\", \"display_name\": \"M\", \"max_tokens\": 1, \"provider\": \"p\"}, {\"id\": 7}, 3]",
    )
    .unwrap();
    assert_eq!(
        decode_models(v.as_array().unwrap()),
        Err(json_error("field `id` must be a string"))
    );
    assert_eq!(decode_models(&Vec::new()), Ok(Vec::new()));
}
