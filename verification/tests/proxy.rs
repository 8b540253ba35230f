use genai_types::completion::{CompletionRequest, CompletionResponse, StopReason, Usage};
use genai_types::errors::GenAiError;
use genai_types::json::{from_text, to_text};
use genai_types::messages::{Message, MessageContent, Role};
use genai_types::models::ModelInfo;
use genai_types::proxy::{ProxyRequest, ProxyResponse};

fn json_error(message: &str) -> GenAiError {
    GenAiError::JsonError(message.to_string())
}

fn request() -> CompletionRequest {
    CompletionRequest {
        model: "model-x".to_string(),
        messages: vec![Message {
            role: Role::User,
            content: vec![MessageContent::Text { text: "hello".to_string() }],
        }],
        max_tokens: 100,
        temperature: None,
        system: None,
        tools: None,
        tool_choice: None,
        disable_parallel_tool_use: None,
    }
}

fn completion(stop_reason: StopReason) -> CompletionResponse {
    CompletionResponse {
        content: vec![MessageContent::Text { text: "hi".to_string() }],
        id: "msg_1".to_string(),
        model: "model-x".to_string(),
        role: Role::Assistant,
        stop_reason,
        stop_sequence: None,
        message_type: "message".to_string(),
        usage: Usage { input_tokens: 1, output_tokens: 2 },
    }
}

fn model(id: &str) -> ModelInfo {
    ModelInfo {
        id: id.to_string(),
        display_name: id.to_uppercase(),
        max_tokens: 1000,
        provider: "p".to_string(),
        pricing: None,
    }
}

#[test]
fn list_models_request_is_its_name() {
    assert_eq!(to_text(&ProxyRequest::ListModels.encode()).unwrap(), "\"ListModels\"");
    assert_eq!(ProxyRequest::decode(&from_text("\"ListModels\"").unwrap()), Ok(ProxyRequest::ListModels));
}

#[test]
fn list_models_request_may_come_as_an_object_with_null() {
    let v = from_text("{\"ListModels\": null}").unwrap();
    assert_eq!(ProxyRequest::decode(&v), Ok(ProxyRequest::ListModels));
    let v = from_text("{\"ListModels\": {}}").unwrap();
    assert_eq!(ProxyRequest::decode(&v), Err(json_error("variant has no fields")));
}

#[test]
fn generate_completion_request_is_tagged_by_its_name() {
    let envelope = ProxyRequest::GenerateCompletion { request: request() };
    let v = envelope.encode();
    assert_eq!(v.as_object().unwrap().len(), 1);
    let inner = v.get("GenerateCompletion").unwrap();
    assert_eq!(inner.as_object().unwrap().len(), 1);
    assert_eq!(inner.get("request").unwrap(), &request().encode());
    assert_eq!(ProxyRequest::decode(&v), Ok(envelope));
}

#[test]
fn proxy_request_rejects_other_shapes() {
    let shape = json_error("expected a variant name or an object with a single key");
    assert_eq!(ProxyRequest::decode(&from_text("3").unwrap()), Err(shape.clone()));
    assert_eq!(ProxyRequest::decode(&from_text("{}").unwrap()), Err(shape.clone()));
    let v = from_text("{\"ListModels\": null, \"GenerateCompletion\": {}}").unwrap();
    assert_eq!(ProxyRequest::decode(&v), Err(shape));
}

#[test]
fn proxy_request_rejects_unknown_and_incomplete_variants() {
    assert_eq!(
        ProxyRequest::decode(&from_text("\"Shutdown\"").unwrap()),
        Err(json_error("unknown variant"))
    );
    assert_eq!(
        ProxyRequest::decode(&from_text("{\"Shutdown\": null}").unwrap()),
        Err(json_error("unknown variant"))
    );
    assert_eq!(
        ProxyRequest::decode(&from_text("\"GenerateCompletion\"").unwrap()),
        Err(json_error("variant needs its fields"))
    );
    assert_eq!(
        ProxyRequest::decode(&from_text("{\"GenerateCompletion\": {}}").unwrap()),
        Err(json_error("missing field `request`"))
    );
    assert_eq!(
        ProxyRequest::decode(&from_text("{\"GenerateCompletion\": {\"request\": {}}}").unwrap()),
        Err(json_error("missing field `model`"))
    );
    assert_eq!(
        ProxyRequest::decode(&from_text("{\"GenerateCompletion\": 1}").unwrap()),
        Err(json_error("expected a JSON object"))
    );
}

#[test]
fn api_error_is_flattened_to_one_line() {
    let error = GenAiError::ApiError { status: 429, message: "Too many requests".to_string() };
    let response = ProxyResponse::from_error(&error);
    assert_eq!(
        response,
        ProxyResponse::Error { error: "API error (429): Too many requests".to_string() }
    );
    let v = response.encode();
    assert_eq!(
        to_text(&v).unwrap(),
        "{\"Error\":{\"error\":\"API error (429): Too many requests\"}}"
    );
    let inner = v.get("Error").unwrap().as_object().unwrap();
    assert_eq!(inner.len(), 1);
    assert!(inner.get("status").is_none());
    assert!(inner.get("message").is_none());
    assert_eq!(ProxyResponse::decode(&v), Ok(response));
}

#[test]
fn every_kind_of_error_is_flattened_to_its_text() {
    let errors = vec![
        GenAiError::HttpError("down".to_string()),
        GenAiError::JsonError("bad".to_string()),
        GenAiError::InvalidResponse("odd".to_string()),
        GenAiError::RateLimitExceeded { retry_after: Some(5) },
        GenAiError::RateLimitExceeded { retry_after: None },
        GenAiError::AuthenticationError("no".to_string()),
    ];
    for error in errors {
        assert_eq!(
            ProxyResponse::from_error(&error),
            ProxyResponse::Error { error: error.to_string() }
        );
    }
}

#[test]
fn list_models_response_round_trips() {
    let response = ProxyResponse::ListModels { models: vec![model("a"), model("b")] };
    let v = response.encode();
    let models = v.get("ListModels").unwrap().get("models").unwrap().as_array().unwrap();
    assert_eq!(models.len(), 2);
    assert_eq!(models[0].get("id").unwrap().as_str(), Some("a"));
    assert_eq!(models[1].get("id").unwrap().as_str(), Some("b"));
    assert_eq!(ProxyResponse::decode(&v), Ok(response));
    let none = ProxyResponse::ListModels { models: Vec::new() };
    assert_eq!(ProxyResponse::decode(&none.encode()), Ok(none));
}

#[test]
fn completion_response_round_trips() {
    let response = ProxyResponse::Completion { completion: completion(StopReason::ToolUse) };
    let v = response.encode();
    assert_eq!(
        v.get("Completion").unwrap().get("completion").unwrap(),
        &completion(StopReason::ToolUse).encode()
    );
    assert_eq!(ProxyResponse::decode(&v), Ok(response));
}

#[test]
fn proxy_response_rejects_other_shapes_and_variants() {
    let shape = json_error("expected a variant name or an object with a single key");
    assert_eq!(ProxyResponse::decode(&from_text("null").unwrap()), Err(shape.clone()));
    let v = from_text("{\"Error\": {\"error\": \"x\"}, \"Completion\": {}}").unwrap();
    assert_eq!(ProxyResponse::decode(&v), Err(shape));
    assert_eq!(
        ProxyResponse::decode(&from_text("\"Error\"").unwrap()),
        Err(json_error("variant needs its fields"))
    );
    assert_eq!(
        ProxyResponse::decode(&from_text("\"Other\"").unwrap()),
        Err(json_error("unknown variant"))
    );
    assert_eq!(
        ProxyResponse::decode(&from_text("{\"error\": \"x\"}").unwrap()),
        Err(json_error("unknown variant"))
    );
    assert_eq!(
        ProxyResponse::decode(&from_text("{\"Error\": {\"error\": 5}}").unwrap()),
        Err(json_error("field `error` must be a string"))
    );
    assert_eq!(
        ProxyResponse::decode(&from_text("{\"ListModels\": {\"models\": 1}}").unwrap()),
        Err(json_error("field `models` must be an array"))
    );
    assert_eq!(
        ProxyResponse::decode(&from_text("{\"Completion\": {}}").unwrap()),
        Err(json_error("missing field `completion`"))
    );
}
