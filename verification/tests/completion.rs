use genai_types::completion::{CompletionRequest, CompletionResponse, StopReason, Usage};
use genai_types::errors::GenAiError;
use genai_types::json::{from_text, to_text};
use genai_types::messages::{Message, MessageContent, Role};
use genai_types::tool_choice::ToolChoice;
use serde_json::Number;

fn json_error(message: &str) -> GenAiError {
    GenAiError::JsonError(message.to_string())
}

fn simple_request() -> CompletionRequest {
    CompletionRequest {
        model: "model-x".to_string(),
        messages: vec![Message {
            role: Role::User,
            content: vec![MessageContent::Text { text: "hello".to_string() }],
        }],
        max_tokens: 100,
        temperature: None,
        system: None,
        tools: None,
        tool_choice: None,
        disable_parallel_tool_use: None,
    }
}

fn full_request() -> CompletionRequest {
    CompletionRequest {
        temperature: Some(Number::from_f64(0.5).unwrap()),
        system: Some("be brief".to_string()),
        tools: Some(vec![from_text(
            "{\"name\": \"search\", \"input_schema\": {\"type\": \"object\"}}",
        )
        .unwrap()]),
        tool_choice: Some(ToolChoice::Tool { name: "search".to_string() }),
        disable_parallel_tool_use: Some(false),
        ..simple_request()
    }
}

fn response(stop_reason: StopReason, stop_sequence: Option<&str>) -> CompletionResponse {
    CompletionResponse {
        content: vec![MessageContent::Text { text: "hi".to_string() }],
        id: "msg_1".to_string(),
        model: "model-x".to_string(),
        role: Role::Assistant,
        stop_reason,
        stop_sequence: stop_sequence.map(|s| s.to_string()),
        message_type: "message".to_string(),
        usage: Usage { input_tokens: 10, output_tokens: 20 },
    }
}

#[test]
fn stop_reason_tokens() {
    assert_eq!(StopReason::EndTurn.as_str(), "end_turn");
    assert_eq!(StopReason::MaxTokens.as_str(), "max_tokens");
    assert_eq!(StopReason::StopSequence.as_str(), "stop_sequence");
    assert_eq!(StopReason::ToolUse.as_str(), "tool_use");
    assert_eq!(StopReason::Other("refusal".to_string()).as_str(), "refusal");
}

#[test]
fn stop_reason_from_token_knows_the_four_names() {
    assert_eq!(StopReason::from_token("end_turn"), StopReason::EndTurn);
    assert_eq!(StopReason::from_token("max_tokens"), StopReason::MaxTokens);
    assert_eq!(StopReason::from_token("stop_sequence"), StopReason::StopSequence);
    assert_eq!(StopReason::from_token("tool_use"), StopReason::ToolUse);
}

#[test]
fn unknown_stop_reason_is_kept_as_it_came() {
    let v = from_text("{\"stop_reason\": \"content_filtered\"}").unwrap();
    let reason = StopReason::decode(v.get("stop_reason").unwrap()).unwrap();
    assert_eq!(reason, StopReason::Other("content_filtered".to_string()));
    assert_eq!(reason.encode(), *v.get("stop_reason").unwrap());
    assert_eq!(to_text(&reason.encode()).unwrap(), "\"content_filtered\"");
}

#[test]
fn stop_reason_token_round_trips_for_any_text() {
    for token in ["end_turn", "max_tokens", "stop_sequence", "tool_use", "", "End_Turn", "other"] {
        assert_eq!(StopReason::from_token(token).as_str(), token);
    }
}

#[test]
fn stop_reason_round_trips() {
    for reason in [
        StopReason::EndTurn,
        StopReason::MaxTokens,
        StopReason::StopSequence,
        StopReason::ToolUse,
        StopReason::Other("pause_turn".to_string()),
    ] {
        assert_eq!(StopReason::decode(&reason.encode()), Ok(reason));
    }
}

#[test]
fn stop_reason_other_with_a_named_token_decodes_to_the_named_reason() {
    let odd = StopReason::Other("end_turn".to_string());
    assert_eq!(StopReason::decode(&odd.encode()), Ok(StopReason::EndTurn));
}

#[test]
fn stop_reason_must_be_a_string() {
    assert_eq!(
        StopReason::decode(&from_text("null").unwrap()),
        Err(json_error("field `stop_reason` must be a string"))
    );
}

#[test]
fn usage_round_trips() {
    let usage = Usage { input_tokens: 0, output_tokens: u32::MAX };
    assert_eq!(
        to_text(&usage.encode()).unwrap(),
        "{\"input_tokens\":0,\"output_tokens\":4294967295}"
    );
    assert_eq!(Usage::decode(&usage.encode()), Ok(usage));
}

#[test]
fn usage_rejects_negative_and_missing_counts() {
    let v = from_text("{\"input_tokens\": -1, \"output_tokens\": 2}").unwrap();
    assert_eq!(
        Usage::decode(&v),
        Err(json_error("field `input_tokens` must be an unsigned 32-bit integer"))
    );
    let v = from_text("{\"input_tokens\": 1}").unwrap();
    assert_eq!(Usage::decode(&v), Err(json_error("missing field `output_tokens`")));
}

#[test]
fn simple_request_encodes_role_and_text_block() {
    let v = simple_request().encode();
    assert_eq!(v.get("model").unwrap().as_str(), Some("model-x"));
    assert_eq!(v.get("max_tokens").unwrap().as_u64(), Some(100));
    let messages = v.get("messages").unwrap().as_array().unwrap();
    assert_eq!(messages.len(), 1);
    assert_eq!(messages[0].get("role").unwrap().as_str(), Some("user"));
    let content = messages[0].get("content").unwrap().as_array().unwrap();
    assert_eq!(content.len(), 1);
    assert_eq!(content[0].get("type").unwrap().as_str(), Some("text"));
    assert_eq!(content[0].get("text").unwrap().as_str(), Some("hello"));
    assert_eq!(content[0].as_object().unwrap().len(), 2);
    let text = to_text(&v).unwrap();
    assert!(text.contains("\"role\":\"user\""));
    assert!(text.contains("{\"text\":\"hello\",\"type\":\"text\"}"));
}

#[test]
fn absent_optionals_are_omitted_and_come_back_absent() {
    let request = simple_request();
    let v = request.encode();
    assert_eq!(v.as_object().unwrap().len(), 3);
    for key in ["temperature", "system", "tools", "tool_choice", "disable_parallel_tool_use"] {
        assert!(v.get(key).is_none());
    }
    assert_eq!(
        to_text(&v).unwrap(),
        "{\"max_tokens\":100,\"messages\":[{\"content\":[{\"text\":\"hello\",\"type\":\"text\"}],\"role\":\"user\"}],\"model\":\"model-x\"}"
    );
    let back = CompletionRequest::decode(&v).unwrap();
    assert_eq!(back.temperature, None);
    assert_eq!(back.system, None);
    assert_eq!(back.tools, None);
    assert_eq!(back.tool_choice, None);
    assert_eq!(back.disable_parallel_tool_use, None);
    assert_eq!(back, request);
}

#[test]
fn present_optionals_are_encoded_and_come_back() {
    let request = full_request();
    let v = request.encode();
    assert_eq!(v.as_object().unwrap().len(), 8);
    assert_eq!(v.get("temperature").unwrap().as_f64(), Some(0.5));
    assert_eq!(v.get("system").unwrap().as_str(), Some("be brief"));
    assert_eq!(v.get("tools").unwrap().as_array().unwrap().len(), 1);
    assert_eq!(v.get("tool_choice").unwrap().get("type").unwrap().as_str(), Some("tool"));
    assert_eq!(v.get("disable_parallel_tool_use").unwrap().as_bool(), Some(false));
    assert_eq!(CompletionRequest::decode(&v), Ok(request));
}

#[test]
fn falsy_optionals_are_not_taken_for_absent() {
    let request = CompletionRequest {
        temperature: Some(Number::from_f64(0.0).unwrap()),
        system: Some(String::new()),
        tools: Some(Vec::new()),
        disable_parallel_tool_use: Some(false),
        ..simple_request()
    };
    let back = CompletionRequest::decode(&request.encode()).unwrap();
    assert_eq!(back.temperature, Some(Number::from_f64(0.0).unwrap()));
    assert_eq!(back.system, Some(String::new()));
    assert_eq!(back.tools, Some(Vec::new()));
    assert_eq!(back.disable_parallel_tool_use, Some(false));
    assert_eq!(back, request);
}

#[test]
fn temperature_out_of_range_is_passed_through() {
    let request = CompletionRequest {
        temperature: Some(Number::from_f64(7.25).unwrap()),
        ..simple_request()
    };
    let v = request.encode();
    assert_eq!(v.get("temperature").unwrap().as_f64(), Some(7.25));
    assert_eq!(CompletionRequest::decode(&v), Ok(request));
    let negative = from_text(
        "{\"model\": \"m\", \"messages\": [], \"max_tokens\": 1, \"temperature\": -3}",
    )
    .unwrap();
    let back = CompletionRequest::decode(&negative).unwrap();
    assert_eq!(back.temperature, Some(Number::from(-3i64)));
}

#[test]
fn request_takes_null_optionals_as_absent() {
    let v = from_text(
        "{\"model\": \"m\", \"messages\": [], \"max_tokens\": 1, \"temperature\": null, \"system\": null, \"tools\": null, \"tool_choice\": null, \"disable_parallel_tool_use\": null}",
    )
    .unwrap();
    let back = CompletionRequest::decode(&v).unwrap();
    assert_eq!(
        back,
        CompletionRequest {
            model: "m".to_string(),
            messages: Vec::new(),
            max_tokens: 1,
            temperature: None,
            system: None,
            tools: None,
            tool_choice: None,
            disable_parallel_tool_use: None,
        }
    );
}

#[test]
fn request_needs_max_tokens() {
    let v = from_text("{\"model\": \"m\", \"messages\": []}").unwrap();
    assert_eq!(CompletionRequest::decode(&v), Err(json_error("missing field `max_tokens`")));
    let v = from_text("{\"model\": \"m\", \"messages\": [], \"max_tokens\": 4294967296}").unwrap();
    assert_eq!(
        CompletionRequest::decode(&v),
        Err(json_error("field `max_tokens` must be an unsigned 32-bit integer"))
    );
}

#[test]
fn request_reports_fields_in_their_order() {
    let v = from_text("{}").unwrap();
    assert_eq!(CompletionRequest::decode(&v), Err(json_error("missing field `model`")));
    let v = from_text("{\"model\": \"m\", \"max_tokens\": \"x\"}").unwrap();
    assert_eq!(CompletionRequest::decode(&v), Err(json_error("missing field `messages`")));
    let v = from_text(
        "{\"model\": \"m\", \"messages\": [], \"max_tokens\": 1, \"temperature\": \"hot\", \"system\": 3}",
    )
    .unwrap();
    assert_eq!(
        CompletionRequest::decode(&v),
        Err(json_error("field `temperature` must be a number"))
    );
    let v = from_text(
        "{\"model\": \"m\", \"messages\": [], \"max_tokens\": 1, \"tools\": {}, \"tool_choice\": {\"type\": \"x\"}}",
    )
    .unwrap();
    assert_eq!(CompletionRequest::decode(&v), Err(json_error("field `tools` must be an array")));
    let v = from_text(
        "{\"model\": \"m\", \"messages\": [], \"max_tokens\": 1, \"tool_choice\": {\"type\": \"x\"}}",
    )
    .unwrap();
    assert_eq!(CompletionRequest::decode(&v), Err(json_error("unknown tool choice type")));
}

#[test]
fn response_encodes_message_type_as_type() {
    let v = response(StopReason::EndTurn, None).encode();
    assert_eq!(v.get("type").unwrap().as_str(), Some("message"));
    assert!(v.get("message_type").is_none());
    assert!(v.get("stop_sequence").is_none());
    assert_eq!(v.get("role").unwrap().as_str(), Some("assistant"));
    assert_eq!(v.get("stop_reason").unwrap().as_str(), Some("end_turn"));
    assert_eq!(v.get("usage").unwrap().get("output_tokens").unwrap().as_u64(), Some(20));
    assert_eq!(v.as_object().unwrap().len(), 7);
}

#[test]
fn response_round_trips() {
    for r in [
        response(StopReason::EndTurn, None),
        response(StopReason::StopSequence, Some("###")),
        response(StopReason::StopSequence, Some("")),
        response(StopReason::Other("content_filtered".to_string()), None),
    ] {
        assert_eq!(CompletionResponse::decode(&r.encode()), Ok(r));
    }
}

#[test]
fn response_decodes_an_api_answer() {
    let v = from_text(
        "{\"id\": \"msg_1\", \"type\": \"message\", \"role\": \"assistant\", \"model\": \"model-x\", \"content\": [{\"type\": \"text\", \"text\": \"hi\"}], \"stop_reason\": \"content_filtered\", \"stop_sequence\": null, \"usage\": {\"input_tokens\": 10, \"output_tokens\": 20, \"cache_read_input_tokens\": 0}}",
    )
    .unwrap();
    assert_eq!(
        CompletionResponse::decode(&v),
        Ok(response(StopReason::Other("content_filtered".to_string()), None))
    );
}

#[test]
fn response_rejects_what_is_missing_or_mistyped() {
    let v = from_text("{\"content\": []}").unwrap();
    assert_eq!(CompletionResponse::decode(&v), Err(json_error("missing field `id`")));
    let mut v = response(StopReason::EndTurn, None).encode();
    v.as_object_mut().unwrap().insert("role".to_string(), from_text("\"robot\"").unwrap());
    assert_eq!(CompletionResponse::decode(&v), Err(json_error("unknown role")));
    let mut v = response(StopReason::EndTurn, None).encode();
    v.as_object_mut().unwrap().remove("stop_reason");
    assert_eq!(CompletionResponse::decode(&v), Err(json_error("missing field `stop_reason`")));
    let mut v = response(StopReason::EndTurn, None).encode();
    v.as_object_mut().unwrap().insert("stop_sequence".to_string(), from_text("5").unwrap());
    assert_eq!(
        CompletionResponse::decode(&v),
        Err(json_error("field `stop_sequence` must be a string"))
    );
    let mut v = response(StopReason::EndTurn, None).encode();
    v.as_object_mut().unwrap().insert("usage".to_string(), from_text("[]").unwrap());
    assert_eq!(CompletionResponse::decode(&v), Err(json_error("expected a JSON object")));
}
