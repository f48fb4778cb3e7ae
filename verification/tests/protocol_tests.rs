use grok_build::chunk_json::{parse_chat_response, parse_stream_chunk};
use grok_build::agent_stream::{accumulate_tool_calls, PartialToolCall};
use grok_build::protocol::{ChatCompletionToolCallDelta, ChatCompletionToolCallFunctionDelta};
use grok_build::agent_policy::SearchMode;
use grok_build::grok_client::{validate_status, ChatCompletionsPayload};
use grok_build::message_projection::{to_chat_completions_messages, to_responses_input};
use grok_build::protocol::{ChatImageAttachment, ChatMessage, ChatTool, ChatToolCall, ChatToolCallFunction, ChatToolFunction};
use grok_build::provider::{detect_provider, ProviderKind};
use grok_build::responses_adapter::{
    convert_responses_body_to_chat_completion, flatten_tools, handle_sse_event, json_get, json_get_str,
    supports_server_side_tools, Json,
};

/// The library's JSON value for a `serde_json` value.
fn array_of(j: Option<&Json>) -> &Vec<Json> {
    match j {
        Some(Json::Array(items)) => items,
        _ => panic!("expected an array"),
    }
}

fn image(filename: &str, data_url: &str) -> ChatImageAttachment {
    ChatImageAttachment {
        filename: filename.to_string(),
        mime_type: "image/png".to_string(),
        data_url: data_url.to_string(),
    }
}

#[test]
fn user_message_constructor_sets_expected_fields() {
    let message = ChatMessage::user("hello");
    assert_eq!(message.role, "user");
    assert_eq!(message.content.as_deref(), Some("hello"));
    assert!(message.attachments.is_none());
    assert!(message.tool_calls.is_none());
    assert!(message.tool_call_id.is_none());
}

#[test]
fn user_with_attachments_omits_empty_attachment_list() {
    let message = ChatMessage::user_with_attachments("hello", Vec::new());
    assert!(message.attachments.is_none());
}

#[test]
fn user_with_attachments_preserves_non_empty_attachment_list() {
    let attachment = image("screen.png", "data:image/png;base64,AAAA");
    let message = ChatMessage::user_with_attachments("hello", vec![attachment.clone()]);
    assert_eq!(message.attachments.as_ref().map(Vec::len), Some(1));
    let attached = &message.attachments.expect("attachments should be present")[0];
    assert_eq!(attached.filename, attachment.filename);
    assert_eq!(attached.mime_type, attachment.mime_type);
    assert_eq!(attached.data_url, attachment.data_url);
}

#[test]
fn assistant_constructor_preserves_tool_calls() {
    let call = ChatToolCall {
        id: "call_1".to_string(),
        call_type: "function".to_string(),
        function: ChatToolCallFunction {
            name: "view_file".to_string(),
            arguments: "{\"path\":\"README.md\"}".to_string(),
        },
    };
    let message = ChatMessage::assistant("working", Some(vec![call.clone()]));
    assert_eq!(message.role, "assistant");
    assert_eq!(message.content.as_deref(), Some("working"));
    assert_eq!(message.tool_calls.as_ref().map(Vec::len), Some(1));
    let stored = &message.tool_calls.expect("tool calls should be present")[0];
    assert_eq!(stored.id, call.id);
    assert_eq!(stored.function.name, call.function.name);
    assert_eq!(stored.function.arguments, call.function.arguments);
    assert!(message.tool_call_id.is_none());
}

#[test]
fn tool_constructor_sets_tool_call_id_and_content() {
    let message = ChatMessage::tool("call_1", "done");
    assert_eq!(message.role, "tool");
    assert_eq!(message.content.as_deref(), Some("done"));
    assert_eq!(message.tool_call_id.as_deref(), Some("call_1"));
    assert!(message.attachments.is_none());
    assert!(message.tool_calls.is_none());
}

#[test]
fn detects_xai_from_host() {
    assert_eq!(detect_provider("https://api.x.ai/v1"), ProviderKind::Xai);
    assert_eq!(detect_provider("https://proxy.api.x.ai/custom"), ProviderKind::Xai);
}

#[test]
fn detects_openai_from_host() {
    assert_eq!(detect_provider("https://api.openai.com/v1"), ProviderKind::OpenAi);
}

#[test]
fn falls_back_to_compatible_for_unknown_hosts() {
    assert_eq!(detect_provider("https://example.com/v1"), ProviderKind::Compatible);
}

#[test]
fn xai_provider_uses_responses_api_detection() {
    assert_eq!(detect_provider("https://api.x.ai/v1"), ProviderKind::Xai);
}

#[test]
fn supports_server_side_tools_only_for_grok4_family() {
    assert!(supports_server_side_tools("grok-4-latest"));
    assert!(supports_server_side_tools("GROK-4"));
    assert!(!supports_server_side_tools("grok-code-fast-1"));
}

#[test]
fn non_xai_payload_omits_search_parameters() {
    let payload = ChatCompletionsPayload::new(
        "gpt-4.1".to_string(),
        to_chat_completions_messages(&[ChatMessage::user("hello")]),
        Vec::new(),
        false,
        256,
        SearchMode::Auto,
        false,
    );
    assert!(payload.search_parameters.is_none());
    assert!(payload.tool_choice.is_none());
}

#[test]
fn xai_payload_includes_search_parameters() {
    let payload = ChatCompletionsPayload::new(
        "grok-4-latest".to_string(),
        to_chat_completions_messages(&[ChatMessage::user("hello")]),
        Vec::new(),
        false,
        256,
        SearchMode::Auto,
        true,
    );
    let search = payload.search_parameters.expect("xai payload has search params");
    assert_eq!(search.as_str(), "auto");
}

#[test]
fn chat_completions_maps_user_image_attachments() {
    let payload = ChatCompletionsPayload::new(
        "gpt-4.1".to_string(),
        to_chat_completions_messages(&[ChatMessage::user_with_attachments(
            "Describe this image",
            vec![image("snap.png", "data:image/png;base64,abc")],
        )]),
        Vec::new(),
        false,
        256,
        SearchMode::Off,
        false,
    );
    let content = array_of(json_get(&payload.messages[0], "content"));
    assert_eq!(json_get_str(&content[1], "type").unwrap_or_default(), "image_url");
}

#[test]
fn responses_projection_includes_user_image_parts() {
    let messages = vec![ChatMessage::user_with_attachments(
        "What is shown here?",
        vec![image("shot.png", "data:image/png;base64,abc123")],
    )];
    let input = to_responses_input(&messages);
    let content = array_of(json_get(&input[0], "content"));
    assert_eq!(content.len(), 2);
    assert_eq!(json_get_str(&content[1], "type").as_deref(), Some("input_image"));
}

#[test]
fn chat_projection_includes_image_url_part() {
    let messages = vec![ChatMessage::user_with_attachments(
        "Describe this image",
        vec![image("snap.png", "data:image/png;base64,abc")],
    )];
    let projected = to_chat_completions_messages(&messages);
    let content = array_of(json_get(&projected[0], "content"));
    assert_eq!(json_get_str(&content[1], "type").unwrap_or_default(), "image_url");
}

#[test]
fn convert_responses_body_maps_message_and_tool_calls() {
    let body = r#"{"output":[{"type":"message","content":[{"type":"output_text","text":"hello "},{"type":"output_text","text":"world"}]},{"type":"function_call","call_id":"call_123","name":"bash","arguments":"{\"command\":\"pwd\"}"}]}"#;
    let completion = convert_responses_body_to_chat_completion(body).expect("valid payload");
    let message = &completion.choices[0].message;
    assert_eq!(message.content.as_deref(), Some("hello world"));
    let tool_calls = message.tool_calls.as_ref().expect("tool call exists");
    assert_eq!(tool_calls.len(), 1);
    assert_eq!(tool_calls[0].id, "call_123");
    assert_eq!(tool_calls[0].function.name, "bash");
}

#[test]
fn convert_responses_body_rejects_text_that_is_not_json() {
    let err = convert_responses_body_to_chat_completion("oops").expect_err("not JSON");
    assert_eq!(err, "Invalid response JSON: oops");
}

#[test]
fn handle_sse_event_emits_text_delta() {
    let data = r#"{"delta":"abc"}"#;
    let outcome = handle_sse_event(Some("response.output_text.delta"), data)
        .expect("delta parsing succeeds");
    assert!(!outcome.done);
    assert_eq!(outcome.chunks.len(), 1);
    assert_eq!(outcome.chunks[0].choices[0].delta.content.as_deref(), Some("abc"));
}

#[test]
fn handle_sse_event_emits_tool_call_from_done_event() {
    let data = r#"{"item":{"type":"function_call","call_id":"call_9","name":"view_file","arguments":"{\"path\":\"src/main.rs\"}"},"output_index":2}"#;
    let outcome = handle_sse_event(Some("response.output_item.done"), data)
        .expect("tool event parsing succeeds");
    assert!(!outcome.done);
    assert_eq!(outcome.chunks.len(), 1);
    let delta = &outcome.chunks[0].choices[0].delta;
    let tool_calls = delta.tool_calls.as_ref().expect("tool calls emitted");
    assert_eq!(tool_calls[0].index, 2);
    assert_eq!(tool_calls[0].id.as_deref(), Some("call_9"));
    assert_eq!(tool_calls[0].function.as_ref().and_then(|f| f.name.as_deref()), Some("view_file"));
}

#[test]
fn handle_sse_event_ends_on_done_marker_and_reports_errors() {
    let done = handle_sse_event(None, "[DONE]").expect("done");
    assert!(done.done);
    assert!(done.chunks.is_empty());
    let bad = handle_sse_event(Some("response.output_text.delta"), "nope");
    assert_eq!(bad.err().as_deref(), Some("Invalid responses delta payload: nope"));
    let data = r#"{"error":{"message":"quota"}}"#;
    let err = handle_sse_event(Some("response.error"), data);
    assert_eq!(err.err().as_deref(), Some("Responses stream error: quota"));
}

#[test]
fn flatten_tools_lays_each_tool_out_flat() {
    let tools = vec![ChatTool {
        tool_type: "function".to_string(),
        function: ChatToolFunction {
            name: "bash".to_string(),
            description: "Run a command".to_string(),
            parameters: Json::Object(Vec::new()),
        },
    }];
    let flat = flatten_tools(tools);
    assert_eq!(flat.len(), 1);
    assert_eq!(json_get_str(&flat[0], "type").as_deref(), Some("function"));
    assert_eq!(json_get_str(&flat[0], "name").as_deref(), Some("bash"));
    assert_eq!(json_get_str(&flat[0], "description").as_deref(), Some("Run a command"));
    assert!(matches!(json_get(&flat[0], "parameters"), Some(Json::Object(f)) if f.is_empty()));
}

#[test]
fn validate_status_accepts_only_ok() {
    assert!(validate_status(200, "fine").is_ok());
    assert_eq!(validate_status(404, "missing").err().as_deref(), Some("API returned 404 Not Found: missing"));
    assert_eq!(
        validate_status(42, "odd").err().as_deref(),
        Some("API returned 42 <unknown status code>: odd")
    );
}

#[test]
fn stream_chunks_are_read_member_by_member() {
    let chunk = parse_stream_chunk(
        r#"{"choices":[{"delta":{"content":"Hi","tool_calls":[{"index":1,"id":"call_a","type":"function","function":{"name":"bash","arguments":"{}"}}]}}]}"#,
    )
    .expect("readable chunk");
    assert_eq!(chunk.choices.len(), 1);
    assert_eq!(chunk.choices[0].delta.content.as_deref(), Some("Hi"));
    let calls = chunk.choices[0].delta.tool_calls.as_ref().expect("calls");
    assert_eq!(calls[0].index, 1);
    assert_eq!(calls[0].id.as_deref(), Some("call_a"));
    assert_eq!(calls[0].function.as_ref().and_then(|f| f.name.as_deref()), Some("bash"));
    let empty = parse_stream_chunk(r#"{"choices":[{"delta":{"content":null}}]}"#).expect("null content");
    assert_eq!(empty.choices[0].delta.content, None);
    assert!(parse_stream_chunk(r#"{"choices":[{"delta":{"content":5}}]}"#).is_none());
    assert!(parse_stream_chunk(r#"{"choices":[{}]}"#).is_none());
    assert!(parse_stream_chunk("not json").is_none());
}

#[test]
fn chat_responses_are_read_member_by_member() {
    let response = parse_chat_response(
        r#"{"id":"x","choices":[{"index":0,"message":{"role":"assistant","content":null,"tool_calls":[{"id":"call_1","type":"function","function":{"name":"view_file","arguments":"{\"path\":\"a\"}"}}]}}]}"#,
    )
    .expect("readable response");
    let message = &response.choices[0].message;
    assert_eq!(message.content, None);
    let calls = message.tool_calls.as_ref().expect("calls");
    assert_eq!(calls[0].id, "call_1");
    assert_eq!(calls[0].call_type, "function");
    assert_eq!(calls[0].function.arguments, r#"{"path":"a"}"#);
    assert!(parse_chat_response(r#"{"choices":[{"message":{"tool_calls":[{"id":"c"}]}}]}"#).is_none());
    assert!(parse_chat_response(r#"{"data":[]}"#).is_none());
}

fn delta(index: usize, id: Option<&str>, name: Option<&str>, arguments: Option<&str>) -> ChatCompletionToolCallDelta {
    ChatCompletionToolCallDelta {
        index,
        id: id.map(|s| s.to_string()),
        _type: None,
        function: Some(ChatCompletionToolCallFunctionDelta {
            name: name.map(|s| s.to_string()),
            arguments: arguments.map(|s| s.to_string()),
        }),
    }
}

#[test]
fn streamed_deltas_fill_the_calls_they_name() {
    let mut calls: Vec<PartialToolCall> = Vec::new();
    let deltas = vec![
        delta(2, None, Some("bash"), Some("{\"command\":")),
        delta(0, Some("call_a"), Some("view_file"), Some("{}")),
        delta(2, None, None, Some("\"ls\"}")),
    ];
    accumulate_tool_calls(&mut calls, &deltas);
    assert_eq!(calls.len(), 3);
    assert_eq!(calls[0].id, "call_a");
    assert_eq!(calls[0].name, "view_file");
    assert_eq!(calls[1].id, "");
    assert_eq!(calls[1].name, "");
    assert_eq!(calls[2].id, "call_2");
    assert_eq!(calls[2].name, "bash");
    assert_eq!(calls[2].arguments, "{\"command\":\"ls\"}");
}
