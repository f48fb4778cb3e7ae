//! Completions and streamed completion chunks read from their JSON: every object member the
//! format names is checked, an optional text member is absent, `null` or a
//! string, and anything else makes the chunk unreadable.
use vstd::prelude::*;

use crate::protocol::{
    opt_view, ChatChoice, ChatCompletionMessage, ChatCompletionResponse, ChatToolCall, ChatToolCallFunction,
    ChatCompletionStreamChoice, ChatCompletionStreamChunk, ChatCompletionStreamDelta,
    ChatCompletionToolCallDelta, ChatCompletionToolCallFunctionDelta,
};
use crate::responses_adapter::{get_spec, get_str, json_get, json_get_str, json_of, parse_json, Json};

verus! {

/// An optional text member: absent or `null` is none, a string is its text;
/// any other value cannot be read (the outer `None`).
pub open spec fn opt_text_member(j: Json, key: Seq<char>) -> Option<Option<Seq<char>>> {
    match get_spec(j, key) {
        None => Some(None),
        Some(Json::Null) => Some(None),
        Some(Json::Str(s)) => Some(Some(s@)),
        _ => None,
    }
}

/// The member `index`: a whole number that fits in `usize`.
pub open spec fn index_member(j: Json) -> Option<usize> {
    match get_spec(j, "index"@) {
        Some(Json::Number(Some(n))) => if n <= usize::MAX {
            Some(n as usize)
        } else {
            None
        },
        _ => None,
    }
}

/// A readable function fragment: an object whose `name` and `arguments` are
/// optional texts.
pub open spec fn function_ok(j: Json) -> bool {
    &&& j is Object
    &&& opt_text_member(j, "name"@) is Some
    &&& opt_text_member(j, "arguments"@) is Some
}

/// The function fragment read from `j`.
pub open spec fn function_is(j: Json, f: ChatCompletionToolCallFunctionDelta) -> bool {
    &&& opt_view(f.name) == opt_text_member(j, "name"@)->0
    &&& opt_view(f.arguments) == opt_text_member(j, "arguments"@)->0
}

/// A readable tool-call fragment: an object with an `index`, optional texts
/// `id` and `type`, and an optional function fragment.
pub open spec fn call_ok(j: Json) -> bool {
    &&& j is Object
    &&& index_member(j) is Some
    &&& opt_text_member(j, "id"@) is Some
    &&& opt_text_member(j, "type"@) is Some
    &&& match get_spec(j, "function"@) {
        None => true,
        Some(Json::Null) => true,
        Some(f) => function_ok(f),
    }
}

/// The tool-call fragment read from `j`.
pub open spec fn call_is(j: Json, d: ChatCompletionToolCallDelta) -> bool {
    &&& d.index == index_member(j)->0
    &&& opt_view(d.id) == opt_text_member(j, "id"@)->0
    &&& opt_view(d._type) == opt_text_member(j, "type"@)->0
    &&& match get_spec(j, "function"@) {
        None => d.function is None,
        Some(Json::Null) => d.function is None,
        Some(f) => d.function matches Some(fd) && function_is(f, fd),
    }
}

/// A readable delta: an object with optional text `content` and, when present
/// and not `null`, an array `tool_calls` of readable fragments.
pub open spec fn delta_ok(j: Json) -> bool {
    &&& j is Object
    &&& opt_text_member(j, "content"@) is Some
    &&& match get_spec(j, "tool_calls"@) {
        None => true,
        Some(Json::Null) => true,
        Some(Json::Array(items)) => forall|k: int| 0 <= k < items@.len() ==> #[trigger] call_ok(items@[k]),
        _ => false,
    }
}

/// The delta read from `j`.
pub open spec fn delta_is(j: Json, d: ChatCompletionStreamDelta) -> bool {
    &&& opt_view(d.content) == opt_text_member(j, "content"@)->0
    &&& match get_spec(j, "tool_calls"@) {
        Some(Json::Array(items)) => d.tool_calls matches Some(v) && v@.len() == items@.len() && forall|k: int|
            0 <= k < items@.len() ==> #[trigger] call_is(items@[k], v@[k]),
        _ => d.tool_calls is None,
    }
}

/// A readable choice: an object whose `delta` is a readable delta.
pub open spec fn choice_ok(j: Json) -> bool {
    &&& j is Object
    &&& get_spec(j, "delta"@) matches Some(d) && delta_ok(d)
}

/// A readable chunk: an object whose `choices` is an array of readable choices.
pub open spec fn chunk_readable(j: Json) -> bool {
    &&& j is Object
    &&& get_spec(j, "choices"@) matches Some(Json::Array(items)) && forall|k: int|
        0 <= k < items@.len() ==> #[trigger] choice_ok(items@[k])
}

/// The chunk read from `j`.
pub open spec fn chunk_read_as(j: Json, c: ChatCompletionStreamChunk) -> bool {
    get_spec(j, "choices"@) matches Some(Json::Array(items)) && c.choices@.len() == items@.len() && forall|k: int|
        0 <= k < items@.len() ==> delta_is(get_spec(#[trigger] items@[k], "delta"@)->0, c.choices@[k].delta)
}

/// An optional text member (see `opt_text_member`).
pub fn read_opt_text(j: &Json, key: &str) -> (r: Option<Option<String>>)
    ensures
        match opt_text_member(*j, key@) {
            None => r is None,
            Some(v) => r matches Some(x) && opt_view(x) == v,
        },
{
    match json_get(j, key) {
        None => Some(None),
        Some(Json::Null) => Some(None),
        Some(Json::Str(s)) => Some(Some(s.clone())),
        _ => None,
    }
}

/// A function fragment (see `function_ok`).
fn read_function(j: &Json) -> (r: Option<ChatCompletionToolCallFunctionDelta>)
    ensures
        function_ok(*j) <==> r is Some,
        r matches Some(f) ==> function_is(*j, f),
{
    if !matches!(j, Json::Object(_)) {
        return None;
    }
    let name = read_opt_text(j, "name")?;
    let arguments = read_opt_text(j, "arguments")?;
    Some(ChatCompletionToolCallFunctionDelta { name, arguments })
}

/// A tool-call fragment (see `call_ok`).
fn read_call(j: &Json) -> (r: Option<ChatCompletionToolCallDelta>)
    ensures
        call_ok(*j) <==> r is Some,
        r matches Some(d) ==> call_is(*j, d),
{
    if !matches!(j, Json::Object(_)) {
        return None;
    }
    let index = match json_get(j, "index") {
        Some(Json::Number(Some(n))) => if *n <= usize::MAX as u64 {
            *n as usize
        } else {
            return None;
        },
        _ => return None,
    };
    let id = read_opt_text(j, "id")?;
    let kind = read_opt_text(j, "type")?;
    let function = match json_get(j, "function") {
        None => None,
        Some(Json::Null) => None,
        Some(f) => Some(read_function(f)?),
    };
    Some(ChatCompletionToolCallDelta { index, id, _type: kind, function })
}

/// The tool-call fragments of a list (see `call_ok`).
fn read_calls(items: &Vec<Json>) -> (r: Option<Vec<ChatCompletionToolCallDelta>>)
    ensures
        (forall|k: int| 0 <= k < items@.len() ==> #[trigger] call_ok(items@[k])) <==> r is Some,
        r matches Some(v) ==> v@.len() == items@.len() && forall|k: int|
            0 <= k < items@.len() ==> #[trigger] call_is(items@[k], v@[k]),
{
    let mut out: Vec<ChatCompletionToolCallDelta> = Vec::new();
    let mut k: usize = 0;
    while k < items.len()
        invariant
            k <= items.len(),
            out@.len() == k,
            forall|m: int| 0 <= m < k ==> call_ok(#[trigger] items@[m]) && call_is(items@[m], out@[m]),
        decreases items.len() - k,
    {
        match read_call(&items[k]) {
            Some(d) => out.push(d),
            None => {
                assert(!call_ok(items@[k as int]));
                return None;
            },
        }
        k += 1;
    }
    Some(out)
}

/// A delta (see `delta_ok`).
fn read_delta(j: &Json) -> (r: Option<ChatCompletionStreamDelta>)
    ensures
        delta_ok(*j) <==> r is Some,
        r matches Some(d) ==> delta_is(*j, d),
{
    if !matches!(j, Json::Object(_)) {
        return None;
    }
    let content = read_opt_text(j, "content")?;
    let tool_calls = match json_get(j, "tool_calls") {
        None => None,
        Some(v) => match v {
            Json::Null => None,
            Json::Array(items) => {
                let calls = read_calls(items)?;
                Some(calls)
            },
            _ => return None,
        },
    };
    Some(ChatCompletionStreamDelta { content, tool_calls })
}

/// The choices of a list (see `choice_ok`).
fn read_choices(items: &Vec<Json>) -> (r: Option<Vec<ChatCompletionStreamChoice>>)
    ensures
        (forall|k: int| 0 <= k < items@.len() ==> #[trigger] choice_ok(items@[k])) <==> r is Some,
        r matches Some(v) ==> v@.len() == items@.len() && forall|k: int|
            0 <= k < items@.len() ==> delta_is(get_spec(#[trigger] items@[k], "delta"@)->0, v@[k].delta),
{
    let mut out: Vec<ChatCompletionStreamChoice> = Vec::new();
    let mut k: usize = 0;
    while k < items.len()
        invariant
            k <= items.len(),
            out@.len() == k,
            forall|m: int| 0 <= m < k ==> choice_ok(#[trigger] items@[m]) && delta_is(
                get_spec(items@[m], "delta"@)->0,
                out@[m].delta,
            ),
        decreases items.len() - k,
    {
        let item = &items[k];
        if !matches!(item, Json::Object(_)) {
            assert(!choice_ok(items@[k as int]));
            return None;
        }
        let delta = match json_get(item, "delta") {
            Some(d) => match read_delta(d) {
                Some(x) => x,
                None => {
                    assert(!choice_ok(items@[k as int]));
                    return None;
                },
            },
            None => {
                assert(!choice_ok(items@[k as int]));
                return None;
            },
        };
        out.push(ChatCompletionStreamChoice { delta });
        k += 1;
    }
    Some(out)
}

/// A streamed completion chunk read from its JSON (see `chunk_readable` and
/// `chunk_read_as`); nothing when the JSON is not a readable chunk.
pub fn chunk_from_json(j: &Json) -> (r: Option<ChatCompletionStreamChunk>)
    ensures
        chunk_readable(*j) <==> r is Some,
        r matches Some(c) ==> chunk_read_as(*j, c),
{
    if !matches!(j, Json::Object(_)) {
        return None;
    }
    match json_get(j, "choices") {
        Some(v) => match v {
            Json::Array(items) => {
                let choices = read_choices(items)?;
                Some(ChatCompletionStreamChunk { choices })
            },
            _ => None,
        },
        None => None,
    }
}

/// A streamed completion chunk read from its text: the text read as JSON,
/// then as a chunk (see `chunk_from_json`).
pub fn parse_stream_chunk(data: &str) -> (r: Option<ChatCompletionStreamChunk>)
    ensures
        match json_of(data@) {
            Some(j) => (chunk_readable(j) <==> r is Some) && (r matches Some(c) ==> chunk_read_as(j, c)),
            None => r is None,
        },
{
    match parse_json(data) {
        Some(j) => chunk_from_json(&j),
        None => None,
    }
}


/// A readable tool call of a completion: an object with texts `id` and `type`
/// and a `function` object with texts `name` and `arguments`.
pub open spec fn tool_call_ok(j: Json) -> bool {
    &&& j is Object
    &&& get_str(j, "id"@) is Some
    &&& get_str(j, "type"@) is Some
    &&& get_spec(j, "function"@) matches Some(f) && f is Object && get_str(f, "name"@) is Some && get_str(
        f,
        "arguments"@,
    ) is Some
}

/// The tool call read from `j`.
pub open spec fn tool_call_is(j: Json, c: ChatToolCall) -> bool {
    &&& c.id@ == get_str(j, "id"@)->0
    &&& c.call_type@ == get_str(j, "type"@)->0
    &&& c.function.name@ == get_str(get_spec(j, "function"@)->0, "name"@)->0
    &&& c.function.arguments@ == get_str(get_spec(j, "function"@)->0, "arguments"@)->0
}

/// A readable completion message: an object with optional text `content` and,
/// when present and not `null`, an array `tool_calls` of readable tool calls.
pub open spec fn message_ok(j: Json) -> bool {
    &&& j is Object
    &&& opt_text_member(j, "content"@) is Some
    &&& match get_spec(j, "tool_calls"@) {
        None => true,
        Some(Json::Null) => true,
        Some(Json::Array(items)) => forall|k: int| 0 <= k < items@.len() ==> #[trigger] tool_call_ok(items@[k]),
        _ => false,
    }
}

/// The completion message read from `j`.
pub open spec fn message_is(j: Json, m: ChatCompletionMessage) -> bool {
    &&& opt_view(m.content) == opt_text_member(j, "content"@)->0
    &&& match get_spec(j, "tool_calls"@) {
        Some(Json::Array(items)) => m.tool_calls matches Some(v) && v@.len() == items@.len() && forall|k: int|
            0 <= k < items@.len() ==> #[trigger] tool_call_is(items@[k], v@[k]),
        _ => m.tool_calls is None,
    }
}

/// A readable completion choice: an object with a readable `message`.
pub open spec fn response_choice_ok(j: Json) -> bool {
    &&& j is Object
    &&& get_spec(j, "message"@) matches Some(m) && message_ok(m)
}

/// A readable completion: an object whose `choices` is an array of readable
/// choices.
pub open spec fn response_readable(j: Json) -> bool {
    &&& j is Object
    &&& get_spec(j, "choices"@) matches Some(Json::Array(items)) && forall|k: int|
        0 <= k < items@.len() ==> #[trigger] response_choice_ok(items@[k])
}

/// The completion read from `j`.
pub open spec fn response_read_as(j: Json, r: ChatCompletionResponse) -> bool {
    get_spec(j, "choices"@) matches Some(Json::Array(items)) && r.choices@.len() == items@.len() && forall|k: int|
        0 <= k < items@.len() ==> message_is(get_spec(#[trigger] items@[k], "message"@)->0, r.choices@[k].message)
}

/// A tool call of a completion (see `tool_call_ok`).
fn read_tool_call(j: &Json) -> (r: Option<ChatToolCall>)
    ensures
        tool_call_ok(*j) <==> r is Some,
        r matches Some(c) ==> tool_call_is(*j, c),
{
    if !matches!(j, Json::Object(_)) {
        return None;
    }
    let id = json_get_str(j, "id")?;
    let call_type = json_get_str(j, "type")?;
    let f = json_get(j, "function")?;
    if !matches!(f, Json::Object(_)) {
        return None;
    }
    let name = json_get_str(f, "name")?;
    let arguments = json_get_str(f, "arguments")?;
    Some(ChatToolCall { id, call_type, function: ChatToolCallFunction { name, arguments } })
}

/// The tool calls of a list (see `tool_call_ok`).
fn read_tool_calls(items: &Vec<Json>) -> (r: Option<Vec<ChatToolCall>>)
    ensures
        (forall|k: int| 0 <= k < items@.len() ==> #[trigger] tool_call_ok(items@[k])) <==> r is Some,
        r matches Some(v) ==> v@.len() == items@.len() && forall|k: int|
            0 <= k < items@.len() ==> #[trigger] tool_call_is(items@[k], v@[k]),
{
    let mut out: Vec<ChatToolCall> = Vec::new();
    let mut k: usize = 0;
    while k < items.len()
        invariant
            k <= items.len(),
            out@.len() == k,
            forall|m: int| 0 <= m < k ==> tool_call_ok(#[trigger] items@[m]) && tool_call_is(items@[m], out@[m]),
        decreases items.len() - k,
    {
        match read_tool_call(&items[k]) {
            Some(c) => out.push(c),
            None => {
                assert(!tool_call_ok(items@[k as int]));
                return None;
            },
        }
        k += 1;
    }
    Some(out)
}

/// A completion message (see `message_ok`).
fn read_message(j: &Json) -> (r: Option<ChatCompletionMessage>)
    ensures
        message_ok(*j) <==> r is Some,
        r matches Some(m) ==> message_is(*j, m),
{
    if !matches!(j, Json::Object(_)) {
        return None;
    }
    let content = read_opt_text(j, "content")?;
    let tool_calls = match json_get(j, "tool_calls") {
        None => None,
        Some(v) => match v {
            Json::Null => None,
            Json::Array(items) => {
                let calls = read_tool_calls(items)?;
                Some(calls)
            },
            _ => return None,
        },
    };
    Some(ChatCompletionMessage { content, tool_calls })
}

/// The choices of a completion (see `response_readable`).
fn read_response_choices(items: &Vec<Json>) -> (r: Option<Vec<ChatChoice>>)
    ensures
        (forall|k: int| 0 <= k < items@.len() ==> #[trigger] response_choice_ok(items@[k])) <==> r is Some,
        r matches Some(v) ==> v@.len() == items@.len() && forall|k: int|
            0 <= k < items@.len() ==> message_is(get_spec(#[trigger] items@[k], "message"@)->0, v@[k].message),
{
    let mut out: Vec<ChatChoice> = Vec::new();
    let mut k: usize = 0;
    while k < items.len()
        invariant
            k <= items.len(),
            out@.len() == k,
            forall|m: int|
                0 <= m < k ==> response_choice_ok(#[trigger] items@[m]) && message_is(
                    get_spec(items@[m], "message"@)->0,
                    out@[m].message,
                ),
        decreases items.len() - k,
    {
        let item = &items[k];
        if !matches!(item, Json::Object(_)) {
            assert(!response_choice_ok(items@[k as int]));
            return None;
        }
        let message = match json_get(item, "message") {
            Some(m) => match read_message(m) {
                Some(x) => x,
                None => {
                    assert(!response_choice_ok(items@[k as int]));
                    return None;
                },
            },
            None => {
                assert(!response_choice_ok(items@[k as int]));
                return None;
            },
        };
        out.push(ChatChoice { message });
        k += 1;
    }
    Some(out)
}

/// A chat completion read from its JSON (see `response_readable` and
/// `response_read_as`); nothing when the JSON is not a readable completion.
pub fn response_from_json(j: &Json) -> (r: Option<ChatCompletionResponse>)
    ensures
        response_readable(*j) <==> r is Some,
        r matches Some(c) ==> response_read_as(*j, c),
{
    if !matches!(j, Json::Object(_)) {
        return None;
    }
    match json_get(j, "choices") {
        Some(v) => match v {
            Json::Array(items) => {
                let choices = read_response_choices(items)?;
                Some(ChatCompletionResponse { choices })
            },
            _ => None,
        },
        None => None,
    }
}

/// A chat completion read from its text: the text read as JSON, then as a
/// completion (see `response_from_json`).
pub fn parse_chat_response(body: &str) -> (r: Option<ChatCompletionResponse>)
    ensures
        match json_of(body@) {
            Some(j) => (response_readable(j) <==> r is Some) && (r matches Some(c) ==> response_read_as(j, c)),
            None => r is None,
        },
{
    match parse_json(body) {
        Some(j) => response_from_json(&j),
        None => None,
    }
}

} // verus!
