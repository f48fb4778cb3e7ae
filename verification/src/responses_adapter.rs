//! The xAI Responses API seen as chat completions: server events and response
//! bodies are turned into completion chunks and completions, and chat messages
//! into Responses input items. JSON values are held as `Json`, read from text
//! with `serde_json`; printing JSON text is the caller's part.
use vstd::prelude::*;

use crate::chunk_json::{chunk_from_json, chunk_read_as, chunk_readable};
use crate::image_input::opt_string;
use crate::order::texts;
use crate::protocol::{
    owned, ChatChoice, ChatCompletionMessage, ChatCompletionResponse, ChatCompletionStreamChoice,
    ChatCompletionStreamChunk, ChatCompletionStreamDelta, ChatCompletionToolCallDelta,
    ChatCompletionToolCallFunctionDelta, ChatMessage, ChatTool, ChatToolCall, ChatToolCallFunction,
};
use crate::text::{
    ascii_lower, chars_of, contains, contains_exec, eq_str, opt_text, push_decimal, push_str,
    string_from_chars, to_ascii_lowercase, trim, trim_chars, decimal,
};

verus! {

/// A JSON value, as the logic reads it: numbers only by their value as a `u64`
/// (when they have one), objects as their members in order.
#[derive(Debug)]
pub enum Json {
    Null,
    Bool(bool),
    Number(Option<u64>),
    Str(String),
    Array(Vec<Json>),
    Object(Vec<(String, Json)>),
}

/// The value of the first member named `key` among `fields`.
pub open spec fn lookup(fields: Seq<(String, Json)>, key: Seq<char>) -> Option<Json>
    decreases fields.len(),
{
    if fields.len() == 0 {
        None
    } else if fields[0].0@ == key {
        Some(fields[0].1)
    } else {
        lookup(fields.drop_first(), key)
    }
}

/// The member `key` of an object (`Value::get`); nothing for other values.
pub open spec fn get_spec(j: Json, key: Seq<char>) -> Option<Json> {
    match j {
        Json::Object(fields) => lookup(fields@, key),
        _ => None,
    }
}

/// The text of a string value.
pub open spec fn str_of(j: Option<Json>) -> Option<Seq<char>> {
    match j {
        Some(Json::Str(s)) => Some(s@),
        _ => None,
    }
}

/// The member `key` of an object when it is a string.
pub open spec fn get_str(j: Json, key: Seq<char>) -> Option<Seq<char>> {
    str_of(get_spec(j, key))
}

/// The member `key` of an object (see `get_spec`).
pub fn json_get<'a>(j: &'a Json, key: &str) -> (r: Option<&'a Json>)
    ensures
        match r {
            Some(v) => get_spec(*j, key@) == Some(*v),
            None => get_spec(*j, key@) is None,
        },
{
    match j {
        Json::Object(fields) => {
            let mut i: usize = 0;
            assert(fields@.skip(0) =~= fields@);
            while i < fields.len()
                invariant
                    i <= fields.len(),
                    get_spec(*j, key@) == lookup(fields@, key@),
                    lookup(fields@, key@) == lookup(fields@.skip(i as int), key@),
                decreases fields.len() - i,
            {
                assert(fields@.skip(i as int)[0] == fields@[i as int]);
                if eq_str(chars_of(fields[i].0.as_str()).as_slice(), key) {
                    return Some(&fields[i].1);
                }
                assert(fields@.skip(i as int).drop_first() =~= fields@.skip(i + 1));
                i += 1;
            }
            None
        },
        _ => None,
    }
}

/// The member `key` of an object when it is a string (see `get_str`).
pub fn json_get_str(j: &Json, key: &str) -> (r: Option<String>)
    ensures
        opt_string(r) == get_str(*j, key@),
{
    match json_get(j, key) {
        Some(Json::Str(s)) => Some(s.clone()),
        _ => None,
    }
}

/// An empty JSON object, what an unreadable payload counts as.
pub fn empty_object() -> (r: Json)
    ensures
        r matches Json::Object(f) && f@.len() == 0,
{
    Json::Object(Vec::new())
}

/// Whether a model takes the server-side search tools: its name, in ASCII
/// lower case, contains `grok-4`.
pub fn supports_server_side_tools(model: &str) -> (r: bool)
    ensures
        r == contains(ascii_lower(model@), "grok-4"@),
{
    let cs = chars_of(model);
    let lower = to_ascii_lowercase(cs.as_slice());
    let pat = chars_of("grok-4");
    contains_exec(lower.as_slice(), pat.as_slice())
}

/// The first of two optional texts that is present.
pub open spec fn or_else(a: Option<Seq<char>>, b: Option<Seq<char>>) -> Option<Seq<char>> {
    match a {
        Some(x) => Some(x),
        None => b,
    }
}

/// The member `key` of the member `outer` of an object, when it is a string.
pub open spec fn get_nested_str(j: Json, outer: Seq<char>, key: Seq<char>) -> Option<Seq<char>> {
    match get_spec(j, outer) {
        Some(o) => get_str(o, key),
        None => None,
    }
}

/// The member `key` of the member `outer` of an object, when it is a string.
fn json_get_nested_str(j: &Json, outer: &str, key: &str) -> (r: Option<String>)
    ensures
        opt_string(r) == get_nested_str(*j, outer@, key@),
{
    match json_get(j, outer) {
        Some(o) => json_get_str(o, key),
        None => None,
    }
}

/// The name of a function call item: its `name` or its function's `name`,
/// trimmed; nothing when blank.
pub open spec fn call_name_spec(item: Json) -> Option<Seq<char>> {
    match or_else(get_str(item, "name"@), get_nested_str(item, "function"@, "name"@)) {
        Some(n) => if trim(n).len() > 0 {
            Some(trim(n))
        } else {
            None
        },
        None => None,
    }
}

/// The name of a function call item (see `call_name_spec`).
pub fn function_call_name(item: &Json) -> (r: Option<String>)
    ensures
        opt_string(r) == call_name_spec(*item),
{
    let raw = match json_get_str(item, "name") {
        Some(n) => Some(n),
        None => json_get_nested_str(item, "function", "name"),
    };
    match raw {
        Some(n) => {
            let t = trim_chars(chars_of(n.as_str()).as_slice());
            if t.len() > 0 {
                Some(string_from_chars(t.as_slice()))
            } else {
                None
            }
        },
        None => None,
    }
}

/// The arguments of a function call item: its `arguments` or its function's,
/// else `{}`.
pub open spec fn call_arguments_spec(item: Json) -> Seq<char> {
    match or_else(get_str(item, "arguments"@), get_nested_str(item, "function"@, "arguments"@)) {
        Some(a) => a,
        None => "{}"@,
    }
}

/// The arguments of a function call item (see `call_arguments_spec`).
pub fn function_call_arguments(item: &Json) -> (r: String)
    ensures
        r@ == call_arguments_spec(*item),
{
    match json_get_str(item, "arguments") {
        Some(a) => a,
        None => match json_get_nested_str(item, "function", "arguments") {
            Some(a) => a,
            None => owned("{}"),
        },
    }
}

/// The id of a function call item: its `id`, else its `call_id`, else `fallback`.
pub open spec fn call_id_spec(item: Json, fallback: Seq<char>) -> Seq<char> {
    match or_else(get_str(item, "id"@), get_str(item, "call_id"@)) {
        Some(i) => i,
        None => fallback,
    }
}

/// The id of a function call item (see `call_id_spec`).
pub fn function_call_id(item: &Json, fallback: &str) -> (r: String)
    ensures
        r@ == call_id_spec(*item, fallback@),
{
    match json_get_str(item, "id") {
        Some(i) => i,
        None => match json_get_str(item, "call_id") {
            Some(i) => i,
            None => owned(fallback),
        },
    }
}

/// The item an event carries: its `item` member, or the event itself.
pub open spec fn event_item(payload: Json) -> Json {
    match get_spec(payload, "item"@) {
        Some(i) => i,
        None => payload,
    }
}

/// The type of a JSON item (empty when it has none).
pub open spec fn item_type(item: Json) -> Seq<char> {
    match get_str(item, "type"@) {
        Some(t) => t,
        None => Seq::empty(),
    }
}

/// A content part type that carries text.
pub open spec fn text_part_type(t: Seq<char>) -> bool {
    t == "output_text"@ || t == "text"@ || t == "input_text"@
}

/// The texts of the content parts of a message item that carry text, those
/// that `keep` accepts.
pub open spec fn part_texts(parts: Seq<Json>, keep: spec_fn(Seq<char>) -> bool) -> Seq<Seq<char>>
    decreases parts.len(),
{
    if parts.len() == 0 {
        Seq::empty()
    } else {
        let p = parts.last();
        part_texts(parts.drop_last(), keep) + match get_str(p, "text"@) {
            Some(t) => if text_part_type(item_type(p)) && keep(t) {
                seq![t]
            } else {
                Seq::empty()
            },
            None => Seq::empty(),
        }
    }
}

/// The texts joined without separator.
pub open spec fn concat(parts: Seq<Seq<char>>) -> Seq<char>
    decreases parts.len(),
{
    if parts.len() == 0 {
        Seq::empty()
    } else {
        concat(parts.drop_last()) + parts.last()
    }
}

/// The content array of an item (empty when it has none).
pub open spec fn content_of(item: Json) -> Seq<Json> {
    match get_spec(item, "content"@) {
        Some(Json::Array(v)) => v@,
        _ => Seq::empty(),
    }
}

/// Gathers the texts of the content parts of `item` that carry a text accepted
/// by `nonblank` (not blank) or, without it, any non-empty text.
fn gather_part_texts(item: &Json, nonblank: bool) -> (r: Vec<String>)
    ensures
        texts(r@) == part_texts(
            content_of(*item),
            if nonblank {
                |t: Seq<char>| trim(t).len() > 0
            } else {
                |t: Seq<char>| t.len() > 0
            },
        ),
{
    let ghost keep: spec_fn(Seq<char>) -> bool = if nonblank {
        |t: Seq<char>| trim(t).len() > 0
    } else {
        |t: Seq<char>| t.len() > 0
    };
    let mut out: Vec<String> = Vec::new();
    match json_get(item, "content") {
        Some(Json::Array(parts)) => {
            let mut i: usize = 0;
            while i < parts.len()
                invariant
                    i <= parts.len(),
                    content_of(*item) == parts@,
                    keep == (if nonblank {
                        |t: Seq<char>| trim(t).len() > 0
                    } else {
                        |t: Seq<char>| t.len() > 0
                    }),
                    texts(out@) == part_texts(parts@.take(i as int), keep),
                decreases parts.len() - i,
            {
                let p = &parts[i];
                let ghost before = texts(out@);
                proof {
                    assert(parts@.take(i + 1).drop_last() =~= parts@.take(i as int));
                    assert(parts@.take(i + 1).last() == *p);
                }
                let kind = json_get_str(p, "type");
                proof {
                    reveal_strlit("output_text");
                    reveal_strlit("text");
                    reveal_strlit("input_text");
                }
                let is_text = match &kind {
                    Some(k) => {
                        let ks = chars_of(k.as_str());
                        eq_str(ks.as_slice(), "output_text") || eq_str(ks.as_slice(), "text")
                            || eq_str(ks.as_slice(), "input_text")
                    },
                    None => {
                        assert(item_type(*p) =~= Seq::<char>::empty());
                        false
                    },
                };
                assert(is_text == text_part_type(item_type(*p)));
                if is_text {
                    match json_get_str(p, "text") {
                        Some(t) => {
                            let accepted = if nonblank {
                                trim_chars(chars_of(t.as_str()).as_slice()).len() > 0
                            } else {
                                !t.as_str().is_empty()
                            };
                            assert(accepted == keep(t@));
                            if accepted {
                                out.push(t);
                                assert(texts(out@) =~= before.push(out@.last()@));
                            }
                        },
                        None => {},
                    }
                }
                assert(texts(out@) =~= part_texts(parts@.take(i + 1), keep));
                i += 1;
            }
            assert(parts@.take(parts.len() as int) =~= parts@);
        },
        _ => {
            assert(content_of(*item) =~= Seq::<Json>::empty());
        },
    }
    out
}

/// Joins texts without separator.
fn join_texts(parts: &Vec<String>) -> (r: String)
    ensures
        r@ == concat(texts(parts@)),
{
    let mut out: Vec<char> = Vec::new();
    let mut i: usize = 0;
    while i < parts.len()
        invariant
            i <= parts.len(),
            out@ == concat(texts(parts@).take(i as int)),
        decreases parts.len() - i,
    {
        push_str(&mut out, parts[i].as_str());
        assert(texts(parts@).take(i + 1).drop_last() =~= texts(parts@).take(i as int));
        i += 1;
    }
    assert(texts(parts@).take(parts.len() as int) =~= texts(parts@));
    string_from_chars(out.as_slice())
}

/// The text of a message item carried by an event: the joined non-empty texts
/// of its text parts, else its `text` member; nothing for other items.
pub open spec fn message_item_text_spec(payload: Json) -> Option<Seq<char>> {
    let item = event_item(payload);
    if item_type(item) != "message"@ {
        None
    } else {
        let parts = part_texts(content_of(item), |t: Seq<char>| t.len() > 0);
        if parts.len() == 0 {
            get_str(item, "text"@)
        } else {
            Some(concat(parts))
        }
    }
}

/// The item an event carries (see `event_item`).
fn event_item_of(payload: &Json) -> (r: &Json)
    ensures
        *r == event_item(*payload),
{
    match json_get(payload, "item") {
        Some(i) => i,
        None => payload,
    }
}

/// Whether an item has the given type.
fn has_type(item: &Json, t: &str) -> (r: bool)
    ensures
        r == (item_type(*item) == t@),
{
    match json_get_str(item, "type") {
        Some(k) => eq_str(chars_of(k.as_str()).as_slice(), t),
        None => {
            let cs = chars_of(t);
            if cs.len() == 0 {
                assert(t@ =~= Seq::<char>::empty());
                true
            } else {
                false
            }
        },
    }
}

/// The text of a message item carried by an event (see `message_item_text_spec`).
pub fn parse_message_item_text(payload: &Json) -> (r: Option<String>)
    ensures
        opt_string(r) == message_item_text_spec(*payload),
{
    let item = event_item_of(payload);
    if !has_type(item, "message") {
        return None;
    }
    let parts = gather_part_texts(item, false);
    if parts.len() == 0 {
        return json_get_str(item, "text");
    }
    Some(join_texts(&parts))
}

/// The view of a streamed tool call fragment: index, id, type, name, arguments.
pub open spec fn call_delta_view(d: ChatCompletionToolCallDelta) -> (
    usize,
    Option<Seq<char>>,
    Option<Seq<char>>,
    Option<(Option<Seq<char>>, Option<Seq<char>>)>,
) {
    (
        d.index,
        crate::protocol::opt_view(d.id),
        crate::protocol::opt_view(d._type),
        match d.function {
            Some(f) => Some((crate::protocol::opt_view(f.name), crate::protocol::opt_view(f.arguments))),
            None => None,
        },
    )
}

/// A chunk holding one streamed choice with the given content and tool calls.
pub open spec fn chunk_is(
    c: ChatCompletionStreamChunk,
    content: Option<Seq<char>>,
    calls: Option<Seq<ChatCompletionToolCallDelta>>,
) -> bool {
    &&& c.choices@.len() == 1
    &&& crate::protocol::opt_view(c.choices@[0].delta.content) == content
    &&& match (c.choices@[0].delta.tool_calls, calls) {
        (Some(v), Some(w)) => v@ == w,
        (None, None) => true,
        _ => false,
    }
}

/// A chunk carrying streamed text.
pub fn make_content_chunk(delta: &str) -> (r: ChatCompletionStreamChunk)
    ensures
        chunk_is(r, Some(delta@), None),
{
    let mut choices: Vec<ChatCompletionStreamChoice> = Vec::new();
    choices.push(
        ChatCompletionStreamChoice {
            delta: ChatCompletionStreamDelta { content: Some(owned(delta)), tool_calls: None },
        },
    );
    ChatCompletionStreamChunk { choices }
}

/// The index of an output item: its event's `output_index` as a number, else 0.
pub open spec fn output_index_spec(payload: Json) -> usize {
    match get_spec(payload, "output_index"@) {
        Some(Json::Number(Some(n))) => n as usize,
        _ => 0,
    }
}

/// The tool call an event carries, as a chunk: for a function call item with a
/// name, one fragment with its index, id (`call_0` when it has none), the type
/// `function`, its name and its arguments.
pub open spec fn tool_call_event_spec(payload: Json, c: Option<ChatCompletionStreamChunk>) -> bool {
    let item = event_item(payload);
    if item_type(item) != "function_call"@ || call_name_spec(item) is None {
        c is None
    } else {
        c matches Some(chunk) && chunk.choices@.len() == 1 && chunk.choices@[0].delta.content is None
            && (chunk.choices@[0].delta.tool_calls matches Some(calls) && calls@.len() == 1
            && call_delta_view(calls@[0]) == (
            output_index_spec(payload),
            Some(call_id_spec(item, "call_0"@)),
            Some("function"@),
            Some((call_name_spec(item), Some(call_arguments_spec(item)))),
        ))
    }
}

/// The tool call an event carries, as a chunk (see `tool_call_event_spec`).
pub fn parse_tool_call_event(payload: &Json) -> (r: Option<ChatCompletionStreamChunk>)
    ensures
        tool_call_event_spec(*payload, r),
{
    let item = event_item_of(payload);
    if !has_type(item, "function_call") {
        return None;
    }
    let name = match function_call_name(item) {
        Some(n) => n,
        None => return None,
    };
    let arguments = function_call_arguments(item);
    let id = function_call_id(item, "call_0");
    let index: usize = match json_get(payload, "output_index") {
        Some(Json::Number(Some(n))) => *n as usize,
        _ => 0,
    };
    let mut calls: Vec<ChatCompletionToolCallDelta> = Vec::new();
    calls.push(
        ChatCompletionToolCallDelta {
            index,
            id: Some(id),
            _type: Some(owned("function")),
            function: Some(
                ChatCompletionToolCallFunctionDelta { name: Some(name), arguments: Some(arguments) },
            ),
        },
    );
    let mut choices: Vec<ChatCompletionStreamChoice> = Vec::new();
    choices.push(
        ChatCompletionStreamChoice {
            delta: ChatCompletionStreamDelta { content: None, tool_calls: Some(calls) },
        },
    );
    Some(ChatCompletionStreamChunk { choices })
}

/// Whether an event carries a function call item with a name.
pub open spec fn carries_tool_call(payload: Json) -> bool {
    item_type(event_item(payload)) == "function_call"@ && call_name_spec(event_item(payload)) is Some
}

/// The kinds of server events.
#[derive(Debug, Clone, Copy, PartialEq, Eq, Structural)]
pub enum SseKind {
    Done,
    TextDelta,
    TextDone,
    ItemAdded,
    ItemDone,
    Error,
    Other,
}

/// The kind of a server event by its name.
pub open spec fn sse_kind(event: Seq<char>) -> SseKind {
    if event == "response.done"@ || event == "response.completed"@ {
        SseKind::Done
    } else if event == "response.output_text.delta"@ || event == "response.content_part.delta"@ {
        SseKind::TextDelta
    } else if event == "response.output_text.done"@ || event == "response.content_part.done"@ {
        SseKind::TextDone
    } else if event == "response.output_item.added"@ {
        SseKind::ItemAdded
    } else if event == "response.output_item.done"@ {
        SseKind::ItemDone
    } else if event == "response.error"@ {
        SseKind::Error
    } else {
        SseKind::Other
    }
}

/// The kind of a server event by its name (see `sse_kind`).
pub fn classify_sse_event(event: &str) -> (r: SseKind)
    ensures
        r == sse_kind(event@),
{
    let e = chars_of(event);
    let e = e.as_slice();
    if eq_str(e, "response.done") || eq_str(e, "response.completed") {
        SseKind::Done
    } else if eq_str(e, "response.output_text.delta") || eq_str(e, "response.content_part.delta") {
        SseKind::TextDelta
    } else if eq_str(e, "response.output_text.done") || eq_str(e, "response.content_part.done") {
        SseKind::TextDone
    } else if eq_str(e, "response.output_item.added") {
        SseKind::ItemAdded
    } else if eq_str(e, "response.output_item.done") {
        SseKind::ItemDone
    } else if eq_str(e, "response.error") {
        SseKind::Error
    } else {
        SseKind::Other
    }
}

/// The text of a delta event: its `delta`, `text` or part's `text`, else empty.
pub open spec fn delta_text(p: Json) -> Seq<char> {
    match or_else(get_str(p, "delta"@), or_else(get_str(p, "text"@), get_nested_str(p, "part"@, "text"@))) {
        Some(t) => t,
        None => Seq::empty(),
    }
}

/// The text of a done event: its `text` or part's `text`, else empty.
pub open spec fn done_text(p: Json) -> Seq<char> {
    match or_else(get_str(p, "text"@), get_nested_str(p, "part"@, "text"@)) {
        Some(t) => t,
        None => Seq::empty(),
    }
}

/// The message of an error event: its error's `message`, its `message`, or a
/// stock text.
pub open spec fn error_text(p: Json) -> Seq<char> {
    match or_else(get_nested_str(p, "error"@, "message"@), get_str(p, "message"@)) {
        Some(t) => t,
        None => "Unknown responses API error"@,
    }
}

/// The text of a message item an event carries, when it is not empty.
pub open spec fn item_text(p: Json) -> Option<Seq<char>> {
    match message_item_text_spec(p) {
        Some(t) => if t.len() > 0 {
            Some(t)
        } else {
            None
        },
        None => None,
    }
}

/// What a server event gives: whether the stream is over, and the chunks.
pub struct SseOutcome {
    pub done: bool,
    pub chunks: Vec<ChatCompletionStreamChunk>,
}

/// A chunk is the content chunk of `t`.
pub open spec fn content_chunk(c: ChatCompletionStreamChunk, t: Seq<char>) -> bool {
    chunk_is(c, Some(t), None)
}

/// What a server event gives (see `sse_event_outcome`).
pub open spec fn sse_outcome_spec(
    event: Option<&str>,
    data: &str,
    payload: Option<Json>,
    as_chunk: Option<ChatCompletionStreamChunk>,
    r: Result<SseOutcome, String>,
) -> bool {
    &&& data@ == "[DONE]"@ ==> (r matches Ok(o) && o.done && o.chunks@.len() == 0)
    &&& data@ != "[DONE]"@ ==> ({
            let kind = match opt_text(event) {
                Some(e) => sse_kind(e),
                None => sse_kind(Seq::empty()),
            };
            let p = match payload {
                Some(j) => j,
                None => Json::Null,
            };
            match kind {
                SseKind::Done => r matches Ok(o) && o.done && o.chunks@.len() == 0,
                SseKind::TextDelta => match payload {
                    None => r matches Err(e) && e@ == "Invalid responses delta payload: "@ + data@,
                    Some(j) => r matches Ok(o) && !o.done && (if delta_text(j).len() == 0 {
                        o.chunks@.len() == 0
                    } else {
                        o.chunks@.len() == 1 && content_chunk(o.chunks@[0], delta_text(j))
                    }),
                },
                SseKind::TextDone => match payload {
                    None => r matches Err(e) && e@ == "Invalid responses done payload: "@ + data@,
                    Some(j) => r matches Ok(o) && !o.done && (if done_text(j).len() == 0 {
                        o.chunks@.len() == 0
                    } else {
                        o.chunks@.len() == 1 && content_chunk(o.chunks@[0], done_text(j))
                    }),
                },
                SseKind::ItemAdded => r matches Ok(o) && !o.done && o.chunks@.len() == 0,
                SseKind::ItemDone => r matches Ok(o) && !o.done && {
                    let n_text: int = if item_text(p) is Some { 1 } else { 0 };
                    &&& o.chunks@.len() == n_text + if carries_tool_call(p) { 1int } else { 0int }
                    &&& (item_text(p) matches Some(t) ==> content_chunk(o.chunks@[0], t))
                    &&& (carries_tool_call(p) ==> tool_call_event_spec(p, Some(o.chunks@[n_text])))
                },
                SseKind::Error => r matches Err(e) && e@ == "Responses stream error: "@ + error_text(p),
                SseKind::Other => r matches Ok(o) && !o.done && if carries_tool_call(p) {
                    o.chunks@.len() == 1 && tool_call_event_spec(p, Some(o.chunks@[0]))
                } else if item_text(p) is Some {
                    o.chunks@.len() == 1 && content_chunk(o.chunks@[0], item_text(p)->0)
                } else {
                    match as_chunk {
                        Some(c) => o.chunks@.len() == 1 && o.chunks@[0] == c,
                        None => o.chunks@.len() == 0,
                    }
                },
            }
        })
}

/// Reads a server event of the Responses stream. `payload` is the event's data
/// read as JSON (nothing when it is not JSON; such data has no members, like
/// `null`) and `as_chunk` the data read as a completion chunk (nothing when it
/// is not one).
///
/// `[DONE]` and the done events end the stream. Text delta and text done
/// events give their text as a content chunk (none when empty) and fail when
/// the data is not JSON. An added item gives nothing (its done event is used).
/// A done item gives the text of a message item, then the tool call of a
/// function call item. An error event fails with its message. Any other event
/// gives a tool call if it carries one, else a message text, else the data as a
/// completion chunk.
pub fn sse_event_outcome(
    event: Option<&str>,
    data: &str,
    payload: Option<Json>,
    as_chunk: Option<ChatCompletionStreamChunk>,
) -> (r: Result<SseOutcome, String>)
    ensures
        sse_outcome_spec(event, data, payload, as_chunk, r),
{
    let mut chunks: Vec<ChatCompletionStreamChunk> = Vec::new();
    if eq_str(chars_of(data).as_slice(), "[DONE]") {
        return Ok(SseOutcome { done: true, chunks });
    }
    let kind = match event {
        Some(e) => classify_sse_event(e),
        None => classify_sse_event(""),
    };
    proof {
        reveal_strlit("");
        assert(""@ =~= Seq::<char>::empty());
    }
    assert(kind == match opt_text(event) {
        Some(e) => sse_kind(e),
        None => sse_kind(Seq::empty()),
    });
    match kind {
        SseKind::Done => {
            return Ok(SseOutcome { done: true, chunks });
        },
        SseKind::TextDelta | SseKind::TextDone => {
            let j = match &payload {
                Some(j) => j,
                None => {
                    let mut m = if kind == SseKind::TextDelta {
                        chars_of("Invalid responses delta payload: ")
                    } else {
                        chars_of("Invalid responses done payload: ")
                    };
                    push_str(&mut m, data);
                    return Err(string_from_chars(m.as_slice()));
                },
            };
            let first = if kind == SseKind::TextDelta {
                json_get_str(j, "delta")
            } else {
                None
            };
            let text = match first {
                Some(t) => t,
                None => match json_get_str(j, "text") {
                    Some(t) => t,
                    None => match json_get_nested_str(j, "part", "text") {
                        Some(t) => t,
                        None => String::new(),
                    },
                },
            };
            if !text.as_str().is_empty() {
                chunks.push(make_content_chunk(text.as_str()));
            }
            return Ok(SseOutcome { done: false, chunks });
        },
        SseKind::ItemAdded => {
            return Ok(SseOutcome { done: false, chunks });
        },
        _ => {},
    }
    let p = match payload {
        Some(j) => j,
        None => Json::Null,
    };
    match kind {
        SseKind::ItemDone => {
            if let Some(text) = parse_message_item_text(&p) {
                if !text.as_str().is_empty() {
                    chunks.push(make_content_chunk(text.as_str()));
                }
            }
            if let Some(tool_chunk) = parse_tool_call_event(&p) {
                chunks.push(tool_chunk);
            }
            Ok(SseOutcome { done: false, chunks })
        },
        SseKind::Error => {
            let message = match json_get_nested_str(&p, "error", "message") {
                Some(m) => m,
                None => match json_get_str(&p, "message") {
                    Some(m) => m,
                    None => owned("Unknown responses API error"),
                },
            };
            let mut m = chars_of("Responses stream error: ");
            push_str(&mut m, message.as_str());
            Err(string_from_chars(m.as_slice()))
        },
        _ => {
            if let Some(tool_chunk) = parse_tool_call_event(&p) {
                chunks.push(tool_chunk);
                return Ok(SseOutcome { done: false, chunks });
            }
            if let Some(text) = parse_message_item_text(&p) {
                if !text.as_str().is_empty() {
                    chunks.push(make_content_chunk(text.as_str()));
                    return Ok(SseOutcome { done: false, chunks });
                }
            }
            if let Some(c) = as_chunk {
                chunks.push(c);
            }
            Ok(SseOutcome { done: false, chunks })
        },
    }
}

/// The view of a tool call: id, type, name and arguments.
pub open spec fn call_view(c: ChatToolCall) -> (Seq<char>, Seq<char>, Seq<char>, Seq<char>) {
    (c.id@, c.call_type@, c.function.name@, c.function.arguments@)
}

/// The views of a list of tool calls.
pub open spec fn call_views(v: Seq<ChatToolCall>) -> Seq<(Seq<char>, Seq<char>, Seq<char>, Seq<char>)> {
    v.map_values(|c: ChatToolCall| call_view(c))
}

/// The output array of a response body (empty when it has none).
pub open spec fn output_items(p: Json) -> Seq<Json> {
    match get_spec(p, "output"@) {
        Some(Json::Array(v)) => v@,
        _ => Seq::empty(),
    }
}

/// The texts and tool calls of the first `i` output items: the non-blank texts
/// of message items, and the named function calls (their id defaulting to
/// `call_` and the item's position).
pub open spec fn body_scan(items: Seq<Json>, i: nat) -> (
    Seq<Seq<char>>,
    Seq<(Seq<char>, Seq<char>, Seq<char>, Seq<char>)>,
)
    decreases i,
{
    if i == 0 {
        (Seq::empty(), Seq::empty())
    } else {
        let (parts, calls) = body_scan(items, (i - 1) as nat);
        let item = items[i - 1];
        if item_type(item) == "message"@ {
            (parts + part_texts(content_of(item), |t: Seq<char>| trim(t).len() > 0), calls)
        } else if item_type(item) == "function_call"@ && call_name_spec(item) is Some {
            (
                parts,
                calls.push(
                    (
                        call_id_spec(item, "call_"@ + decimal((i - 1) as nat)),
                        "function"@,
                        call_name_spec(item)->0,
                        call_arguments_spec(item),
                    ),
                ),
            )
        } else {
            (parts, calls)
        }
    }
}

/// The texts of a response body: those of its message items, or its top-level
/// `output_text` when there are none and it is not blank.
pub open spec fn body_texts(p: Json) -> Seq<Seq<char>> {
    let parts = body_scan(output_items(p), output_items(p).len()).0;
    if parts.len() == 0 && (get_str(p, "output_text"@) matches Some(t) && trim(t).len() > 0) {
        seq![get_str(p, "output_text"@)->0]
    } else {
        parts
    }
}

/// What a Responses body gives (see `completion_from_payload`).
pub open spec fn body_completion_spec(body: &str, payload: Option<Json>, r: Result<ChatCompletionResponse, String>) -> bool {
    &&& payload is None ==> (r matches Err(e) && e@ == "Invalid response JSON: "@ + body@)
    &&& payload matches Some(p) ==> (r matches Ok(resp) && resp.choices@.len() == 1 && {
            let m = resp.choices@[0].message;
            let texts_ = body_texts(p);
            let calls = body_scan(output_items(p), output_items(p).len()).1;
            &&& crate::protocol::opt_view(m.content) == (if texts_.len() == 0 {
                None
            } else {
                Some(concat(texts_))
            })
            &&& match m.tool_calls {
                Some(v) => calls.len() > 0 && call_views(v@) == calls,
                None => calls.len() == 0,
            }
        })
}

/// Turns a Responses body into a chat completion with one choice: its texts
/// joined (none when there are none) and its tool calls (none when there are
/// none). `payload` is the body read as JSON; a body that is not JSON fails.
pub fn completion_from_payload(body: &str, payload: Option<Json>) -> (r: Result<ChatCompletionResponse, String>)
    ensures
        body_completion_spec(body, payload, r),
{
    let p = match payload {
        Some(p) => p,
        None => {
            let mut m = chars_of("Invalid response JSON: ");
            push_str(&mut m, body);
            return Err(string_from_chars(m.as_slice()));
        },
    };
    let ghost items = output_items(p);
    let mut parts: Vec<String> = Vec::new();
    let mut calls: Vec<ChatToolCall> = Vec::new();
    match json_get(&p, "output") {
        Some(Json::Array(output)) => {
            let mut k: usize = 0;
            while k < output.len()
                invariant
                    k <= output.len(),
                    items == output@,
                    (texts(parts@), call_views(calls@)) == body_scan(items, k as nat),
                decreases output.len() - k,
            {
                let item = &output[k];
                let ghost before_parts = texts(parts@);
                let ghost before_calls = call_views(calls@);
                if has_type(item, "message") {
                    let found = gather_part_texts(item, true);
                    let mut j: usize = 0;
                    while j < found.len()
                        invariant
                            j <= found.len(),
                            texts(parts@) == before_parts + texts(found@).take(j as int),
                        decreases found.len() - j,
                    {
                        let ghost b = texts(parts@);
                        parts.push(found[j].clone());
                        assert(texts(parts@) =~= b.push(found@[j as int]@));
                        assert(texts(found@).take(j + 1) =~= texts(found@).take(j as int).push(found@[j as int]@));
                        j += 1;
                    }
                    assert(texts(found@).take(found.len() as int) =~= texts(found@));
                } else if has_type(item, "function_call") {
                    match function_call_name(item) {
                        Some(name) => {
                            let arguments = function_call_arguments(item);
                            let mut fallback = chars_of("call_");
                            push_decimal(&mut fallback, k);
                            let fb = string_from_chars(fallback.as_slice());
                            let id = function_call_id(item, fb.as_str());
                            calls.push(
                                ChatToolCall {
                                    id,
                                    call_type: owned("function"),
                                    function: ChatToolCallFunction { name, arguments },
                                },
                            );
                            assert(call_views(calls@) =~= before_calls.push(call_view(calls@.last())));
                        },
                        None => {},
                    }
                }
                proof {
                    reveal_strlit("message");
                    reveal_strlit("function_call");
                    assert(items.take(k + 1).drop_last() =~= items.take(k as int));
                }
                k += 1;
            }
        },
        _ => {},
    }
    let ghost scanned = texts(parts@);
    if parts.len() == 0 {
        if let Some(t) = json_get_str(&p, "output_text") {
            if trim_chars(chars_of(t.as_str()).as_slice()).len() > 0 {
                parts.push(t);
                assert(texts(parts@) =~= seq![get_str(p, "output_text"@)->0]);
            }
        }
    }
    let content = if parts.len() == 0 {
        None
    } else {
        Some(join_texts(&parts))
    };
    let tool_calls = if calls.len() == 0 {
        None
    } else {
        Some(calls)
    };
    let mut choices: Vec<ChatChoice> = Vec::new();
    choices.push(ChatChoice { message: ChatCompletionMessage { content, tool_calls } });
    Ok(ChatCompletionResponse { choices })
}

/// One input item of a Responses request.
#[derive(Debug)]
pub enum ResponsesInputItem {
    /// The output of a tool call.
    FunctionCallOutput { call_id: String, output: String },
    /// A message with one text part.
    Message { role: String, text: String },
    /// A tool call the assistant made.
    FunctionCall { call_id: String, name: String, arguments: String },
}

/// The view of an input item.
pub enum InputItemModel {
    FunctionCallOutput { call_id: Seq<char>, output: Seq<char> },
    Message { role: Seq<char>, text: Seq<char> },
    FunctionCall { call_id: Seq<char>, name: Seq<char>, arguments: Seq<char> },
}

impl View for ResponsesInputItem {
    type V = InputItemModel;

    open spec fn view(&self) -> InputItemModel {
        match self {
            ResponsesInputItem::FunctionCallOutput { call_id, output } => InputItemModel::FunctionCallOutput {
                call_id: call_id@,
                output: output@,
            },
            ResponsesInputItem::Message { role, text } => InputItemModel::Message {
                role: role@,
                text: text@,
            },
            ResponsesInputItem::FunctionCall { call_id, name, arguments } => InputItemModel::FunctionCall {
                call_id: call_id@,
                name: name@,
                arguments: arguments@,
            },
        }
    }
}

/// The views of a list of input items.
pub open spec fn item_views(v: Seq<ResponsesInputItem>) -> Seq<InputItemModel> {
    v.map_values(|i: ResponsesInputItem| i@)
}

/// The tool calls of an assistant message as input items.
pub open spec fn call_items(calls: Seq<ChatToolCall>) -> Seq<InputItemModel> {
    calls.map_values(
        |c: ChatToolCall|
            InputItemModel::FunctionCall {
                call_id: c.id@,
                name: c.function.name@,
                arguments: c.function.arguments@,
            },
    )
}

/// The input items of one chat message: a tool message gives its output (for
/// `call_unknown` when it answers no call); an assistant message gives its
/// text when it is not blank, then its tool calls; any other message gives its
/// text under its role.
pub open spec fn message_items(m: ChatMessage) -> Seq<InputItemModel> {
    let content: Seq<char> = match m.content {
        Some(c) => c@,
        None => Seq::empty(),
    };
    if m.role@ == "tool"@ {
        seq![
            InputItemModel::FunctionCallOutput {
                call_id: match m.tool_call_id {
                    Some(i) => i@,
                    None => "call_unknown"@,
                },
                output: content,
            },
        ]
    } else if m.role@ == "assistant"@ {
        (if m.content is Some && trim(content).len() > 0 {
            seq![InputItemModel::Message { role: "assistant"@, text: content }]
        } else {
            Seq::empty()
        }) + match m.tool_calls {
            Some(calls) => call_items(calls@),
            None => Seq::empty(),
        }
    } else {
        seq![InputItemModel::Message { role: m.role@, text: content }]
    }
}

/// The input items of a conversation: those of each message in turn.
pub open spec fn conversation_items(ms: Seq<ChatMessage>) -> Seq<InputItemModel>
    decreases ms.len(),
{
    if ms.len() == 0 {
        Seq::empty()
    } else {
        conversation_items(ms.drop_last()) + message_items(ms.last())
    }
}

/// A copy of an optional string, or a default.
fn text_or(s: &Option<String>, default: &str) -> (r: String)
    ensures
        r@ == (match s {
            Some(v) => v@,
            None => default@,
        }),
{
    match s {
        Some(v) => v.clone(),
        None => owned(default),
    }
}

/// The Responses input items of a conversation (see `conversation_items`).
pub fn convert_messages_to_responses_input(messages: &[ChatMessage]) -> (r: Vec<ResponsesInputItem>)
    ensures
        item_views(r@) == conversation_items(messages@),
{
    let mut out: Vec<ResponsesInputItem> = Vec::new();
    let mut i: usize = 0;
    while i < messages.len()
        invariant
            i <= messages.len(),
            item_views(out@) == conversation_items(messages@.take(i as int)),
        decreases messages.len() - i,
    {
        let m = &messages[i];
        let ghost before = item_views(out@);
        let role = chars_of(m.role.as_str());
        if eq_str(role.as_slice(), "tool") {
            let call_id = text_or(&m.tool_call_id, "call_unknown");
            let output = text_or(&m.content, "");
            out.push(ResponsesInputItem::FunctionCallOutput { call_id, output });
            proof {
                reveal_strlit("");
                assert(""@ =~= Seq::<char>::empty());
                assert(item_views(out@) =~= before + message_items(*m));
            }
        } else if eq_str(role.as_slice(), "assistant") {
            match &m.content {
                Some(c) => {
                    if trim_chars(chars_of(c.as_str()).as_slice()).len() > 0 {
                        out.push(
                            ResponsesInputItem::Message { role: owned("assistant"), text: c.clone() },
                        );
                    }
                },
                None => {},
            }
            let ghost mid = item_views(out@);
            match &m.tool_calls {
                Some(calls) => {
                    let mut k: usize = 0;
                    while k < calls.len()
                        invariant
                            k <= calls.len(),
                            item_views(out@) == mid + call_items(calls@.take(k as int)),
                        decreases calls.len() - k,
                    {
                        let c = &calls[k];
                        let ghost b = item_views(out@);
                        out.push(
                            ResponsesInputItem::FunctionCall {
                                call_id: c.id.clone(),
                                name: c.function.name.clone(),
                                arguments: c.function.arguments.clone(),
                            },
                        );
                        assert(item_views(out@) =~= b.push(call_items(calls@)[k as int]));
                        assert(call_items(calls@.take(k + 1)) =~= call_items(calls@.take(k as int)).push(call_items(calls@)[k as int]));
                        k += 1;
                    }
                    assert(calls@.take(calls.len() as int) =~= calls@);
                },
                None => {},
            }
            assert(item_views(out@) =~= before + message_items(*m));
        } else {
            let text = text_or(&m.content, "");
            out.push(ResponsesInputItem::Message { role: m.role.clone(), text });
            proof {
                reveal_strlit("");
                assert(""@ =~= Seq::<char>::empty());
                assert(item_views(out@) =~= before + message_items(*m));
            }
        }
        assert(messages@.take(i + 1).drop_last() =~= messages@.take(i as int));
        i += 1;
    }
    assert(messages@.take(messages.len() as int) =~= messages@);
    out
}

/// A JSON string.
fn json_str(s: &str) -> (r: Json)
    ensures
        r matches Json::Str(v) && v@ == s@,
{
    Json::Str(owned(s))
}

impl ResponsesInputItem {
    /// The item as JSON: its `type` and its fields; a message's text is one
    /// `input_text` part of its `content`.
    pub fn to_json(&self) -> (r: Json)
        ensures
            match self@ {
                InputItemModel::FunctionCallOutput { call_id, output } => get_str(r, "type"@) == Some("function_call_output"@)
                    && get_str(r, "call_id"@) == Some(call_id) && get_str(r, "output"@) == Some(output),
                InputItemModel::Message { role, text } => get_str(r, "type"@) == Some("message"@)
                    && get_str(r, "role"@) == Some(role) && (get_spec(r, "content"@) matches Some(Json::Array(parts))
                    && parts@.len() == 1 && get_str(parts@[0], "type"@) == Some("input_text"@)
                    && get_str(parts@[0], "text"@) == Some(text)),
                InputItemModel::FunctionCall { call_id, name, arguments } => get_str(r, "type"@) == Some("function_call"@)
                    && get_str(r, "call_id"@) == Some(call_id) && get_str(r, "name"@) == Some(name)
                    && get_str(r, "arguments"@) == Some(arguments),
            },
    {
        match self {
            ResponsesInputItem::FunctionCallOutput { call_id, output } => {
                let mut fields: Vec<(String, Json)> = Vec::new();
                fields.push((owned("type"), json_str("function_call_output")));
                fields.push((owned("call_id"), json_str(call_id.as_str())));
                fields.push((owned("output"), json_str(output.as_str())));
                proof {
                    reveal_strlit("type");
                    reveal_strlit("call_id");
                    reveal_strlit("output");
                    reveal_with_fuel(lookup, 4);
                    let f = fields@;
                    assert(f.drop_first()[0] == f[1]);
                    assert(f.drop_first().drop_first()[0] == f[2]);
                    assert("type"@.len() == 4 && "call_id"@.len() == 7 && "output"@.len() == 6);
                    assert("output"@[0] != "call_id"@[0]);
                }
                Json::Object(fields)
            },
            ResponsesInputItem::Message { role, text } => {
                let mut part: Vec<(String, Json)> = Vec::new();
                part.push((owned("type"), json_str("input_text")));
                part.push((owned("text"), json_str(text.as_str())));
                let mut parts: Vec<Json> = Vec::new();
                parts.push(Json::Object(part));
                let mut fields: Vec<(String, Json)> = Vec::new();
                fields.push((owned("type"), json_str("message")));
                fields.push((owned("role"), json_str(role.as_str())));
                fields.push((owned("content"), Json::Array(parts)));
                proof {
                    reveal_strlit("type");
                    reveal_strlit("text");
                    reveal_strlit("role");
                    reveal_strlit("content");
                    reveal_with_fuel(lookup, 4);
                    let f = fields@;
                    assert(f.drop_first()[0] == f[1]);
                    assert(f.drop_first().drop_first()[0] == f[2]);
                    assert(part@.drop_first()[0] == part@[1]);
                    assert("type"@.len() == 4 && "role"@.len() == 4 && "content"@.len() == 7 && "text"@.len() == 4);
                    assert("type"@[0] != "role"@[0] && "type"@[1] != "text"@[1]);
                }
                Json::Object(fields)
            },
            ResponsesInputItem::FunctionCall { call_id, name, arguments } => {
                let mut fields: Vec<(String, Json)> = Vec::new();
                fields.push((owned("type"), json_str("function_call")));
                fields.push((owned("call_id"), json_str(call_id.as_str())));
                fields.push((owned("name"), json_str(name.as_str())));
                fields.push((owned("arguments"), json_str(arguments.as_str())));
                proof {
                    reveal_strlit("type");
                    reveal_strlit("call_id");
                    reveal_strlit("name");
                    reveal_strlit("arguments");
                    reveal_with_fuel(lookup, 5);
                    let f = fields@;
                    assert(f.drop_first()[0] == f[1]);
                    assert(f.drop_first().drop_first()[0] == f[2]);
                    assert(f.drop_first().drop_first().drop_first()[0] == f[3]);
                    assert("type"@.len() == 4 && "call_id"@.len() == 7 && "name"@.len() == 4 && "arguments"@.len() == 9);
                    assert("type"@[0] != "name"@[0]);
                }
                Json::Object(fields)
            },
        }
    }
}

/// The server-side search tools: web search and X search.
pub fn server_side_search_tools() -> (r: Vec<Json>)
    ensures
        r@.len() == 2,
        get_str(r@[0], "type"@) == Some("web_search"@),
        get_str(r@[1], "type"@) == Some("x_search"@),
{
    let mut web: Vec<(String, Json)> = Vec::new();
    web.push((owned("type"), json_str("web_search")));
    let mut x: Vec<(String, Json)> = Vec::new();
    x.push((owned("type"), json_str("x_search")));
    let mut out: Vec<Json> = Vec::new();
    out.push(Json::Object(web));
    out.push(Json::Object(x));
    out
}


/// A tool as the Responses API takes it: one flat object with the tool's
/// `type`, `name`, `description` and `parameters`, in that order.
pub open spec fn is_flat_tool(j: Json, t: ChatTool) -> bool {
    &&& j matches Json::Object(f)
    &&& f@.len() == 4
    &&& f@[0].0@ == "type"@ && (f@[0].1 matches Json::Str(v) && v@ == t.tool_type@)
    &&& f@[1].0@ == "name"@ && (f@[1].1 matches Json::Str(v) && v@ == t.function.name@)
    &&& f@[2].0@ == "description"@ && (f@[2].1 matches Json::Str(v) && v@ == t.function.description@)
    &&& f@[3].0@ == "parameters"@ && f@[3].1 == t.function.parameters
}

/// The tools as the Responses API takes them, in their order (see
/// `is_flat_tool`).
pub fn flatten_tools(tools: Vec<ChatTool>) -> (r: Vec<Json>)
    ensures
        r@.len() == tools@.len(),
        forall|k: int| 0 <= k < tools@.len() ==> is_flat_tool(#[trigger] r@[k], tools@[k]),
{
    let ghost all = tools@;
    let mut rest = tools;
    let mut out: Vec<Json> = Vec::new();
    while rest.len() > 0
        invariant
            out@.len() + rest@.len() == all.len(),
            rest@ == all.skip(out@.len() as int),
            forall|k: int| 0 <= k < out@.len() ==> is_flat_tool(#[trigger] out@[k], all[k]),
        decreases rest.len(),
    {
        let ghost done = out@.len();
        let t = rest.remove(0);
        assert(t == all[done as int]);
        let ChatTool { tool_type, function } = t;
        let mut fields: Vec<(String, Json)> = Vec::new();
        fields.push((owned("type"), Json::Str(tool_type)));
        fields.push((owned("name"), Json::Str(function.name)));
        fields.push((owned("description"), Json::Str(function.description)));
        fields.push((owned("parameters"), function.parameters));
        out.push(Json::Object(fields));
        assert(rest@ =~= all.skip(out@.len() as int));
    }
    out
}


/// The JSON value `serde_json` reads from a text, as the library holds it
/// (numbers by their `u64` value): a function of the text alone; nothing when
/// the text is not JSON.
pub uninterp spec fn json_of(text: Seq<char>) -> Option<Json>;

/// `serde_json::Value`, carried only into the conversion below.
#[verifier::external_type_specification]
#[verifier::external_body]
pub struct ExJsonValue(serde_json::Value);

/// A `serde_json` value as the library holds it, member for member (a number
/// keeps only its `u64` value). Nothing is claimed of it beyond `parse_json`.
#[verifier::external_body]
fn json_from_value(v: &serde_json::Value) -> (r: Json) {
    match v {
        serde_json::Value::Null => Json::Null,
        serde_json::Value::Bool(b) => Json::Bool(*b),
        serde_json::Value::Number(n) => Json::Number(n.as_u64()),
        serde_json::Value::String(t) => Json::Str(t.clone()),
        serde_json::Value::Array(items) => Json::Array(items.iter().map(json_from_value).collect()),
        serde_json::Value::Object(map) => Json::Object(map.iter().map(|(k, x)| (k.clone(), json_from_value(x))).collect()),
    }
}

/// Reads a text as JSON with `serde_json::from_str::<serde_json::Value>`; the
/// result is taken as a function of the text (`json_of`), not described further.
#[verifier::external_body]
pub fn parse_json(text: &str) -> (r: Option<Json>)
    ensures
        r == json_of(text@),
{
    match serde_json::from_str::<serde_json::Value>(text) {
        Ok(v) => Some(json_from_value(&v)),
        Err(_) => None,
    }
}

/// Reads a server event of the Responses stream: its data is read as JSON, and
/// as a completion chunk, here (see `sse_event_outcome` and `chunk_from_json`).
pub fn handle_sse_event(event: Option<&str>, data: &str) -> (r: Result<SseOutcome, String>)
    ensures
        exists|c: Option<ChatCompletionStreamChunk>|
            {
                &&& match json_of(data@) {
                    Some(j) => (chunk_readable(j) <==> c is Some) && (c matches Some(x) ==> chunk_read_as(j, x)),
                    None => c is None,
                }
                &&& #[trigger] sse_outcome_spec(event, data, json_of(data@), c, r)
            },
{
    let payload = parse_json(data);
    let as_chunk = match &payload {
        Some(j) => chunk_from_json(j),
        None => None,
    };
    sse_event_outcome(event, data, payload, as_chunk)
}

/// Turns a Responses body into a chat completion, reading it as JSON here (see
/// `completion_from_payload`); a body that is not JSON fails.
pub fn convert_responses_body_to_chat_completion(body: &str) -> (r: Result<ChatCompletionResponse, String>)
    ensures
        body_completion_spec(body, json_of(body@), r),
{
    let payload = parse_json(body);
    completion_from_payload(body, payload)
}


/// The number of tool-call items among input items.
pub open spec fn function_call_count(items: Seq<InputItemModel>) -> nat
    decreases items.len(),
{
    if items.len() == 0 {
        0
    } else {
        function_call_count(items.drop_last()) + if items.last() is FunctionCall {
            1nat
        } else {
            0nat
        }
    }
}

/// The number of tool calls the assistant messages of a conversation made.
pub open spec fn assistant_call_count(ms: Seq<ChatMessage>) -> nat
    decreases ms.len(),
{
    if ms.len() == 0 {
        0
    } else {
        assistant_call_count(ms.drop_last()) + match ms.last().tool_calls {
            Some(calls) => if ms.last().role@ == "assistant"@ {
                calls@.len()
            } else {
                0nat
            },
            None => 0nat,
        }
    }
}

proof fn lemma_function_call_count_append(a: Seq<InputItemModel>, b: Seq<InputItemModel>)
    ensures
        function_call_count(a + b) == function_call_count(a) + function_call_count(b),
    decreases b.len(),
{
    if b.len() > 0 {
        lemma_function_call_count_append(a, b.drop_last());
        assert((a + b).drop_last() =~= a + b.drop_last());
        assert((a + b).last() == b.last());
    } else {
        assert(a + b =~= a);
    }
}

proof fn lemma_call_items_count(calls: Seq<ChatToolCall>)
    ensures
        function_call_count(call_items(calls)) == calls.len(),
    decreases calls.len(),
{
    if calls.len() > 0 {
        lemma_call_items_count(calls.drop_last());
        assert(call_items(calls).drop_last() =~= call_items(calls.drop_last()));
    }
}

/// An assistant message's tool calls become its last input items: one
/// `function_call` per call, with that call's id, name and arguments, in the
/// order of the calls.
pub proof fn law_assistant_calls_become_function_calls(m: ChatMessage)
    requires
        m.role@ == "assistant"@,
        m.tool_calls is Some,
    ensures
        ({
            let items = message_items(m);
            let calls = m.tool_calls->0@;
            &&& items.len() >= calls.len()
            &&& forall|j: int|
                0 <= j < calls.len() ==> items[items.len() - calls.len() + j] == (InputItemModel::FunctionCall {
                    call_id: (#[trigger] calls[j]).id@,
                    name: calls[j].function.name@,
                    arguments: calls[j].function.arguments@,
                })
        }),
{
    reveal_strlit("tool");
    reveal_strlit("assistant");
    assert("tool"@.len() != "assistant"@.len());
}

/// Every tool call of an assistant message reaches the Responses input: the
/// input holds exactly as many `function_call` items as the assistant messages
/// made tool calls.
pub proof fn law_every_assistant_call_is_sent(ms: Seq<ChatMessage>)
    ensures
        function_call_count(conversation_items(ms)) == assistant_call_count(ms),
    decreases ms.len(),
{
    if ms.len() > 0 {
        law_every_assistant_call_is_sent(ms.drop_last());
        let m = ms.last();
        assert(function_call_count(Seq::<InputItemModel>::empty()) == 0);
        assert(conversation_items(ms) == conversation_items(ms.drop_last()) + message_items(m));
        lemma_function_call_count_append(conversation_items(ms.drop_last()), message_items(m));
        reveal_strlit("tool");
        reveal_strlit("assistant");
        assert("tool"@.len() != "assistant"@.len());
        let content: Seq<char> = match m.content {
            Some(c) => c@,
            None => Seq::empty(),
        };
        if m.role@ == "tool"@ {
            let one = message_items(m);
            assert(one.drop_last() =~= Seq::<InputItemModel>::empty());
            assert(function_call_count(one) == 0);
        } else if m.role@ == "assistant"@ {
            let head: Seq<InputItemModel> = if m.content is Some && trim(content).len() > 0 {
                seq![InputItemModel::Message { role: "assistant"@, text: content }]
            } else {
                Seq::empty()
            };
            let tail: Seq<InputItemModel> = match m.tool_calls {
                Some(calls) => call_items(calls@),
                None => Seq::empty(),
            };
            assert(message_items(m) == head + tail);
            lemma_function_call_count_append(head, tail);
            if head.len() > 0 {
                assert(head.drop_last() =~= Seq::<InputItemModel>::empty());
            }
            match m.tool_calls {
                Some(calls) => lemma_call_items_count(calls@),
                None => {},
            }
            assert(function_call_count(head) == 0);
        } else {
            let one = message_items(m);
            assert(one.drop_last() =~= Seq::<InputItemModel>::empty());
            assert(function_call_count(one) == 0);
        }
    }
}

} // verus!
