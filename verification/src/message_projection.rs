//! Chat messages as the two request formats want them: Responses input items
//! and chat-completions messages, images included.
use vstd::prelude::*;

use crate::agent::{clone_calls, clone_opt_string};
use crate::protocol::{owned, ChatMessage, ChatToolCall};
use crate::responses_adapter::{get_spec, get_str, Json};
use crate::text::{chars_of, eq_str, trim, trim_chars};

verus! {

/// A content part: text, or an image given by its data URL.
#[derive(Debug)]
pub enum ContentPart {
    Text(String),
    Image(String),
}

/// The view of a content part.
pub enum PartModel {
    Text(Seq<char>),
    Image(Seq<char>),
}

impl View for ContentPart {
    type V = PartModel;

    open spec fn view(&self) -> PartModel {
        match self {
            ContentPart::Text(t) => PartModel::Text(t@),
            ContentPart::Image(u) => PartModel::Image(u@),
        }
    }
}

/// The views of a list of parts.
pub open spec fn part_views(v: Seq<ContentPart>) -> Seq<PartModel> {
    v.map_values(|p: ContentPart| p@)
}

/// The text of a message's content (empty when it has none).
pub open spec fn content_text(m: ChatMessage) -> Seq<char> {
    match m.content {
        Some(c) => c@,
        None => Seq::empty(),
    }
}

/// The text part of a message, when its text is not blank.
pub open spec fn text_parts(m: ChatMessage) -> Seq<PartModel> {
    if m.content is Some && trim(content_text(m)).len() > 0 {
        seq![PartModel::Text(content_text(m))]
    } else {
        Seq::empty()
    }
}

/// The image parts of a message's attachments.
pub open spec fn image_parts(m: ChatMessage) -> Seq<PartModel> {
    match m.attachments {
        Some(a) => a@.map_values(|x: crate::protocol::ChatImageAttachment| PartModel::Image(x.data_url@)),
        None => Seq::empty(),
    }
}

/// The content parts of a message: its text when not blank, then the images of
/// a user message; one empty text part when that leaves none.
pub open spec fn message_parts(m: ChatMessage) -> Seq<PartModel> {
    let parts = text_parts(m) + if m.role@ == "user"@ {
        image_parts(m)
    } else {
        Seq::empty()
    };
    if parts.len() == 0 {
        seq![PartModel::Text(Seq::empty())]
    } else {
        parts
    }
}

/// Appends the text part of a message (see `text_parts`).
fn push_text_part(m: &ChatMessage, out: &mut Vec<ContentPart>)
    ensures
        part_views(final(out)@) == part_views(old(out)@) + text_parts(*m),
{
    if let Some(text) = &m.content {
        if trim_chars(chars_of(text.as_str()).as_slice()).len() > 0 {
            out.push(ContentPart::Text(text.clone()));
            assert(part_views(out@) =~= part_views(old(out)@) + text_parts(*m));
            return;
        }
    }
    assert(part_views(out@) =~= part_views(old(out)@) + text_parts(*m));
}

/// Appends the image parts of a message (see `image_parts`).
fn push_image_parts(m: &ChatMessage, out: &mut Vec<ContentPart>)
    ensures
        part_views(final(out)@) == part_views(old(out)@) + image_parts(*m),
{
    let ghost start = part_views(out@);
    match &m.attachments {
        Some(a) => {
            let ghost imgs = image_parts(*m);
            let mut i: usize = 0;
            while i < a.len()
                invariant
                    i <= a.len(),
                    imgs == a@.map_values(|x: crate::protocol::ChatImageAttachment| PartModel::Image(x.data_url@)),
                    part_views(out@) == start + imgs.take(i as int),
                decreases a.len() - i,
            {
                let ghost b = part_views(out@);
                out.push(ContentPart::Image(a[i].data_url.clone()));
                assert(part_views(out@) =~= b.push(imgs[i as int]));
                assert(imgs.take(i + 1) =~= imgs.take(i as int).push(imgs[i as int]));
                i += 1;
            }
            assert(imgs.take(a.len() as int) =~= imgs);
        },
        None => {
            assert(part_views(out@) =~= start + image_parts(*m));
        },
    }
}

/// The content parts of a message for a Responses request (see `message_parts`).
pub fn responses_content_for_message(message: &ChatMessage) -> (r: Vec<ContentPart>)
    ensures
        part_views(r@) == message_parts(*message),
{
    let mut out: Vec<ContentPart> = Vec::new();
    push_text_part(message, &mut out);
    if eq_str(chars_of(message.role.as_str()).as_slice(), "user") {
        push_image_parts(message, &mut out);
    } else {
        assert(part_views(out@) =~= part_views(out@) + Seq::<PartModel>::empty());
    }
    if out.len() == 0 {
        out.push(ContentPart::Text(String::new()));
        assert(part_views(out@) =~= seq![PartModel::Text(Seq::empty())]);
    }
    out
}

/// A JSON string.
fn json_text(s: &str) -> (r: Json)
    ensures
        r matches Json::Str(v) && v@ == s@,
{
    Json::Str(owned(s))
}

/// A JSON object with a `type` and one string member.
fn typed_object(kind: &str, key: &str, value: Json) -> (r: Json)
    requires
        key@ != "type"@,
    ensures
        get_str(r, "type"@) == Some(kind@),
        get_spec(r, key@) == Some(value),
{
    let mut fields: Vec<(String, Json)> = Vec::new();
    fields.push((owned("type"), json_text(kind)));
    fields.push((owned(key), value));
    proof {
        reveal_with_fuel(crate::responses_adapter::lookup, 3);
        assert(fields@.drop_first()[0] == fields@[1]);
    }
    Json::Object(fields)
}

/// A part as a Responses content item: `input_text` with its text, or
/// `input_image` with its URL.
pub open spec fn responses_part_json(j: Json, p: PartModel) -> bool {
    match p {
        PartModel::Text(t) => get_str(j, "type"@) == Some("input_text"@) && get_str(j, "text"@) == Some(t),
        PartModel::Image(u) => get_str(j, "type"@) == Some("input_image"@) && get_str(j, "image_url"@) == Some(u),
    }
}

impl ContentPart {
    /// The part as a Responses content item (see `responses_part_json`).
    pub fn to_responses_json(&self) -> (r: Json)
        ensures
            responses_part_json(r, self@),
    {
        proof {
            reveal_strlit("type");
            reveal_strlit("text");
            reveal_strlit("image_url");
            assert("type"@.len() == 4 && "image_url"@.len() == 9);
            assert("type"@[0] != "text"@[1]);
        }
        match self {
            ContentPart::Text(t) => typed_object("input_text", "text", json_text(t.as_str())),
            ContentPart::Image(u) => typed_object("input_image", "image_url", json_text(u.as_str())),
        }
    }
}

/// The Responses content array of a message: each of its parts in order.
pub open spec fn parts_array_json(j: Json, parts: Seq<PartModel>) -> bool {
    j matches Json::Array(items) && items@.len() == parts.len() && forall|k: int|
        0 <= k < parts.len() ==> #[trigger] responses_part_json(items@[k], parts[k])
}

/// The Responses content array of a message (see `message_parts`).
pub fn responses_content_json(message: &ChatMessage) -> (r: Json)
    ensures
        parts_array_json(r, message_parts(*message)),
{
    let parts = responses_content_for_message(message);
    let mut items: Vec<Json> = Vec::new();
    let mut i: usize = 0;
    while i < parts.len()
        invariant
            i <= parts.len(),
            part_views(parts@) == message_parts(*message),
            items@.len() == i,
            forall|k: int| 0 <= k < i ==> #[trigger] responses_part_json(items@[k], part_views(parts@)[k]),
        decreases parts.len() - i,
    {
        let j = parts[i].to_responses_json();
        items.push(j);
        i += 1;
    }
    Json::Array(items)
}

/// One Responses input item, as the projection of a conversation gives it.
pub enum ProjectedItem {
    Output { call_id: Seq<char>, output: Seq<char> },
    Message { role: Seq<char>, parts: Seq<PartModel> },
    Call { call_id: Seq<char>, name: Seq<char>, arguments: Seq<char> },
}

/// The Responses input items of one message: a tool message gives its output
/// (for `call_unknown` when it answers no call); an assistant message gives its
/// text when it is not blank, then its tool calls; any other message gives its
/// content parts (see `message_parts`) under its role.
pub open spec fn projected_items(m: ChatMessage) -> Seq<ProjectedItem> {
    if m.role@ == "tool"@ {
        seq![
            ProjectedItem::Output {
                call_id: match m.tool_call_id {
                    Some(i) => i@,
                    None => "call_unknown"@,
                },
                output: content_text(m),
            },
        ]
    } else if m.role@ == "assistant"@ {
        (if m.content is Some && trim(content_text(m)).len() > 0 {
            seq![ProjectedItem::Message { role: "assistant"@, parts: seq![PartModel::Text(content_text(m))] }]
        } else {
            Seq::empty()
        }) + match m.tool_calls {
            Some(calls) => calls@.map_values(
                |c: ChatToolCall|
                    ProjectedItem::Call {
                        call_id: c.id@,
                        name: c.function.name@,
                        arguments: c.function.arguments@,
                    },
            ),
            None => Seq::empty(),
        }
    } else {
        seq![ProjectedItem::Message { role: m.role@, parts: message_parts(m) }]
    }
}

/// The Responses input items of a conversation, message by message.
pub open spec fn projected_conversation(ms: Seq<ChatMessage>) -> Seq<ProjectedItem>
    decreases ms.len(),
{
    if ms.len() == 0 {
        Seq::empty()
    } else {
        projected_conversation(ms.drop_last()) + projected_items(ms.last())
    }
}

/// A JSON value is the Responses form of an input item.
pub open spec fn item_json(j: Json, item: ProjectedItem) -> bool {
    match item {
        ProjectedItem::Output { call_id, output } => get_str(j, "type"@) == Some("function_call_output"@)
            && get_str(j, "call_id"@) == Some(call_id) && get_str(j, "output"@) == Some(output),
        ProjectedItem::Message { role, parts } => get_str(j, "type"@) == Some("message"@) && get_str(
            j,
            "role"@,
        ) == Some(role) && (get_spec(j, "content"@) matches Some(c) && parts_array_json(c, parts)),
        ProjectedItem::Call { call_id, name, arguments } => get_str(j, "type"@) == Some("function_call"@)
            && get_str(j, "call_id"@) == Some(call_id) && get_str(j, "name"@) == Some(name) && get_str(
            j,
            "arguments"@,
        ) == Some(arguments),
    }
}

/// A JSON object with the members `keys` (distinct) and `values`, in order.
fn object_of(keys: Vec<String>, values: Vec<Json>) -> (r: Json)
    requires
        keys@.len() == values@.len(),
        forall|a: int, b: int| 0 <= a < b < keys@.len() ==> keys@[a]@ != keys@[b]@,
    ensures
        forall|k: int| 0 <= k < keys@.len() ==> get_spec(r, #[trigger] keys@[k]@) == Some(values@[k]),
        r matches Json::Object(f) && f@.len() == keys@.len() && forall|k: int| 0 <= k < keys@.len() ==> #[trigger] f@[k].0 == keys@[k],
{
    let ghost ks = keys@;
    let ghost vals = values@;
    let mut fields: Vec<(String, Json)> = Vec::new();
    let mut key_rest = keys;
    let mut rest = values;
    let mut i: usize = 0;
    let n = key_rest.len();
    while i < n
        invariant
            n == ks.len() == vals.len(),
            i <= n,
            rest@ == vals.skip(i as int),
            key_rest@ == ks.skip(i as int),
            fields@.len() == i,
            forall|k: int| 0 <= k < i ==> fields@[k] == (ks[k], vals[k]),
        decreases n - i,
    {
        let v = rest.remove(0);
        let key = key_rest.remove(0);
        assert(vals.skip(i as int)[0] == vals[i as int]);
        assert(vals.skip(i as int).drop_first() =~= vals.skip(i + 1));
        assert(ks.skip(i as int)[0] == ks[i as int]);
        assert(ks.skip(i as int).drop_first() =~= ks.skip(i + 1));
        let ghost before = fields@;
        fields.push((key, v));
        assert forall|k: int| 0 <= k <= i implies fields@[k] == (ks[k], vals[k]) by {
            if k < i {
                assert(fields@[k] == before[k]);
            }
        }
        i += 1;
    }
    proof {
        assert forall|k: int| 0 <= k < ks.len() implies crate::responses_adapter::lookup(fields@, #[trigger] ks[k]@) == Some(vals[k]) by {
            assert(fields@[k] == (ks[k], vals[k]));
            assert forall|a: int| 0 <= a < k implies fields@[a].0@ != ks[k]@ by {
                assert(fields@[a] == (ks[a], vals[a]));
            }
            lemma_lookup_at(fields@, k, ks[k]@);
        }
    }
    Json::Object(fields)
}

/// A key that none of the members of an object has is absent from it.
proof fn lemma_absent_key(r: Json, keys: Seq<String>, key: Seq<char>)
    requires
        r matches Json::Object(f) && f@.len() == keys.len() && forall|k: int| 0 <= k < keys.len() ==> #[trigger] f@[k].0 == keys[k],
        forall|k: int| 0 <= k < keys.len() ==> #[trigger] keys[k]@ != key,
    ensures
        get_spec(r, key) is None,
{
    if let Json::Object(f) = r {
        lemma_lookup_none(f@, key);
    }
}

/// Looking up a key that no member has finds nothing.
proof fn lemma_lookup_none(fields: Seq<(String, Json)>, key: Seq<char>)
    requires
        forall|k: int| 0 <= k < fields.len() ==> #[trigger] fields[k].0@ != key,
    ensures
        crate::responses_adapter::lookup(fields, key) is None,
    decreases fields.len(),
{
    if fields.len() > 0 {
        assert(fields[0].0@ != key);
        assert forall|k: int| 0 <= k < fields.drop_first().len() implies #[trigger] fields.drop_first()[k].0@ != key by {
            assert(fields.drop_first()[k] == fields[k + 1]);
        }
        lemma_lookup_none(fields.drop_first(), key);
    }
}

/// The member found at position `k` when no earlier member has its key.
proof fn lemma_lookup_at(fields: Seq<(String, Json)>, k: int, key: Seq<char>)
    requires
        0 <= k < fields.len(),
        fields[k].0@ == key,
        forall|a: int| 0 <= a < k ==> fields[a].0@ != key,
    ensures
        crate::responses_adapter::lookup(fields, key) == Some(fields[k].1),
    decreases k,
{
    if k > 0 {
        assert forall|a: int| 0 <= a < k - 1 implies fields.drop_first()[a].0@ != key by {
            assert(fields.drop_first()[a] == fields[a + 1]);
        }
        lemma_lookup_at(fields.drop_first(), k - 1, key);
    }
}

/// The keys of a two-member object.
fn keys2(a: &str, b: &str) -> (r: Vec<String>)
    requires
        a@ != b@,
    ensures
        r@.len() == 2,
        r@[0]@ == a@,
        r@[1]@ == b@,
        forall|x: int, y: int| 0 <= x < y < r@.len() ==> r@[x]@ != r@[y]@,
{
    let mut v: Vec<String> = Vec::new();
    v.push(owned(a));
    v.push(owned(b));
    v
}

/// The keys of a three-member object.
fn keys3(a: &str, b: &str, c: &str) -> (r: Vec<String>)
    requires
        a@ != b@,
        a@ != c@,
        b@ != c@,
    ensures
        r@.len() == 3,
        r@[0]@ == a@,
        r@[1]@ == b@,
        r@[2]@ == c@,
        forall|x: int, y: int| 0 <= x < y < r@.len() ==> r@[x]@ != r@[y]@,
{
    let mut v: Vec<String> = Vec::new();
    v.push(owned(a));
    v.push(owned(b));
    v.push(owned(c));
    v
}

/// The keys of a four-member object.
fn keys4(a: &str, b: &str, c: &str, d: &str) -> (r: Vec<String>)
    requires
        a@ != b@,
        a@ != c@,
        a@ != d@,
        b@ != c@,
        b@ != d@,
        c@ != d@,
    ensures
        r@.len() == 4,
        r@[0]@ == a@,
        r@[1]@ == b@,
        r@[2]@ == c@,
        r@[3]@ == d@,
        forall|x: int, y: int| 0 <= x < y < r@.len() ==> r@[x]@ != r@[y]@,
{
    let mut v: Vec<String> = Vec::new();
    v.push(owned(a));
    v.push(owned(b));
    v.push(owned(c));
    v.push(owned(d));
    v
}

/// Facts about the member names used below.
proof fn lemma_member_names()
    ensures
        "type"@ != "call_id"@,
        "type"@ != "output"@,
        "call_id"@ != "output"@,
        "type"@ != "role"@,
        "type"@ != "content"@,
        "role"@ != "content"@,
        "type"@ != "name"@,
        "type"@ != "arguments"@,
        "call_id"@ != "name"@,
        "call_id"@ != "arguments"@,
        "name"@ != "arguments"@,
        "type"@ != "text"@,
        "type"@ != "image_url"@,
        "type"@ != "url"@,
{
    reveal_strlit("type");
    reveal_strlit("call_id");
    reveal_strlit("output");
    reveal_strlit("role");
    reveal_strlit("content");
    reveal_strlit("name");
    reveal_strlit("arguments");
    reveal_strlit("text");
    reveal_strlit("image_url");
    reveal_strlit("url");
    assert("type"@.len() == 4 && "call_id"@.len() == 7 && "output"@.len() == 6);
    assert("role"@.len() == 4 && "content"@.len() == 7 && "name"@.len() == 4);
    assert("arguments"@.len() == 9 && "text"@.len() == 4 && "image_url"@.len() == 9);
    assert("url"@.len() == 3);
    assert("type"@[0] != "role"@[0] && "type"@[0] != "name"@[0] && "type"@[1] != "text"@[1]);
    assert("call_id"@[0] != "content"@[1]);
}

/// The Responses form of an input item (see `item_json`).
fn item_to_json_output(call_id: String, output: String) -> (r: Json)
    ensures
        item_json(r, ProjectedItem::Output { call_id: call_id@, output: output@ }),
{
    proof {
        lemma_member_names();
    }
    let keys = keys3("type", "call_id", "output");
    let mut values: Vec<Json> = Vec::new();
    values.push(json_text("function_call_output"));
    values.push(Json::Str(call_id));
    values.push(Json::Str(output));
    let r = object_of(keys, values);
    assert(get_spec(r, keys@[0]@) == Some(values@[0]));
    assert(get_spec(r, keys@[1]@) == Some(values@[1]));
    assert(get_spec(r, keys@[2]@) == Some(values@[2]));
    r
}

/// The Responses form of a message item (see `item_json`).
fn item_to_json_message(role: String, parts: Json) -> (r: Json)
    ensures
        forall|ps: Seq<PartModel>| parts_array_json(parts, ps) ==> #[trigger] item_json(r, ProjectedItem::Message { role: role@, parts: ps }),
{
    proof {
        lemma_member_names();
    }
    let keys = keys3("type", "role", "content");
    let mut values: Vec<Json> = Vec::new();
    values.push(json_text("message"));
    values.push(Json::Str(role));
    values.push(parts);
    let r = object_of(keys, values);
    assert(get_spec(r, keys@[0]@) == Some(values@[0]));
    assert(get_spec(r, keys@[1]@) == Some(values@[1]));
    assert(get_spec(r, keys@[2]@) == Some(values@[2]));
    r
}

/// The Responses form of a tool call item (see `item_json`).
fn item_to_json_call(call_id: String, name: String, arguments: String) -> (r: Json)
    ensures
        item_json(r, ProjectedItem::Call { call_id: call_id@, name: name@, arguments: arguments@ }),
{
    proof {
        lemma_member_names();
    }
    let keys = keys4("type", "call_id", "name", "arguments");
    let mut values: Vec<Json> = Vec::new();
    values.push(json_text("function_call"));
    values.push(Json::Str(call_id));
    values.push(Json::Str(name));
    values.push(Json::Str(arguments));
    let r = object_of(keys, values);
    assert(get_spec(r, keys@[0]@) == Some(values@[0]));
    assert(get_spec(r, keys@[1]@) == Some(values@[1]));
    assert(get_spec(r, keys@[2]@) == Some(values@[2]));
    assert(get_spec(r, keys@[3]@) == Some(values@[3]));
    r
}

/// A one-part content array holding a text.
fn single_text_parts(text: String) -> (r: Json)
    ensures
        parts_array_json(r, seq![PartModel::Text(text@)]),
{
    let part = ContentPart::Text(text);
    let j = part.to_responses_json();
    let mut items: Vec<Json> = Vec::new();
    items.push(j);
    Json::Array(items)
}

/// A conversation as Responses input items (see `projected_conversation`).
pub fn to_responses_input(messages: &[ChatMessage]) -> (r: Vec<Json>)
    ensures
        r@.len() == projected_conversation(messages@).len(),
        forall|k: int| 0 <= k < r@.len() ==> #[trigger] item_json(r@[k], projected_conversation(messages@)[k]),
{
    let mut out: Vec<Json> = Vec::new();
    let mut i: usize = 0;
    while i < messages.len()
        invariant
            i <= messages.len(),
            out@.len() == projected_conversation(messages@.take(i as int)).len(),
            forall|k: int| 0 <= k < out@.len() ==> #[trigger] item_json(out@[k], projected_conversation(messages@.take(i as int))[k]),
        decreases messages.len() - i,
    {
        let m = &messages[i];
        let ghost before = projected_conversation(messages@.take(i as int));
        let ghost mine = projected_items(*m);
        let ghost start = out@.len() as int;
        proof {
            assert(messages@.take(i + 1).drop_last() =~= messages@.take(i as int));
            assert(projected_conversation(messages@.take(i + 1)) == before + mine);
        }
        let ghost all = before + mine;
        assert forall|x: int| 0 <= x < start implies #[trigger] item_json(out@[x], all[x]) by {
            assert(all[x] == before[x]);
        }
        let role = chars_of(m.role.as_str());
        if eq_str(role.as_slice(), "tool") {
            let call_id = match &m.tool_call_id {
                Some(c) => c.clone(),
                None => owned("call_unknown"),
            };
            let output = match &m.content {
                Some(c) => c.clone(),
                None => String::new(),
            };
            let item = item_to_json_output(call_id, output);
            out.push(item);
            assert forall|x: int| 0 <= x < out@.len() implies #[trigger] item_json(out@[x], all[x]) by {

            }
        } else if eq_str(role.as_slice(), "assistant") {
            let mut count: usize = 0;
            if let Some(c) = &m.content {
                if trim_chars(chars_of(c.as_str()).as_slice()).len() > 0 {
                    let parts = single_text_parts(c.clone());
                    let item = item_to_json_message(owned("assistant"), parts);
                    assert(item_json(item, ProjectedItem::Message { role: "assistant"@, parts: seq![PartModel::Text(c@)] }));
                    out.push(item);
                    count = 1;
                }
            }
            assert(count <= 1);
            assert(out@.len() == start + count);
            assert forall|x: int| 0 <= x < start + count implies #[trigger] item_json(out@[x], all[x]) by {}
            match &m.tool_calls {
                Some(calls) => {
                    let mut k: usize = 0;
                    while k < calls.len()
                        invariant
                            k <= calls.len(),
                            count <= 1,
                            out@.len() == start + count + k,
                            all.len() == start + count + calls@.len(),
                            forall|x: int| 0 <= x < calls@.len() ==> #[trigger] all[start + count + x] == (ProjectedItem::Call {
                                call_id: calls@[x].id@,
                                name: calls@[x].function.name@,
                                arguments: calls@[x].function.arguments@,
                            }),
                            forall|x: int| 0 <= x < out@.len() ==> #[trigger] item_json(out@[x], all[x]),
                        decreases calls.len() - k,
                    {
                        let c = &calls[k];
                        let item = item_to_json_call(c.id.clone(), c.function.name.clone(), c.function.arguments.clone());
                        let ghost prev = out@;
                        out.push(item);
                        assert(all[start + count + k] == (ProjectedItem::Call {
                            call_id: calls@[k as int].id@,
                            name: calls@[k as int].function.name@,
                            arguments: calls@[k as int].function.arguments@,
                        }));
                        assert forall|x: int| 0 <= x < out@.len() implies #[trigger] item_json(out@[x], all[x]) by {
                            if x < prev.len() {
                                assert(out@[x] == prev[x]);
                            }
                        }
                        k += 1;
                    }
                },
                None => {},
            }
        } else {
            let parts = responses_content_json(m);
            let item = item_to_json_message(m.role.clone(), parts);
            assert(item_json(item, ProjectedItem::Message { role: m.role@, parts: message_parts(*m) }));
            out.push(item);
        }
        assert(out@.len() == all.len());
        assert forall|k: int| 0 <= k < out@.len() implies #[trigger] item_json(out@[k], projected_conversation(messages@.take(i + 1))[k]) by {}
        i += 1;
    }
    assert(messages@.take(messages.len() as int) =~= messages@);
    out
}

/// A JSON value is the chat-completions form of a tool call.
pub open spec fn tool_call_json(j: Json, c: ChatToolCall) -> bool {
    &&& get_str(j, "id"@) == Some(c.id@)
    &&& get_str(j, "type"@) == Some(c.call_type@)
    &&& get_spec(j, "function"@) matches Some(f) && get_str(f, "name"@) == Some(c.function.name@)
        && get_str(f, "arguments"@) == Some(c.function.arguments@)
}

/// A JSON value is the chat-completions form of a content part: a `text` part,
/// or an `image_url` part whose `image_url` holds the `url`.
pub open spec fn chat_part_json(j: Json, p: PartModel) -> bool {
    match p {
        PartModel::Text(t) => get_str(j, "type"@) == Some("text"@) && get_str(j, "text"@) == Some(t),
        PartModel::Image(u) => get_str(j, "type"@) == Some("image_url"@) && (get_spec(j, "image_url"@) matches Some(o)
            && get_str(o, "url"@) == Some(u)),
    }
}

/// The chat-completions content parts of a user message: its text when not
/// blank, then its images.
pub open spec fn chat_parts(m: ChatMessage) -> Seq<PartModel> {
    text_parts(m) + image_parts(m)
}

/// A JSON value is the chat-completions form of a message: its role, its tool
/// calls and the call it answers when it has them, and its content. A user
/// message's content is its parts (see `chat_parts`): an empty text without
/// any, the bare text when it is the only one, else the array of parts; any
/// other message's content is its text.
pub open spec fn chat_json(j: Json, m: ChatMessage) -> bool {
    &&& get_str(j, "role"@) == Some(m.role@)
    &&& match m.tool_calls {
        Some(calls) => get_spec(j, "tool_calls"@) matches Some(Json::Array(items)) && items@.len() == calls@.len()
            && forall|k: int| 0 <= k < calls@.len() ==> #[trigger] tool_call_json(items@[k], calls@[k]),
        None => get_spec(j, "tool_calls"@) is None,
    }
    &&& match m.tool_call_id {
        Some(id) => get_str(j, "tool_call_id"@) == Some(id@),
        None => get_spec(j, "tool_call_id"@) is None,
    }
    &&& if m.role@ == "user"@ {
        let ps = chat_parts(m);
        if ps.len() == 0 {
            get_str(j, "content"@) == Some(Seq::<char>::empty())
        } else if ps.len() == 1 && ps[0] is Text {
            get_str(j, "content"@) == Some(ps[0]->Text_0)
        } else {
            get_spec(j, "content"@) matches Some(Json::Array(items)) && items@.len() == ps.len() && forall|k: int|
                0 <= k < ps.len() ==> #[trigger] chat_part_json(items@[k], ps[k])
        }
    } else {
        get_str(j, "content"@) == Some(content_text(m))
    }
}

/// More facts about member names.
proof fn lemma_chat_member_names()
    ensures
        "role"@ != "tool_calls"@,
        "role"@ != "tool_call_id"@,
        "role"@ != "content"@,
        "tool_calls"@ != "tool_call_id"@,
        "tool_calls"@ != "content"@,
        "tool_call_id"@ != "content"@,
        "id"@ != "type"@,
        "id"@ != "function"@,
        "type"@ != "function"@,
        "name"@ != "arguments"@,
        "type"@ != "text"@,
        "type"@ != "image_url"@,
{
    reveal_strlit("role");
    reveal_strlit("tool_calls");
    reveal_strlit("tool_call_id");
    reveal_strlit("content");
    reveal_strlit("id");
    reveal_strlit("type");
    reveal_strlit("function");
    reveal_strlit("name");
    reveal_strlit("arguments");
    reveal_strlit("text");
    reveal_strlit("image_url");
    assert("role"@.len() == 4 && "tool_calls"@.len() == 10 && "tool_call_id"@.len() == 12);
    assert("content"@.len() == 7 && "id"@.len() == 2 && "type"@.len() == 4 && "function"@.len() == 8);
    assert("name"@.len() == 4 && "arguments"@.len() == 9 && "text"@.len() == 4 && "image_url"@.len() == 9);
    assert("type"@[1] != "text"@[1]);
}

/// The chat-completions form of a tool call.
fn tool_call_to_json(c: &ChatToolCall) -> (r: Json)
    ensures
        tool_call_json(r, *c),
{
    proof {
        lemma_chat_member_names();
    }
    let fkeys = keys2("name", "arguments");
    let mut fvals: Vec<Json> = Vec::new();
    fvals.push(Json::Str(c.function.name.clone()));
    fvals.push(Json::Str(c.function.arguments.clone()));
    let f = object_of(fkeys, fvals);
    assert(get_spec(f, fkeys@[0]@) == Some(fvals@[0]));
    assert(get_spec(f, fkeys@[1]@) == Some(fvals@[1]));
    let keys = keys3("id", "type", "function");
    let mut vals: Vec<Json> = Vec::new();
    vals.push(Json::Str(c.id.clone()));
    vals.push(Json::Str(c.call_type.clone()));
    vals.push(f);
    let r = object_of(keys, vals);
    assert(get_spec(r, keys@[0]@) == Some(vals@[0]));
    assert(get_spec(r, keys@[1]@) == Some(vals@[1]));
    assert(get_spec(r, keys@[2]@) == Some(vals@[2]));
    r
}

/// The chat-completions form of a content part.
fn chat_part_to_json(p: &ContentPart) -> (r: Json)
    ensures
        chat_part_json(r, p@),
{
    proof {
        lemma_chat_member_names();
        reveal_strlit("url");
    }
    match p {
        ContentPart::Text(t) => {
            let keys = keys2("type", "text");
            let mut vals: Vec<Json> = Vec::new();
            vals.push(json_text("text"));
            vals.push(Json::Str(t.clone()));
            let r = object_of(keys, vals);
            assert(get_spec(r, keys@[0]@) == Some(vals@[0]));
            assert(get_spec(r, keys@[1]@) == Some(vals@[1]));
            r
        },
        ContentPart::Image(u) => {
            let mut inner: Vec<(String, Json)> = Vec::new();
            inner.push((owned("url"), Json::Str(u.clone())));
            let o = Json::Object(inner);
            assert(get_str(o, "url"@) == Some(u@));
            let keys = keys2("type", "image_url");
            let mut vals: Vec<Json> = Vec::new();
            vals.push(json_text("image_url"));
            vals.push(o);
            let r = object_of(keys, vals);
            assert(get_spec(r, keys@[0]@) == Some(vals@[0]));
            assert(get_spec(r, keys@[1]@) == Some(vals@[1]));
            r
        },
    }
}

/// The chat-completions content of a message (see `chat_json`).
fn chat_content(m: &ChatMessage) -> (r: Json)
    ensures
        if m.role@ == "user"@ {
            let ps = chat_parts(*m);
            if ps.len() == 0 {
                r matches Json::Str(s) && s@ == Seq::<char>::empty()
            } else if ps.len() == 1 && ps[0] is Text {
                r matches Json::Str(s) && s@ == ps[0]->Text_0
            } else {
                r matches Json::Array(items) && items@.len() == ps.len() && forall|k: int|
                    0 <= k < ps.len() ==> #[trigger] chat_part_json(items@[k], ps[k])
            }
        } else {
            r matches Json::Str(s) && s@ == content_text(*m)
        },
{
    if !eq_str(chars_of(m.role.as_str()).as_slice(), "user") {
        return match &m.content {
            Some(c) => Json::Str(c.clone()),
            None => Json::Str(String::new()),
        };
    }
    let mut parts: Vec<ContentPart> = Vec::new();
    push_text_part(m, &mut parts);
    push_image_parts(m, &mut parts);
    assert(part_views(parts@) == chat_parts(*m));
    if parts.len() == 0 {
        return Json::Str(String::new());
    }
    if parts.len() == 1 {
        if let ContentPart::Text(t) = &parts[0] {
            return Json::Str(t.clone());
        }
    }
    let mut items: Vec<Json> = Vec::new();
    let mut i: usize = 0;
    while i < parts.len()
        invariant
            i <= parts.len(),
            part_views(parts@) == chat_parts(*m),
            items@.len() == i,
            forall|k: int| 0 <= k < i ==> #[trigger] chat_part_json(items@[k], part_views(parts@)[k]),
        decreases parts.len() - i,
    {
        let j = chat_part_to_json(&parts[i]);
        items.push(j);
        i += 1;
    }
    Json::Array(items)
}

/// The chat-completions form of a message (see `chat_json`).
pub fn chat_message_for_chat_completions(message: &ChatMessage) -> (r: Json)
    ensures
        chat_json(r, *message),
{
    proof {
        lemma_chat_member_names();
    }
    let calls_json: Option<Json> = match &message.tool_calls {
        Some(calls) => {
            let mut items: Vec<Json> = Vec::new();
            let mut k: usize = 0;
            while k < calls.len()
                invariant
                    k <= calls.len(),
                    items@.len() == k,
                    forall|x: int| 0 <= x < k ==> #[trigger] tool_call_json(items@[x], calls@[x]),
                decreases calls.len() - k,
            {
                items.push(tool_call_to_json(&calls[k]));
                k += 1;
            }
            Some(Json::Array(items))
        },
        None => None,
    };
    let content = chat_content(message);
    let role = Json::Str(message.role.clone());
    let r = match (calls_json, &message.tool_call_id) {
        (Some(tc), Some(id)) => {
            let keys = keys4("role", "tool_calls", "tool_call_id", "content");
            let mut vals: Vec<Json> = Vec::new();
            vals.push(role);
            vals.push(tc);
            vals.push(Json::Str(id.clone()));
            vals.push(content);
            let r = object_of(keys, vals);
            assert(get_spec(r, keys@[0]@) == Some(vals@[0]));
            assert(get_spec(r, keys@[1]@) == Some(vals@[1]));
            assert(get_spec(r, keys@[2]@) == Some(vals@[2]));
            assert(get_spec(r, keys@[3]@) == Some(vals@[3]));
            r
        },
        (Some(tc), None) => {
            let keys = keys3("role", "tool_calls", "content");
            let mut vals: Vec<Json> = Vec::new();
            vals.push(role);
            vals.push(tc);
            vals.push(content);
            let r = object_of(keys, vals);
            assert(get_spec(r, keys@[0]@) == Some(vals@[0]));
            assert(get_spec(r, keys@[1]@) == Some(vals@[1]));
            assert(get_spec(r, keys@[2]@) == Some(vals@[2]));
            proof {
                lemma_absent_key(r, keys@, "tool_call_id"@);
            }
            r
        },
        (None, Some(id)) => {
            let keys = keys3("role", "tool_call_id", "content");
            let mut vals: Vec<Json> = Vec::new();
            vals.push(role);
            vals.push(Json::Str(id.clone()));
            vals.push(content);
            let r = object_of(keys, vals);
            assert(get_spec(r, keys@[0]@) == Some(vals@[0]));
            assert(get_spec(r, keys@[1]@) == Some(vals@[1]));
            assert(get_spec(r, keys@[2]@) == Some(vals@[2]));
            proof {
                lemma_absent_key(r, keys@, "tool_calls"@);
            }
            r
        },
        (None, None) => {
            let keys = keys2("role", "content");
            let mut vals: Vec<Json> = Vec::new();
            vals.push(role);
            vals.push(content);
            let r = object_of(keys, vals);
            assert(get_spec(r, keys@[0]@) == Some(vals@[0]));
            assert(get_spec(r, keys@[1]@) == Some(vals@[1]));
            proof {
                lemma_absent_key(r, keys@, "tool_calls"@);
                lemma_absent_key(r, keys@, "tool_call_id"@);
            }
            r
        },
    };
    r
}

/// A conversation as chat-completions messages (see `chat_json`).
pub fn to_chat_completions_messages(messages: &[ChatMessage]) -> (r: Vec<Json>)
    ensures
        r@.len() == messages@.len(),
        forall|k: int| 0 <= k < r@.len() ==> #[trigger] chat_json(r@[k], messages@[k]),
{
    let mut out: Vec<Json> = Vec::new();
    let mut i: usize = 0;
    while i < messages.len()
        invariant
            i <= messages.len(),
            out@.len() == i,
            forall|k: int| 0 <= k < i ==> #[trigger] chat_json(out@[k], messages@[k]),
        decreases messages.len() - i,
    {
        out.push(chat_message_for_chat_completions(&messages[i]));
        i += 1;
    }
    out
}

} // verus!
