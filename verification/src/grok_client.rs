//! The model client's decisions: which API a provider speaks, the model and
//! settings of a request, what a request carries, and how the server-sent
//! event streams are cut into events. The HTTP traffic is the caller's part.
use vstd::prelude::*;

use crate::agent_policy::SearchMode;
use crate::image_input::{opt_string, strip_trail, strip_trail_exec};
use crate::protocol::{owned, ChatCompletionResponse, ChatTool};
use crate::provider::{detect_provider, provider_of, ProviderKind};
use crate::responses_adapter::{server_side_search_tools, supports_server_side_tools, Json};
use crate::text::{
    ascii_lower, chars_of, contains, decimal, eq_str, push_decimal, push_str, index_of_char_from, opt_text, push_chars,
    slice_chars, starts_with, starts_with_str, string_from_chars, trim, trim_chars,
};

verus! {

/// A base URL without trailing slashes.
pub fn normalize_base_url(base_url: &str) -> (r: String)
    ensures
        r@ == strip_trail(base_url@, seq!['/']),
{
    let cs = chars_of(base_url);
    let mut slash: Vec<char> = Vec::new();
    slash.push('/');
    assert(slash@ =~= seq!['/']);
    let t = strip_trail_exec(cs.as_slice(), slash.as_slice());
    string_from_chars(t.as_slice())
}

/// Whether a provider is reached through the Responses API: xAI is, others
/// speak chat completions.
pub fn uses_responses_api(base_url: &str) -> (r: bool)
    ensures
        r == (provider_of(base_url@) == ProviderKind::Xai),
{
    detect_provider(base_url) == ProviderKind::Xai
}

/// The value of a run of ASCII digits.
pub open spec fn digits_value(s: Seq<char>) -> nat
    decreases s.len(),
{
    if s.len() == 0 {
        0
    } else {
        digits_value(s.drop_last()) * 10 + ((s.last() as u32) - 48) as nat
    }
}

/// All characters are ASCII digits.
pub open spec fn all_ascii_digits(s: Seq<char>) -> bool {
    forall|i: int| 0 <= i < s.len() ==> '0' <= #[trigger] s[i] && s[i] <= '9'
}

/// A decimal number no larger than `max`, as `str::parse` reads an unsigned
/// integer: an optional `+`, then at least one digit.
pub open spec fn parse_decimal_spec(s: Seq<char>, max: nat) -> Option<nat> {
    let body = if s.len() > 0 && s[0] == '+' {
        s.drop_first()
    } else {
        s
    };
    if body.len() > 0 && all_ascii_digits(body) && digits_value(body) <= max {
        Some(digits_value(body))
    } else {
        None
    }
}

/// A decimal `u32` as `str::parse::<u32>` reads it.
pub open spec fn parse_u32_spec(s: Seq<char>) -> Option<u32> {
    match parse_decimal_spec(s, u32::MAX as nat) {
        Some(v) => Some(v as u32),
        None => None,
    }
}

/// Reads an unsigned decimal number no larger than `max` (see `parse_decimal_spec`).
pub fn parse_decimal(s: &str, max: u64) -> (r: Option<u64>)
    ensures
        match parse_decimal_spec(s@, max as nat) {
            Some(v) => r == Some(v as u64),
            None => r is None,
        },
{
    let cs = chars_of(s);
    let start: usize = if cs.len() > 0 && cs[0] == '+' {
        1
    } else {
        0
    };
    let ghost body = if s@.len() > 0 && s@[0] == '+' {
        s@.drop_first()
    } else {
        s@
    };
    assert(body =~= cs@.skip(start as int));
    if cs.len() == start {
        return None;
    }
    let mut acc: u64 = 0;
    let mut i: usize = start;
    while i < cs.len()
        invariant
            start <= i <= cs.len(),
            cs@ == s@,
            body == (if s@.len() > 0 && s@[0] == '+' {
                s@.drop_first()
            } else {
                s@
            }),
            body == cs@.skip(start as int),
            all_ascii_digits(cs@.subrange(start as int, i as int)),
            acc as nat == digits_value(cs@.subrange(start as int, i as int)),
            acc <= max,
        decreases cs.len() - i,
    {
        let c = cs[i];
        let ghost prefix = cs@.subrange(start as int, i as int);
        let ghost next = cs@.subrange(start as int, i + 1);
        assert(next.drop_last() =~= prefix);
        assert(next.last() == c);
        if !('0' <= c && c <= '9') {
            assert(body[i - start] == c);
            return None;
        }
        let d = (c as u32 - 48) as u64;
        if d > max || acc > (max - d) / 10 {
            proof {
                if d <= max {
                    assert(acc * 10 + d > max) by (nonlinear_arith)
                        requires
                            acc > (max - d) / 10,
                            d <= max,
                    ;
                }
                lemma_digits_value_grows(body, (i + 1 - start) as nat);
                assert(body.take(i + 1 - start) =~= next);
            }
            return None;
        }
        proof {
            assert(acc * 10 + d <= max) by (nonlinear_arith)
                requires
                    acc <= (max - d) / 10,
                    d <= max,
            ;
        }
        acc = acc * 10 + d;
        i += 1;
    }
    assert(cs@.subrange(start as int, cs.len() as int) =~= body);
    Some(acc)
}

/// Reads a decimal `u32` (see `parse_u32_spec`).
pub fn parse_u32(s: &str) -> (r: Option<u32>)
    ensures
        r == parse_u32_spec(s@),
{
    match parse_decimal(s, 4294967295) {
        Some(v) => Some(v as u32),
        None => None,
    }
}

/// The value of the digits never shrinks as more digits follow.
proof fn lemma_digits_value_grows(s: Seq<char>, k: nat)
    requires
        k <= s.len(),
    ensures
        digits_value(s.take(k as int)) <= digits_value(s),
    decreases s.len() - k,
{
    if k < s.len() {
        lemma_digits_value_grows(s, k + 1);
        assert(s.take(k + 1 as int).drop_last() =~= s.take(k as int));
    } else {
        assert(s.take(k as int) =~= s);
    }
}

/// The largest completion asked for unless `GROK_MAX_TOKENS` says otherwise.
pub const DEFAULT_MAX_TOKENS: u32 = 1536;

/// The completion size: `GROK_MAX_TOKENS` when it reads as a positive number,
/// else 1536.
pub fn max_tokens_from_env(raw: Option<&str>) -> (r: u32)
    ensures
        r == (match opt_text(raw) {
            Some(t) => match parse_u32_spec(t) {
                Some(v) => if v > 0 {
                    v
                } else {
                    DEFAULT_MAX_TOKENS
                },
                None => DEFAULT_MAX_TOKENS,
            },
            None => DEFAULT_MAX_TOKENS,
        }),
{
    match raw {
        Some(t) => match parse_u32(t) {
            Some(v) => if v > 0 {
                v
            } else {
                DEFAULT_MAX_TOKENS
            },
            None => DEFAULT_MAX_TOKENS,
        },
        None => DEFAULT_MAX_TOKENS,
    }
}

/// The model a Responses request goes to: the current one unless search is on
/// and the current model has no server-side search, in which case
/// `GROK_SEARCH_MODEL` (trimmed, when not blank) or `grok-4-latest`.
pub open spec fn responses_model_spec(current: Seq<char>, mode: SearchMode, env_model: Option<Seq<char>>) -> Seq<char> {
    if mode != SearchMode::Auto || contains(ascii_lower(current), "grok-4"@) {
        current
    } else {
        match env_model {
            Some(e) => if trim(e).len() > 0 {
                trim(e)
            } else {
                "grok-4-latest"@
            },
            None => "grok-4-latest"@,
        }
    }
}

/// The model a Responses request goes to (see `responses_model_spec`).
pub fn responses_model_for(current_model: &str, search_mode: SearchMode, env_search_model: Option<&str>) -> (r: String)
    ensures
        r@ == responses_model_spec(current_model@, search_mode, opt_text(env_search_model)),
{
    if search_mode != SearchMode::Auto {
        return owned(current_model);
    }
    if supports_server_side_tools(current_model) {
        return owned(current_model);
    }
    match env_search_model {
        Some(e) => {
            let t = trim_chars(chars_of(e).as_slice());
            if t.len() > 0 {
                string_from_chars(t.as_slice())
            } else {
                owned("grok-4-latest")
            }
        },
        None => owned("grok-4-latest"),
    }
}

/// The text of a plain completion: the first choice's content, trimmed, or
/// empty.
pub fn plain_completion_text(response: &ChatCompletionResponse) -> (r: String)
    ensures
        r@ == (if response.choices@.len() > 0 {
            match response.choices@[0].message.content {
                Some(c) => trim(c@),
                None => trim(Seq::empty()),
            }
        } else {
            trim(Seq::empty())
        }),
{
    let content = if response.choices.len() > 0 {
        match &response.choices[0].message.content {
            Some(c) => c.clone(),
            None => String::new(),
        }
    } else {
        String::new()
    };
    let t = trim_chars(chars_of(content.as_str()).as_slice());
    string_from_chars(t.as_slice())
}

/// What a chat-completions request carries, but for its fixed temperature of
/// 0.7: the model, the messages, the tools (with `auto` tool choice when there
/// are any), the size, whether it streams, and the live-search mode for xAI.
pub struct ChatCompletionsPayload {
    pub model: String,
    pub messages: Vec<Json>,
    pub tools: Vec<ChatTool>,
    pub tool_choice: Option<String>,
    pub max_tokens: u32,
    pub stream: bool,
    pub search_parameters: Option<SearchMode>,
}

impl ChatCompletionsPayload {
    /// Assembles a chat-completions request.
    pub fn new(
        model: String,
        messages: Vec<Json>,
        tools: Vec<ChatTool>,
        stream: bool,
        max_tokens: u32,
        search_mode: SearchMode,
        include_search_parameters: bool,
    ) -> (r: ChatCompletionsPayload)
        ensures
            r.model == model,
            r.messages == messages,
            r.tools == tools,
            r.stream == stream,
            r.max_tokens == max_tokens,
            opt_string(r.tool_choice) == (if tools@.len() == 0 {
                None
            } else {
                Some("auto"@)
            }),
            r.search_parameters == (if include_search_parameters {
                Some(search_mode)
            } else {
                None
            }),
    {
        let tool_choice = if tools.len() == 0 {
            None
        } else {
            Some(owned("auto"))
        };
        ChatCompletionsPayload {
            model,
            messages,
            tools,
            tool_choice,
            max_tokens,
            stream,
            search_parameters: if include_search_parameters {
                Some(search_mode)
            } else {
                None
            },
        }
    }
}

/// What a Responses request carries, but for its fixed temperature of 0.7:
/// the model, the input, the tools (the server-side search tools added when
/// search is on and the model has them; `auto` tool choice when there are any),
/// the size and whether it streams. It never carries the legacy search settings.
pub struct ResponsesPayload {
    pub model: String,
    pub input: Vec<Json>,
    pub tools: Vec<Json>,
    pub tool_choice: Option<String>,
    pub max_output_tokens: u32,
    pub stream: bool,
}

impl ResponsesPayload {
    /// Assembles a Responses request.
    pub fn new(
        model: String,
        input: Vec<Json>,
        tools: Vec<Json>,
        stream: bool,
        max_tokens: u32,
        search_mode: SearchMode,
    ) -> (r: ResponsesPayload)
        ensures
            r.model == model,
            r.input == input,
            r.stream == stream,
            r.max_output_tokens == max_tokens,
            (search_mode == SearchMode::Auto && contains(ascii_lower(model@), "grok-4"@)) ==> r.tools@.len()
                == tools@.len() + 2 && r.tools@.take(tools@.len() as int) == tools@,
            !(search_mode == SearchMode::Auto && contains(ascii_lower(model@), "grok-4"@)) ==> r.tools
                == tools,
            opt_string(r.tool_choice) == (if r.tools@.len() == 0 {
                None
            } else {
                Some("auto"@)
            }),
    {
        let mut tools = tools;
        if search_mode == SearchMode::Auto && supports_server_side_tools(model.as_str()) {
            let ghost before = tools@;
            let mut extra = server_side_search_tools();
            let b = extra.remove(1);
            let a = extra.remove(0);
            tools.push(a);
            tools.push(b);
            assert(tools@.take(before.len() as int) =~= before);
        }
        let tool_choice = if tools.len() == 0 {
            None
        } else {
            Some(owned("auto"))
        };
        ResponsesPayload { model, input, tools, tool_choice, max_output_tokens: max_tokens, stream }
    }
}

/// What a line of a chat-completions stream says.
#[derive(Debug)]
pub enum ChatStreamLine {
    /// The data of a `data: ` line (to be read as a chunk).
    Data(String),
    /// `data: [DONE]`: the stream is over.
    Done,
}

/// Reads one line of a chat-completions stream: blank lines and lines without
/// `data: ` say nothing; `data: [DONE]` ends the stream; any other data is a chunk.
pub fn classify_chat_stream_line(raw_line: &str) -> (r: Option<ChatStreamLine>)
    ensures
        ({
            let line = trim(raw_line@);
            if !starts_with(line, "data: "@) {
                r is None
            } else if line.skip(6) == "[DONE]"@ {
                r matches Some(ChatStreamLine::Done)
            } else {
                r matches Some(ChatStreamLine::Data(d)) && d@ == line.skip(6)
            }
        }),
{
    let line = trim_chars(chars_of(raw_line).as_slice());
    if !starts_with_str(line.as_slice(), "data: ") {
        return None;
    }
    proof {
        reveal_strlit("data: ");
    }
    let data = slice_chars(line.as_slice(), 6, line.len());
    assert(data@ =~= line@.skip(6));
    if eq_str(data.as_slice(), "[DONE]") {
        return Some(ChatStreamLine::Done);
    }
    Some(ChatStreamLine::Data(string_from_chars(data.as_slice())))
}

/// A stream cut into lines: text is gathered until a line break and each
/// complete line handed out.
pub struct LineBuffer {
    pending: Vec<char>,
}

impl LineBuffer {
    /// An empty buffer.
    pub fn new() -> (r: LineBuffer)
        ensures
            r.held().len() == 0,
    {
        LineBuffer { pending: Vec::new() }
    }

    /// The text held that no line break has ended yet.
    pub closed spec fn held(&self) -> Seq<char> {
        self.pending@
    }

    /// Adds text and hands out the lines it completes, without their line
    /// breaks; what follows the last break is kept.
    pub fn push_text(&mut self, text: &str) -> (lines: Vec<String>)
        ensures
            old(self).held() + text@ == with_breaks(crate::order::texts(lines@)) + final(self).held(),
            !final(self).held().contains('\n'),
            forall|k: int| 0 <= k < lines@.len() ==> !(#[trigger] lines@[k]@).contains('\n'),
    {
        push_chars(&mut self.pending, chars_of(text).as_slice());
        let ghost all = self.pending@;
        let mut lines: Vec<String> = Vec::new();
        let mut pos: usize = 0;
        let n = self.pending.len();
        assert(all.skip(0) =~= all);
        assert(with_breaks(crate::order::texts(lines@)) + all =~= all);
        loop
            invariant
                n == self.pending.len(),
                all == self.pending@,
                pos <= n,
                all == with_breaks(crate::order::texts(lines@)) + all.skip(pos as int),
                forall|k: int| 0 <= k < lines@.len() ==> !(#[trigger] lines@[k]@).contains('\n'),
            ensures
                pos <= n,
                all == with_breaks(crate::order::texts(lines@)) + all.skip(pos as int),
                forall|k: int| 0 <= k < lines@.len() ==> !(#[trigger] lines@[k]@).contains('\n'),
                forall|t: int| pos <= t < n ==> all[t] != '\n',
            decreases n - pos,
        {
            let j = index_of_char_from(self.pending.as_slice(), pos, '\n');
            let ghost rest = all.skip(pos as int);
            proof {
                crate::text::lemma_index_of_any(rest, seq!['\n']);
                assert(seq!['\n'][0] == '\n');
                assert forall|t: int| 0 <= t < j - pos implies rest[t] != '\n' by {
                    if rest[t] == '\n' {
                        assert(seq!['\n'].contains(rest[t]));
                    }
                }
            }
            if j == n {
                assert forall|t: int| pos <= t < n implies all[t] != '\n' by {
                    assert(all[t] == rest[t - pos]);
                }
                break;
            }
            let line = slice_chars(self.pending.as_slice(), pos, j);
            let ghost before = crate::order::texts(lines@);
            lines.push(string_from_chars(line.as_slice()));
            proof {
                let i = j - pos;
                assert(rest[i] == '\n') by {
                    assert(seq!['\n'].contains(rest[i]));
                }
                assert(line@ =~= rest.take(i));
                assert(!line@.contains('\n')) by {
                    if line@.contains('\n') {
                        let t = choose|t: int| 0 <= t < line@.len() && line@[t] == '\n';
                        assert(rest[t] == '\n');
                    }
                }
                assert(crate::order::texts(lines@) =~= before.push(line@));
                assert(crate::order::texts(lines@).drop_last() =~= before);
                assert(crate::order::texts(lines@).last() == line@);
                assert(with_breaks(crate::order::texts(lines@)) == with_breaks(before) + line@ + seq!['\n']);
                assert(rest =~= line@ + seq!['\n'] + all.skip(j + 1));
                assert(all =~= with_breaks(crate::order::texts(lines@)) + all.skip(j + 1));
            }
            pos = j + 1;
        }
        let ghost rest = all.skip(pos as int);
        let tail = slice_chars(self.pending.as_slice(), pos, n);
        assert(tail@ =~= rest);
        assert(!rest.contains('\n')) by {
            if rest.contains('\n') {
                let t = choose|t: int| 0 <= t < rest.len() && rest[t] == '\n';
                assert(all[pos + t] == '\n');
            }
        }
        self.pending = tail;
        lines
    }
}

/// Lines each followed by a line break, one after the other.
pub open spec fn with_breaks(lines: Seq<Seq<char>>) -> Seq<char>
    decreases lines.len(),
{
    if lines.len() == 0 {
        Seq::empty()
    } else {
        with_breaks(lines.drop_last()) + lines.last() + seq!['\n']
    }
}

/// A server event of a Responses stream: its name, if it had one, and its data.
pub struct SseEvent {
    pub event: Option<String>,
    pub data: String,
}

/// Gathers the lines of a Responses stream into events: `event:` names the
/// event, `data:` lines add to its data (joined by line breaks), and a blank
/// line ends it.
pub struct SseAssembler {
    pub current_event: Option<String>,
    pub current_data: String,
}

impl SseAssembler {
    /// An assembler with no event begun.
    pub fn new() -> (r: SseAssembler)
        ensures
            r.current_event is None,
            r.current_data@.len() == 0,
    {
        SseAssembler { current_event: None, current_data: String::new() }
    }

    /// Takes one line (its `\r` and surrounding white space dropped): a blank
    /// line ends the event, which is handed out when it has data, and starts a
    /// new one; `event:` sets the name; `data:` adds its trimmed text to the
    /// data, after a line break when there is data already; other lines are
    /// ignored.
    pub fn push_line(&mut self, raw_line: &str) -> (r: Option<SseEvent>)
        ensures
            ({
                let line = trim(strip_trail(raw_line@, seq!['\r']));
                if line.len() == 0 {
                    &&& final(self).current_event is None
                    &&& final(self).current_data@.len() == 0
                    &&& if old(self).current_data@.len() > 0 {
                        r matches Some(e) && opt_string(e.event) == opt_string(old(self).current_event)
                            && e.data@ == old(self).current_data@
                    } else {
                        r is None
                    }
                } else if starts_with(line, "event:"@) {
                    r is None && opt_string(final(self).current_event) == Some(trim(line.skip(6)))
                        && final(self).current_data@ == old(self).current_data@
                } else if starts_with(line, "data:"@) {
                    r is None && opt_string(final(self).current_event) == opt_string(old(self).current_event)
                        && final(self).current_data@ == (if old(self).current_data@.len() > 0 {
                        old(self).current_data@ + seq!['\n'] + trim(line.skip(5))
                    } else {
                        trim(line.skip(5))
                    })
                } else {
                    r is None && opt_string(final(self).current_event) == opt_string(old(self).current_event)
                        && final(self).current_data@ == old(self).current_data@
                }
            }),
    {
        let cs = chars_of(raw_line);
        let mut cr: Vec<char> = Vec::new();
        cr.push('\r');
        assert(cr@ =~= seq!['\r']);
        let stripped = strip_trail_exec(cs.as_slice(), cr.as_slice());
        let line = trim_chars(stripped.as_slice());
        if line.len() == 0 {
            let event = self.current_event.take();
            let mut data = String::new();
            std::mem::swap(&mut data, &mut self.current_data);
            if data.as_str().is_empty() {
                return None;
            }
            return Some(SseEvent { event, data });
        }
        proof {
            reveal_strlit("event:");
            reveal_strlit("data:");
        }
        if starts_with_str(line.as_slice(), "event:") {
            let rest = slice_chars(line.as_slice(), 6, line.len());
            assert(rest@ =~= line@.skip(6));
            let name = trim_chars(rest.as_slice());
            self.current_event = Some(string_from_chars(name.as_slice()));
            return None;
        }
        if starts_with_str(line.as_slice(), "data:") {
            let rest = slice_chars(line.as_slice(), 5, line.len());
            assert(rest@ =~= line@.skip(5));
            let data = trim_chars(rest.as_slice());
            let mut all = chars_of(self.current_data.as_str());
            if all.len() > 0 {
                all.push('\n');
            }
            push_chars(&mut all, data.as_slice());
            self.current_data = string_from_chars(all.as_slice());
            return None;
        }
        None
    }

    /// The event left when the stream ends, if it has data.
    pub fn finish(&mut self) -> (r: Option<SseEvent>)
        ensures
            if old(self).current_data@.len() > 0 {
                r matches Some(e) && opt_string(e.event) == opt_string(old(self).current_event) && e.data@
                    == old(self).current_data@
            } else {
                r is None
            },
    {
        let event = self.current_event.take();
        let mut data = String::new();
            std::mem::swap(&mut data, &mut self.current_data);
        if data.as_str().is_empty() {
            return None;
        }
        Some(SseEvent { event, data })
    }
}


/// The reason phrase that the HTTP library gives a status code, if it has one.
pub uninterp spec fn status_reason(code: u16) -> Option<Seq<char>>;

/// `reqwest::StatusCode::canonical_reason` of a status code: the library knows
/// no status code outside 100..=999, so there is none for those; for the others
/// the phrase is whatever its table holds, named by `status_reason`.
#[verifier::external_body]
fn canonical_reason(code: u16) -> (r: Option<String>)
    ensures
        opt_string(r) == status_reason(code),
        (code < 100 || code > 999) ==> r is None,
{
    match reqwest::StatusCode::from_u16(code) {
        Ok(status) => match status.canonical_reason() {
            Some(phrase) => Some(phrase.to_string()),
            None => None,
        },
        Err(_) => None,
    }
}

/// How an HTTP status shows in an error: its number and its reason phrase.
pub open spec fn status_text(code: u16) -> Seq<char> {
    decimal(code as nat) + " "@ + match status_reason(code) {
        Some(phrase) => phrase,
        None => "<unknown status code>"@,
    }
}

/// A reply is accepted only with status 200; any other status is an error that
/// names the status and carries the reply's body.
pub fn validate_status(status: u16, body: &str) -> (r: Result<(), String>)
    ensures
        r is Ok <==> status == 200,
        r matches Err(e) ==> e@ == "API returned "@ + status_text(status) + ": "@ + body@,
{
    if status == 200 {
        return Ok(());
    }
    let mut out = chars_of("API returned ");
    push_decimal(&mut out, status as usize);
    push_str(&mut out, " ");
    match canonical_reason(status) {
        Some(phrase) => push_str(&mut out, phrase.as_str()),
        None => push_str(&mut out, "<unknown status code>"),
    }
    push_str(&mut out, ": ");
    push_str(&mut out, body);
    Err(string_from_chars(out.as_slice()))
}

} // verus!
