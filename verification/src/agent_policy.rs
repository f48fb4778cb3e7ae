//! Prompt construction, the live-search decision and token estimates.
use vstd::prelude::*;

use crate::protocol::{ChatImageAttachment, ChatMessage, ChatToolCall};
use crate::text::{
    chars_of, contains, contains_str, lowercase, push_chars, push_str, string_from_chars, to_lowercase,
};

verus! {

/// Whether the provider's live search is asked for.
#[derive(Debug, Clone, Copy, PartialEq, Eq, Structural)]
pub enum SearchMode {
    Auto,
    Off,
}

impl SearchMode {
    /// The wire name of the mode.
    pub fn as_str(self) -> (r: &'static str)
        ensures
            r@ == (match self {
                SearchMode::Auto => "auto"@,
                SearchMode::Off => "off"@,
            }),
    {
        match self {
            SearchMode::Auto => "auto",
            SearchMode::Off => "off",
        }
    }
}

/// The words that suggest the user wants fresh information from the web.
pub open spec fn mentions_recency(lowered: Seq<char>) -> bool {
    ||| contains(lowered, "today"@)
    ||| contains(lowered, "latest"@)
    ||| contains(lowered, "news"@)
    ||| contains(lowered, "trending"@)
    ||| contains(lowered, "current"@)
    ||| contains(lowered, "recent"@)
    ||| contains(lowered, "price"@)
    ||| contains(lowered, "release notes"@)
    ||| contains(lowered, "changelog"@)
}

/// Whether a user message asks for live search: its lower case mentions recency.
pub fn should_use_search_for(message: &str) -> (r: bool)
    ensures
        r == mentions_recency(lowercase(message@)),
{
    let lowered_s = to_lowercase(message);
    let lowered = chars_of(lowered_s.as_str());
    contains_str(lowered.as_slice(), "today") || contains_str(lowered.as_slice(), "latest")
        || contains_str(lowered.as_slice(), "news") || contains_str(lowered.as_slice(), "trending")
        || contains_str(lowered.as_slice(), "current") || contains_str(lowered.as_slice(), "recent")
        || contains_str(lowered.as_slice(), "price") || contains_str(
        lowered.as_slice(),
        "release notes",
    ) || contains_str(lowered.as_slice(), "changelog")
}

/// The search mode for a user message.
pub fn search_mode_for(message: &str) -> (r: SearchMode)
    ensures
        r == (if mentions_recency(lowercase(message@)) {
            SearchMode::Auto
        } else {
            SearchMode::Off
        }),
{
    if should_use_search_for(message) {
        SearchMode::Auto
    } else {
        SearchMode::Off
    }
}

/// Tokens estimated for `n` characters: a quarter, rounded up.
pub open spec fn chars_tokens(n: nat) -> nat {
    if n == 0 {
        0
    } else {
        ((n - 1) / 4 + 1) as nat
    }
}

/// Estimated tokens for a character count.
pub fn estimate_chars_tokens(char_count: usize) -> (r: usize)
    ensures
        r == chars_tokens(char_count as nat),
        r * 4 >= char_count,
        char_count > 0 ==> (r - 1) * 4 < char_count,
{
    if char_count == 0 {
        0
    } else {
        (char_count - 1) / 4 + 1
    }
}

/// Estimated tokens for a text.
pub fn estimate_text_tokens(text: &str) -> (r: usize)
    ensures
        r == chars_tokens(text@.len()),
{
    estimate_chars_tokens(text.unicode_len())
}

/// Characters counted for one image: name and type, plus a flat 512 for the image itself.
pub open spec fn attachment_chars(a: ChatImageAttachment) -> nat {
    a.filename@.len() + a.mime_type@.len() + 512
}

/// Characters counted for the images of a message.
pub open spec fn attachments_chars(s: Seq<ChatImageAttachment>) -> nat
    decreases s.len(),
{
    if s.len() == 0 {
        0
    } else {
        attachments_chars(s.drop_last()) + attachment_chars(s.last())
    }
}

/// Characters counted for one tool call: id, function name and arguments.
pub open spec fn call_chars(c: ChatToolCall) -> nat {
    c.id@.len() + c.function.name@.len() + c.function.arguments@.len()
}

/// Characters counted for the tool calls of a message.
pub open spec fn calls_chars(s: Seq<ChatToolCall>) -> nat
    decreases s.len(),
{
    if s.len() == 0 {
        0
    } else {
        calls_chars(s.drop_last()) + call_chars(s.last())
    }
}

/// Characters counted for one message.
pub open spec fn message_chars(m: ChatMessage) -> nat {
    m.role@.len() + (match m.content {
        Some(c) => c@.len(),
        None => 0,
    }) + (match m.attachments {
        Some(a) => attachments_chars(a@),
        None => 0,
    }) + (match m.tool_call_id {
        Some(t) => t@.len(),
        None => 0,
    }) + (match m.tool_calls {
        Some(c) => calls_chars(c@),
        None => 0,
    })
}

/// Characters counted for a conversation.
pub open spec fn messages_chars(s: Seq<ChatMessage>) -> nat
    decreases s.len(),
{
    if s.len() == 0 {
        0
    } else {
        messages_chars(s.drop_last()) + message_chars(s.last())
    }
}

proof fn lemma_messages_chars_prefix(s: Seq<ChatMessage>, i: int)
    requires
        0 <= i <= s.len(),
    ensures
        messages_chars(s.take(i)) <= messages_chars(s),
    decreases s.len() - i,
{
    if i < s.len() {
        lemma_messages_chars_prefix(s, i + 1);
        assert(s.take(i + 1).drop_last() == s.take(i));
    } else {
        assert(s.take(i) == s);
    }
}

fn attachments_char_count(a: &Vec<ChatImageAttachment>, bound: usize) -> (r: usize)
    requires
        attachments_chars(a@) <= bound,
    ensures
        r == attachments_chars(a@),
{
    let mut total: usize = 0;
    let mut i: usize = 0;
    while i < a.len()
        invariant
            i <= a.len(),
            attachments_chars(a@) <= bound,
            total == attachments_chars(a@.take(i as int)),
        decreases a.len() - i,
    {
        proof {
            lemma_attachments_prefix(a@, i + 1);
            assert(a@.take(i + 1).drop_last() == a@.take(i as int));
        }
        let x = &a[i];
        total = total + x.filename.unicode_len() + x.mime_type.unicode_len() + 512;
        i += 1;
    }
    assert(a@.take(a.len() as int) == a@);
    total
}

proof fn lemma_attachments_prefix(s: Seq<ChatImageAttachment>, i: int)
    requires
        0 <= i <= s.len(),
    ensures
        attachments_chars(s.take(i)) <= attachments_chars(s),
    decreases s.len() - i,
{
    if i < s.len() {
        lemma_attachments_prefix(s, i + 1);
        assert(s.take(i + 1).drop_last() == s.take(i));
    } else {
        assert(s.take(i) == s);
    }
}

proof fn lemma_calls_prefix(s: Seq<ChatToolCall>, i: int)
    requires
        0 <= i <= s.len(),
    ensures
        calls_chars(s.take(i)) <= calls_chars(s),
    decreases s.len() - i,
{
    if i < s.len() {
        lemma_calls_prefix(s, i + 1);
        assert(s.take(i + 1).drop_last() == s.take(i));
    } else {
        assert(s.take(i) == s);
    }
}

fn calls_char_count(c: &Vec<ChatToolCall>, bound: usize) -> (r: usize)
    requires
        calls_chars(c@) <= bound,
    ensures
        r == calls_chars(c@),
{
    let mut total: usize = 0;
    let mut i: usize = 0;
    while i < c.len()
        invariant
            i <= c.len(),
            calls_chars(c@) <= bound,
            total == calls_chars(c@.take(i as int)),
        decreases c.len() - i,
    {
        proof {
            lemma_calls_prefix(c@, i + 1);
            assert(c@.take(i + 1).drop_last() == c@.take(i as int));
        }
        let x = &c[i];
        total = total + x.id.unicode_len() + x.function.name.unicode_len()
            + x.function.arguments.unicode_len();
        i += 1;
    }
    assert(c@.take(c.len() as int) == c@);
    total
}

/// Estimated tokens of a conversation, counting text characters and a flat
/// allowance for each image.
pub fn estimate_messages_tokens(messages: &[ChatMessage]) -> (r: usize)
    requires
        messages_chars(messages@) <= usize::MAX,
    ensures
        r == chars_tokens(messages_chars(messages@)),
{
    let mut chars: usize = 0;
    let mut i: usize = 0;
    while i < messages.len()
        invariant
            i <= messages.len(),
            messages_chars(messages@) <= usize::MAX,
            chars == messages_chars(messages@.take(i as int)),
        decreases messages.len() - i,
    {
        proof {
            lemma_messages_chars_prefix(messages@, i + 1);
            assert(messages@.take(i + 1).drop_last() == messages@.take(i as int));
        }
        let m = &messages[i];
        let bound: usize = (usize::MAX - chars) as usize;
        chars = chars + m.role.unicode_len();
        match &m.content {
            Some(c) => {
                chars = chars + c.unicode_len();
            },
            None => {},
        }
        match &m.attachments {
            Some(a) => {
                let n = attachments_char_count(a, bound);
                chars = chars + n;
            },
            None => {},
        }
        match &m.tool_call_id {
            Some(t) => {
                chars = chars + t.unicode_len();
            },
            None => {},
        }
        match &m.tool_calls {
            Some(c) => {
                let n = calls_char_count(c, bound);
                chars = chars + n;
            },
            None => {},
        }
        i += 1;
    }
    assert(messages@.take(messages.len() as int) == messages@);
    estimate_chars_tokens(chars)
}

/// The fixed part of the system prompt before the custom instructions.
pub open spec fn prompt_head() -> Seq<char> {
    "You are Grok CLI, an AI coding assistant in a terminal environment."@
}

/// The section that quotes the user's custom instructions.
pub open spec fn custom_section(custom: Option<Seq<char>>) -> Seq<char> {
    match custom {
        Some(c) => "\n\nCUSTOM INSTRUCTIONS:\n"@ + c
            + "\n\nFollow the custom instructions above while respecting the tool safety constraints below.\n"@,
        None => Seq::empty(),
    }
}

/// The fixed tool and behaviour guide of the system prompt.
pub open spec fn prompt_tools() -> Seq<char> {
    "\nYou can use these tools:\n- view_file: Read file contents or list directories.\n- create_file: Create a new file.\n- str_replace_editor: Replace text in an existing file.\n- bash: Run shell commands.\n- search: Find text and files.\n- create_todo_list: Create a todo checklist.\n- update_todo_list: Update todo checklist items.\n\nImportant behavior:\n- Use view_file before editing when practical.\n- Use str_replace_editor for existing files instead of create_file.\n- Keep responses concise and directly tied to the task.\n- Use bash for file discovery and command execution when useful.\n- Use search for broad text or file discovery across the workspace.\n\nCurrent working directory: "@
}

/// The system prompt: head, custom instructions if any, tool guide, working directory.
pub fn build_system_prompt(custom_instructions: Option<&str>, cwd_display: &str) -> (r: String)
    ensures
        r@ == prompt_head() + custom_section(
            match custom_instructions {
                Some(c) => Some(c@),
                None => None,
            },
        ) + prompt_tools() + cwd_display@,
{
    let mut out = chars_of("You are Grok CLI, an AI coding assistant in a terminal environment.");
    match custom_instructions {
        Some(c) => {
            push_str(&mut out, "\n\nCUSTOM INSTRUCTIONS:\n");
            push_str(&mut out, c);
            push_str(
                &mut out,
                "\n\nFollow the custom instructions above while respecting the tool safety constraints below.\n",
            );
        },
        None => {},
    }
    push_str(
        &mut out,
        "\nYou can use these tools:\n- view_file: Read file contents or list directories.\n- create_file: Create a new file.\n- str_replace_editor: Replace text in an existing file.\n- bash: Run shell commands.\n- search: Find text and files.\n- create_todo_list: Create a todo checklist.\n- update_todo_list: Update todo checklist items.\n\nImportant behavior:\n- Use view_file before editing when practical.\n- Use str_replace_editor for existing files instead of create_file.\n- Keep responses concise and directly tied to the task.\n- Use bash for file discovery and command execution when useful.\n- Use search for broad text or file discovery across the workspace.\n\nCurrent working directory: ",
    );
    push_str(&mut out, cwd_display);
    proof {
        let custom = match custom_instructions {
            Some(c) => Some(c@),
            None => None,
        };
        assert(out@ =~= prompt_head() + custom_section(custom) + prompt_tools() + cwd_display@);
    }
    string_from_chars(out.as_slice())
}

/// `x` capped at `usize::MAX`.
pub open spec fn capped(x: int) -> int {
    if x > usize::MAX {
        usize::MAX as int
    } else {
        x
    }
}

/// Adds two counts, stopping at `usize::MAX`.
fn sat_add(a: usize, b: usize) -> (r: usize)
    ensures
        r == capped(a + b),
{
    if a > usize::MAX - b {
        usize::MAX
    } else {
        a + b
    }
}

fn attachments_char_count_capped(a: &Vec<ChatImageAttachment>) -> (r: usize)
    ensures
        r == capped(attachments_chars(a@) as int),
{
    let mut total: usize = 0;
    let mut i: usize = 0;
    while i < a.len()
        invariant
            i <= a.len(),
            total == capped(attachments_chars(a@.take(i as int)) as int),
        decreases a.len() - i,
    {
        proof {
            assert(a@.take(i + 1).drop_last() == a@.take(i as int));
        }
        let x = &a[i];
        total = sat_add(total, x.filename.unicode_len());
        total = sat_add(total, x.mime_type.unicode_len());
        total = sat_add(total, 512);
        i += 1;
    }
    assert(a@.take(a.len() as int) == a@);
    total
}

fn calls_char_count_capped(c: &Vec<ChatToolCall>) -> (r: usize)
    ensures
        r == capped(calls_chars(c@) as int),
{
    let mut total: usize = 0;
    let mut i: usize = 0;
    while i < c.len()
        invariant
            i <= c.len(),
            total == capped(calls_chars(c@.take(i as int)) as int),
        decreases c.len() - i,
    {
        proof {
            assert(c@.take(i + 1).drop_last() == c@.take(i as int));
        }
        let x = &c[i];
        total = sat_add(total, x.id.unicode_len());
        total = sat_add(total, x.function.name.unicode_len());
        total = sat_add(total, x.function.arguments.unicode_len());
        i += 1;
    }
    assert(c@.take(c.len() as int) == c@);
    total
}

/// Estimated tokens of a conversation, with the character count capped at
/// `usize::MAX` instead of overflowing.
pub fn estimate_messages_tokens_capped(messages: &[ChatMessage]) -> (r: usize)
    ensures
        r == chars_tokens(capped(messages_chars(messages@) as int) as nat),
{
    let mut chars: usize = 0;
    let mut i: usize = 0;
    while i < messages.len()
        invariant
            i <= messages.len(),
            chars == capped(messages_chars(messages@.take(i as int)) as int),
        decreases messages.len() - i,
    {
        proof {
            assert(messages@.take(i + 1).drop_last() == messages@.take(i as int));
        }
        let m = &messages[i];
        chars = sat_add(chars, m.role.unicode_len());
        match &m.content {
            Some(c) => {
                chars = sat_add(chars, c.unicode_len());
            },
            None => {},
        }
        match &m.attachments {
            Some(a) => {
                let n = attachments_char_count_capped(a);
                chars = sat_add(chars, n);
            },
            None => {},
        }
        match &m.tool_call_id {
            Some(t) => {
                chars = sat_add(chars, t.unicode_len());
            },
            None => {},
        }
        match &m.tool_calls {
            Some(c) => {
                let n = calls_char_count_capped(c);
                chars = sat_add(chars, n);
            },
            None => {},
        }
        i += 1;
    }
    assert(messages@.take(messages.len() as int) == messages@);
    estimate_chars_tokens(chars)
}

} // verus!
