//! What the terminal shows of tool calls: their labels, the confirmation
//! prompt and the answer to it, and the lines of a result.
use vstd::prelude::*;

use crate::agent::{ConfirmationDecision, ToolCallSummary};
use crate::confirmation::ConfirmationOperation;
use crate::order::texts;
use crate::responses_adapter::{get_str, json_get_str, json_of, parse_json};
use crate::tool_catalog::{display_name_spec, tool_display_name};
use crate::tools::file_ops::replace_all;
use crate::tools::file_ops::replace_all_chars;
use crate::tools::ToolResult;
use crate::text::{
    chars_of, index_of_any, index_of_char_from, lemma_index_of_any, push_chars, push_str,
    slice_chars, string_from_chars,
};

verus! {

/// The string value of the member `key` of the JSON object that the text
/// `json` reads as (see `json_of`); nothing when the text is not JSON, or the
/// member is missing or not a string.
pub open spec fn json_string_member(json: Seq<char>, key: Seq<char>) -> Option<Seq<char>> {
    match json_of(json) {
        Some(j) => get_str(j, key),
        None => None,
    }
}

/// The string member `key` of the JSON object in `json` (see
/// `json_string_member`).
pub(crate) fn json_string_field(json: &str, key: &str) -> (r: Option<String>)
    ensures
        match r {
            Some(v) => json_string_member(json@, key@) == Some(v@),
            None => json_string_member(json@, key@) is None,
        },
{
    match parse_json(json) {
        Some(j) => json_get_str(&j, key),
        None => None,
    }
}

/// What a tool call acts on: the `path`, `command`, `query` or `id` of its
/// arguments, the first present, or nothing.
pub open spec fn target_spec(arguments: Seq<char>) -> Seq<char> {
    match json_string_member(arguments, "path"@) {
        Some(v) => v,
        None => match json_string_member(arguments, "command"@) {
            Some(v) => v,
            None => match json_string_member(arguments, "query"@) {
                Some(v) => v,
                None => match json_string_member(arguments, "id"@) {
                    Some(v) => v,
                    None => Seq::empty(),
                },
            },
        },
    }
}

/// What a tool call acts on (see `target_spec`).
pub fn tool_target(tool: &ToolCallSummary) -> (r: String)
    ensures
        r@ == target_spec(tool.arguments@),
{
    let args = tool.arguments.as_str();
    match json_string_field(args, "path") {
        Some(v) => v,
        None => match json_string_field(args, "command") {
            Some(v) => v,
            None => match json_string_field(args, "query") {
                Some(v) => v,
                None => match json_string_field(args, "id") {
                    Some(v) => v,
                    None => String::new(),
                },
            },
        },
    }
}

/// The label of a tool call: its display name and, in brackets, its target.
pub open spec fn label_spec(name: Seq<char>, arguments: Seq<char>) -> Seq<char> {
    display_name_spec(name) + "("@ + target_spec(arguments) + ")"@
}

/// The label of a tool call (see `label_spec`).
pub fn tool_label(tool: &ToolCallSummary) -> (r: String)
    ensures
        r@ == label_spec(tool.name@, tool.arguments@),
{
    let mut out = chars_of(tool_display_name(tool.name.as_str()));
    push_str(&mut out, "(");
    let target = tool_target(tool);
    push_str(&mut out, target.as_str());
    push_str(&mut out, ")");
    string_from_chars(out.as_slice())
}

/// How a kind of operation is named to the user.
pub fn confirmation_operation_label(operation: ConfirmationOperation) -> (r: &'static str)
    ensures
        r@ == (match operation {
            ConfirmationOperation::File => "file operations"@,
            ConfirmationOperation::Bash => "bash commands"@,
        }),
{
    match operation {
        ConfirmationOperation::File => "file operations",
        ConfirmationOperation::Bash => "bash commands",
    }
}

/// The detail shown when a tool call asks for confirmation: its command, else
/// its path, else a note that there is none.
pub open spec fn detail_spec(arguments: Seq<char>) -> Seq<char> {
    match json_string_member(arguments, "command"@) {
        Some(c) => "command: "@ + c,
        None => match json_string_member(arguments, "path"@) {
            Some(p) => "path: "@ + p,
            None => "operation details unavailable"@,
        },
    }
}

/// The detail shown when a tool call asks for confirmation (see `detail_spec`).
pub fn confirmation_detail(tool_call: &ToolCallSummary) -> (r: String)
    ensures
        r@ == detail_spec(tool_call.arguments@),
{
    let args = tool_call.arguments.as_str();
    if let Some(command) = json_string_field(args, "command") {
        let mut out = chars_of("command: ");
        push_str(&mut out, command.as_str());
        return string_from_chars(out.as_slice());
    }
    if let Some(path) = json_string_field(args, "path") {
        let mut out = chars_of("path: ");
        push_str(&mut out, path.as_str());
        return string_from_chars(out.as_slice());
    }
    String::from_str("operation details unavailable")
}

/// The lines of the confirmation prompt: what is asked, the kind of operation,
/// the detail and the keys.
pub open spec fn confirmation_lines_spec(
    name: Seq<char>,
    arguments: Seq<char>,
    operation_label: Seq<char>,
) -> Seq<Seq<char>> {
    seq![
        "Confirmation required: "@ + label_spec(name, arguments),
        "  operation: "@ + operation_label,
        "  details: "@ + detail_spec(arguments),
        "  [y] approve once   [a] approve all for this session   [n]/[Esc] reject"@,
    ]
}

/// The lines of the confirmation prompt (see `confirmation_lines_spec`).
pub fn confirmation_prompt_lines(tool_call: &ToolCallSummary, operation: ConfirmationOperation) -> (r:
    Vec<String>)
    ensures
        texts(r@) == confirmation_lines_spec(
            tool_call.name@,
            tool_call.arguments@,
            match operation {
                ConfirmationOperation::File => "file operations"@,
                ConfirmationOperation::Bash => "bash commands"@,
            },
        ),
{
    let mut first = chars_of("Confirmation required: ");
    let label = tool_label(tool_call);
    push_str(&mut first, label.as_str());
    let mut second = chars_of("  operation: ");
    push_str(&mut second, confirmation_operation_label(operation));
    let mut third = chars_of("  details: ");
    let detail = confirmation_detail(tool_call);
    push_str(&mut third, detail.as_str());
    let mut lines: Vec<String> = Vec::new();
    lines.push(string_from_chars(first.as_slice()));
    lines.push(string_from_chars(second.as_slice()));
    lines.push(string_from_chars(third.as_slice()));
    lines.push(
        String::from_str("  [y] approve once   [a] approve all for this session   [n]/[Esc] reject"),
    );
    assert(texts(lines@) =~= confirmation_lines_spec(
        tool_call.name@,
        tool_call.arguments@,
        match operation {
            ConfirmationOperation::File => "file operations"@,
            ConfirmationOperation::Bash => "bash commands"@,
        },
    ));
    lines
}

/// A key pressed at the confirmation prompt.
#[derive(Debug, Clone, Copy, PartialEq, Eq, Structural)]
pub enum ConfirmKey {
    Char(char),
    Esc,
    Other,
}

/// The answer a key gives at the confirmation prompt: `y` approves once, `a`
/// approves and remembers for the session, `n` or Esc rejects (either case of
/// the letters); other keys give none.
pub fn confirmation_for_key(key: ConfirmKey, tool_call_id: &str) -> (r: Option<ConfirmationDecision>)
    ensures
        match key {
            ConfirmKey::Char(c) => if c == 'y' || c == 'Y' {
                r matches Some(ConfirmationDecision::Approve { tool_call_id: id, remember_for_session })
                    && id@ == tool_call_id@ && !remember_for_session
            } else if c == 'a' || c == 'A' {
                r matches Some(ConfirmationDecision::Approve { tool_call_id: id, remember_for_session })
                    && id@ == tool_call_id@ && remember_for_session
            } else if c == 'n' || c == 'N' {
                r matches Some(ConfirmationDecision::Reject { tool_call_id: id, feedback })
                    && id@ == tool_call_id@ && feedback is None
            } else {
                r is None
            },
            ConfirmKey::Esc => r matches Some(ConfirmationDecision::Reject { tool_call_id: id, feedback })
                && id@ == tool_call_id@ && feedback is None,
            ConfirmKey::Other => r is None,
        },
{
    let id = crate::protocol::owned(tool_call_id);
    match key {
        ConfirmKey::Char(c) => {
            if c == 'y' || c == 'Y' {
                Some(ConfirmationDecision::Approve { tool_call_id: id, remember_for_session: false })
            } else if c == 'a' || c == 'A' {
                Some(ConfirmationDecision::Approve { tool_call_id: id, remember_for_session: true })
            } else if c == 'n' || c == 'N' {
                Some(ConfirmationDecision::Reject { tool_call_id: id, feedback: None })
            } else {
                None
            }
        },
        ConfirmKey::Esc => Some(ConfirmationDecision::Reject { tool_call_id: id, feedback: None }),
        ConfirmKey::Other => None,
    }
}

/// The pieces of `s` between the occurrences of `c` (an empty piece where two
/// meet or at an end), as `split(c)` gives them.
pub open spec fn split_char(s: Seq<char>, c: char) -> Seq<Seq<char>>
    decreases s.len(),
{
    let i = index_of_any(s, seq![c]);
    proof {
        lemma_index_of_any(s, seq![c]);
    }
    if i >= s.len() {
        seq![s]
    } else {
        seq![s.take(i)] + split_char(s.skip(i + 1), c)
    }
}

/// Splits a text at every occurrence of `c` (see `split_char`).
pub fn split_on_char(text: &[char], c: char) -> (r: Vec<String>)
    ensures
        texts(r@) == split_char(text@, c),
{
    let n = text.len();
    let mut out: Vec<String> = Vec::new();
    let mut pos: usize = 0;
    assert(text@.skip(0) == text@);
    loop
        invariant
            n == text.len(),
            pos <= n,
            split_char(text@, c) == texts(out@) + split_char(text@.skip(pos as int), c),
        decreases n - pos,
    {
        let ghost rest = text@.skip(pos as int);
        let ghost before = texts(out@);
        let j = index_of_char_from(text, pos, c);
        proof {
            lemma_index_of_any(rest, seq![c]);
        }
        if j == n {
            out.push(string_from_chars(slice_chars(text, pos, n).as_slice()));
            assert(text@.subrange(pos as int, n as int) =~= rest);
            assert(texts(out@) =~= before.push(rest));
            assert(split_char(rest, c) == seq![rest]);
            return out;
        }
        out.push(string_from_chars(slice_chars(text, pos, j).as_slice()));
        proof {
            assert(rest.take(j - pos) =~= text@.subrange(pos as int, j as int));
            assert(rest.skip(j - pos + 1) =~= text@.skip(j + 1));
            assert(texts(out@) =~= before.push(rest.take(j - pos)));
            assert(split_char(rest, c) == seq![rest.take(j - pos)] + split_char(rest.skip(j - pos + 1), c));
        }
        pos = j + 1;
    }
}

/// The lines shown under a tool result: its output (or error) with `\r\n` read
/// as a line break, each line after `  -> `; `Success` or `Error` when there is
/// no text.
pub open spec fn result_lines_spec(success: bool, output: Option<Seq<char>>, error: Option<Seq<char>>) -> Seq<
    Seq<char>,
> {
    let text: Option<Seq<char>> = if success {
        output
    } else {
        error
    };
    match text {
        Some(t) => split_char(replace_all(t, "\r\n"@, "\n"@), '\n').map_values(
            |l: Seq<char>| "  -> "@ + l,
        ),
        None => if success {
            seq!["  -> Success"@]
        } else {
            seq!["  -> Error"@]
        },
    }
}

/// The lines shown under a tool result (see `result_lines_spec`); the caller
/// prints them grey for a success and red for a failure.
pub fn tool_result_lines(result: &ToolResult) -> (r: Vec<String>)
    ensures
        texts(r@) == result_lines_spec(
            result.success,
            crate::protocol::opt_view(result.output),
            crate::protocol::opt_view(result.error),
        ),
{
    let text: Option<&String> = if result.success {
        result.output.as_ref()
    } else {
        result.error.as_ref()
    };
    match text {
        None => {
            let mut v: Vec<String> = Vec::new();
            if result.success {
                v.push(String::from_str("  -> Success"));
            } else {
                v.push(String::from_str("  -> Error"));
            }
            assert(texts(v@) =~= result_lines_spec(
                result.success,
                crate::protocol::opt_view(result.output),
                crate::protocol::opt_view(result.error),
            ));
            v
        },
        Some(t) => {
            let cs = chars_of(t.as_str());
            let crlf = chars_of("\r\n");
            let lf = chars_of("\n");
            let normalized = replace_all_chars(cs.as_slice(), crlf.as_slice(), lf.as_slice());
            let pieces = split_on_char(normalized.as_slice(), '\n');
            let ghost ps = texts(pieces@);
            let mut out: Vec<String> = Vec::new();
            let mut i: usize = 0;
            while i < pieces.len()
                invariant
                    i <= pieces.len(),
                    ps == texts(pieces@),
                    texts(out@) == ps.take(i as int).map_values(|l: Seq<char>| "  -> "@ + l),
                decreases pieces.len() - i,
            {
                let mut line = chars_of("  -> ");
                push_str(&mut line, pieces[i].as_str());
                let ghost before = texts(out@);
                out.push(string_from_chars(line.as_slice()));
                assert(ps[i as int] == pieces@[i as int]@);
                assert(line@ == "  -> "@ + ps[i as int]);
                assert(texts(out@) =~= before.push(line@));
                assert(texts(out@) =~= ps.take(i + 1).map_values(|l: Seq<char>| "  -> "@ + l));
                i += 1;
            }
            assert(ps.take(pieces.len() as int) =~= ps);
            out
        },
    }
}

} // verus!
