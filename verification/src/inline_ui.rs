//! The inline front end's decisions: what a line typed at the prompt asks
//! for, the model menu, the command hints, and what the terminal shows while
//! the agent works on a turn. The terminal and the agent are the caller's part.
use vstd::prelude::*;

use crate::agent::{auto_approved, remembered, ConfirmationDecision, DecisionInput, SessionPermissions, ToolCallSummary};
use crate::confirmation::ConfirmationOperation;
use crate::image_input::opt_string;
use crate::inline_feedback::{label_spec, tool_label};
use crate::order::texts;
use crate::protocol::owned;
use crate::text::{
    chars_of, contains, decimal, eq_str, is_whitespace, is_ws, push_chars, push_decimal, push_str,
    slice_chars, starts_with, starts_with_exec, starts_with_str, string_from_chars, trim, trim_chars,
};
use crate::tools::file_ops::{replace_all, replace_all_chars};

verus! {

/// The commands run directly in the shell when typed at the prompt.
pub open spec fn direct_commands() -> Seq<Seq<char>> {
    seq![
        "ls"@, "pwd"@, "cd"@, "cat"@, "mkdir"@, "touch"@, "echo"@, "grep"@, "find"@, "cp"@, "mv"@,
        "rm"@,
    ]
}

/// The end of the run of characters that are not white space starting at `i`.
pub open spec fn word_end(s: Seq<char>, i: int) -> int
    decreases s.len() - i,
{
    if 0 <= i < s.len() && !is_ws(s[i]) {
        word_end(s, i + 1)
    } else {
        i
    }
}

/// The first word of a line, as `split_whitespace().next()` gives it (empty
/// for a blank line).
pub open spec fn leading_word(s: Seq<char>) -> Seq<char> {
    let t = crate::text::trim_start(s);
    t.take(word_end(t, 0))
}

/// Whether a line starts with a command run directly in the shell.
pub fn is_direct_command(input: &str) -> (r: bool)
    ensures
        r == direct_commands().contains(leading_word(input@)),
{
    let cs = chars_of(input);
    let start = crate::text::trim_start_index(cs.as_slice());
    let ghost t = crate::text::trim_start(input@);
    let mut end = start;
    assert(t =~= cs@.skip(start as int));
    while end < cs.len() && !is_whitespace(cs[end])
        invariant
            start <= end <= cs.len(),
            t == cs@.skip(start as int),
            word_end(t, 0) == word_end(t, end - start),
        decreases cs.len() - end,
    {
        assert(t[end - start] == cs@[end as int]);
        end += 1;
    }
    proof {
        if end < cs.len() {
            assert(t[end - start] == cs@[end as int]);
        }
    }
    let word = slice_chars(cs.as_slice(), start, end);
    assert(word@ =~= leading_word(input@));
    let list: Vec<&'static str> = vec!["ls", "pwd", "cd", "cat", "mkdir", "touch", "echo", "grep", "find", "cp", "mv", "rm"];
    assert(list@.map_values(|s: &'static str| s@) =~= direct_commands());
    let mut i: usize = 0;
    while i < list.len()
        invariant
            i <= list.len(),
            list@.map_values(|s: &'static str| s@) == direct_commands(),
            word@ == leading_word(input@),
            forall|j: int| 0 <= j < i ==> direct_commands()[j] != word@,
        decreases list.len() - i,
    {
        if eq_str(word.as_slice(), list[i]) {
            assert(direct_commands()[i as int] == word@);
            return true;
        }
        i += 1;
    }
    false
}

/// What the prompt's loop does with a line: nothing for a blank one, stop for
/// `exit`, `quit` or `/exit`, else handle the trimmed line.
#[derive(Debug)]
pub enum PromptLine {
    Skip,
    Exit,
    Handle(String),
}

/// What the prompt's loop does with a line (see `PromptLine`).
pub fn prompt_line_action(input: &str) -> (r: PromptLine)
    ensures
        ({
            let t = trim(input@);
            if t.len() == 0 {
                r is Skip
            } else if t == "exit"@ || t == "quit"@ || t == "/exit"@ {
                r is Exit
            } else {
                r matches PromptLine::Handle(h) && h@ == t
            }
        }),
{
    let t = trim_chars(chars_of(input).as_slice());
    if t.len() == 0 {
        return PromptLine::Skip;
    }
    if eq_str(t.as_slice(), "exit") || eq_str(t.as_slice(), "quit") || eq_str(t.as_slice(), "/exit") {
        return PromptLine::Exit;
    }
    PromptLine::Handle(string_from_chars(t.as_slice()))
}

/// What a line typed at the prompt asks for.
#[derive(Debug)]
pub enum InlineCommand {
    Help,
    Clear,
    /// The model menu.
    ModelsMenu,
    /// `/models <name>`, the name trimmed.
    SetModel(String),
    CommitAndPush,
    /// The picker of saved sessions.
    Resume,
    UnknownSlash,
    /// A shell command run directly.
    Direct,
    /// A message for the agent.
    Message,
}

/// The kinds of what a line typed at the prompt asks for.
#[derive(Debug, Clone, Copy, PartialEq, Eq, Structural)]
pub enum CommandKind {
    Help,
    Clear,
    ModelsMenu,
    SetModel,
    CommitAndPush,
    Resume,
    UnknownSlash,
    Direct,
    Message,
}

/// What a line typed at the prompt asks for: `/help`, `/clear`, `/models`,
/// `/models <name>`, `/commit-and-push`, `/resume`, another slash command (unknown), a
/// direct shell command, or a message for the agent.
pub open spec fn command_spec(input: Seq<char>) -> CommandKind {
    if input == "/help"@ {
        CommandKind::Help
    } else if input == "/clear"@ {
        CommandKind::Clear
    } else if input == "/models"@ {
        CommandKind::ModelsMenu
    } else if starts_with(input, "/models "@) {
        CommandKind::SetModel
    } else if input == "/commit-and-push"@ {
        CommandKind::CommitAndPush
    } else if input == "/resume"@ {
        CommandKind::Resume
    } else if input.len() > 0 && input[0] == '/' {
        CommandKind::UnknownSlash
    } else if direct_commands().contains(leading_word(input)) {
        CommandKind::Direct
    } else {
        CommandKind::Message
    }
}

/// What a line typed at the prompt asks for (see `command_spec`; the model of
/// `/models <name>` is the rest of the line, trimmed).
pub fn classify_input(input: &str) -> (r: InlineCommand)
    ensures
        match command_spec(input@) {
            CommandKind::SetModel => r matches InlineCommand::SetModel(m) && m@ == trim(input@.skip(8)),
            CommandKind::Help => r is Help,
            CommandKind::Clear => r is Clear,
            CommandKind::ModelsMenu => r is ModelsMenu,
            CommandKind::CommitAndPush => r is CommitAndPush,
            CommandKind::Resume => r is Resume,
            CommandKind::UnknownSlash => r is UnknownSlash,
            CommandKind::Direct => r is Direct,
            CommandKind::Message => r is Message,
        },
{
    let cs = chars_of(input);
    let s = cs.as_slice();
    if eq_str(s, "/help") {
        return InlineCommand::Help;
    }
    if eq_str(s, "/clear") {
        return InlineCommand::Clear;
    }
    if eq_str(s, "/models") {
        return InlineCommand::ModelsMenu;
    }
    if starts_with_str(s, "/models ") {
        proof {
            reveal_strlit("/models ");
        }
        let rest = slice_chars(s, 8, cs.len());
        assert(rest@ =~= input@.skip(8));
        let m = trim_chars(rest.as_slice());
        return InlineCommand::SetModel(string_from_chars(m.as_slice()));
    }
    if eq_str(s, "/commit-and-push") {
        return InlineCommand::CommitAndPush;
    }
    if eq_str(s, "/resume") {
        return InlineCommand::Resume;
    }
    if cs.len() > 0 && cs[0] == '/' {
        return InlineCommand::UnknownSlash;
    }
    if is_direct_command(input) {
        return InlineCommand::Direct;
    }
    InlineCommand::Message
}

/// The arguments recorded for a direct shell command: `{"command":"<line>"}`
/// with the line's double quotes escaped.
pub fn direct_command_arguments(input: &str) -> (r: String)
    ensures
        r@ == "{\"command\":\""@ + replace_all(input@, "\""@, "\\\""@) + "\"}"@,
{
    let cs = chars_of(input);
    let q = chars_of("\"");
    let esc = chars_of("\\\"");
    let escaped = replace_all_chars(cs.as_slice(), q.as_slice(), esc.as_slice());
    let mut out = chars_of("{\"command\":\"");
    push_chars(&mut out, escaped.as_slice());
    push_str(&mut out, "\"}");
    string_from_chars(out.as_slice())
}

/// The record of a direct shell command, as the results list shows it.
pub fn direct_command_summary(input: &str) -> (r: ToolCallSummary)
    ensures
        r.id@ == "bash_inline"@,
        r.name@ == "bash"@,
        r.arguments@ == "{\"command\":\""@ + replace_all(input@, "\""@, "\\\""@) + "\"}"@,
{
    ToolCallSummary { id: owned("bash_inline"), name: owned("bash"), arguments: direct_command_arguments(input) }
}

/// A direct shell command is a bash operation: it is confirmed first unless
/// bash commands run without asking in this session.
pub fn direct_command_needs_confirmation(permissions: &SessionPermissions) -> (r: bool)
    ensures
        r == !auto_approved(*permissions, ConfirmationOperation::Bash),
{
    !permissions.is_operation_auto_approved(ConfirmationOperation::Bash)
}

/// Why a direct shell command does not run after its confirmation: the
/// user's feedback when it was refused with some, else that the user
/// cancelled it; nothing when it was approved.
pub open spec fn direct_refusal(input: DecisionInput) -> Option<Seq<char>> {
    match input {
        DecisionInput::Decision(ConfirmationDecision::Approve { .. }) => None,
        DecisionInput::Decision(ConfirmationDecision::Reject { feedback, .. }) => Some(
            match feedback {
                Some(f) => f@,
                None => "Operation cancelled by user"@,
            },
        ),
        _ => Some("Operation cancelled by user"@),
    }
}

/// Settles the confirmation of a direct shell command: nothing when it runs,
/// else the error its result shows (see `direct_refusal`). An approval for the
/// session lets bash commands run without asking from then on; any other
/// answer leaves the permissions as they were.
pub fn decide_direct_command(permissions: &mut SessionPermissions, input: DecisionInput) -> (r: Option<String>)
    ensures
        opt_string(r) == direct_refusal(input),
        *final(permissions) == (match input {
            DecisionInput::Decision(ConfirmationDecision::Approve { remember_for_session: true, .. }) => remembered(
                *old(permissions),
                ConfirmationOperation::Bash,
            ),
            _ => *old(permissions),
        }),
{
    match input {
        DecisionInput::Decision(ConfirmationDecision::Approve { remember_for_session, .. }) => {
            if remember_for_session {
                permissions.remember_operation_for_session(ConfirmationOperation::Bash);
            }
            None
        },
        DecisionInput::Decision(ConfirmationDecision::Reject { feedback, .. }) => match feedback {
            Some(f) => Some(f),
            None => Some(owned("Operation cancelled by user")),
        },
        _ => Some(owned("Operation cancelled by user")),
    }
}

/// The help shown for `/help`.
pub fn help_text() -> (r: &'static str)
    ensures
        r@ == "Grok Build Help:\n\n/clear\n/help\n/models\n/models <name>\n/commit-and-push\n/exit\n\nInput controls:\n  Up/Down       History\n  Left/Right    Move cursor\n  Tab           Slash-command completion (cycles matches)\n  /...          Live command suggestion row\n  Ctrl+A/E      Start/end of line\n  Ctrl+U/W      Delete to start / delete previous word\n  Ctrl+C        Clear input (press twice on empty input to exit)\n\nInline mode keeps native terminal scrollback, shows live elapsed status while working, and preserves output after Ctrl+C."@,
{
    "Grok Build Help:\n\n/clear\n/help\n/models\n/models <name>\n/commit-and-push\n/exit\n\nInput controls:\n  Up/Down       History\n  Left/Right    Move cursor\n  Tab           Slash-command completion (cycles matches)\n  /...          Live command suggestion row\n  Ctrl+A/E      Start/end of line\n  Ctrl+U/W      Delete to start / delete previous word\n  Ctrl+C        Clear input (press twice on empty input to exit)\n\nInline mode keeps native terminal scrollback, shows live elapsed status while working, and preserves output after Ctrl+C."
}

/// A duration as whole seconds and tenths: `{secs}.{tenths}s`.
pub fn format_elapsed(secs: u64, subsec_millis: u32) -> (r: String)
    requires
        subsec_millis < 1000,
    ensures
        r@ == decimal(secs as nat) + "."@ + decimal((subsec_millis / 100) as nat) + "s"@,
{
    let mut out: Vec<char> = crate::text::decimal_chars_u128(secs as u128);
    push_str(&mut out, ".");
    push_decimal(&mut out, (subsec_millis / 100) as usize);
    push_str(&mut out, "s");
    string_from_chars(out.as_slice())
}

/// The header of the model menu.
pub open spec fn menu_header() -> Seq<char> {
    "Available models (choose number, model name, or blank to cancel):"@
}

/// The lines of the model menu: the header, then each model numbered from 1,
/// the current one labelled.
pub open spec fn menu_spec(models: Seq<Seq<char>>, current: Seq<char>) -> Seq<Seq<char>> {
    seq![menu_header()] + Seq::new(
        models.len(),
        |k: int|
            decimal((k + 1) as nat) + ". "@ + models[k] + if models[k] == current {
                " (current)"@
            } else {
                Seq::empty()
            },
    )
}

/// The lines of the model menu (see `menu_spec`).
pub fn model_menu_lines(available: &[String], current: &str) -> (r: Vec<String>)
    ensures
        texts(r@) == menu_spec(texts(available@), current@),
{
    let ghost ms = texts(available@);
    let cur = chars_of(current);
    let mut lines: Vec<String> = Vec::new();
    lines.push(owned("Available models (choose number, model name, or blank to cancel):"));
    let mut k: usize = 0;
    while k < available.len()
        invariant
            k <= available.len(),
            ms == texts(available@),
            cur@ == current@,
            texts(lines@) == seq![menu_header()] + Seq::new(
                k as nat,
                |j: int|
                    decimal((j + 1) as nat) + ". "@ + ms[j] + if ms[j] == current@ {
                        " (current)"@
                    } else {
                        Seq::empty()
                    },
            ),
        decreases available.len() - k,
    {
        let name = chars_of(available[k].as_str());
        let mut line: Vec<char> = Vec::new();
        crate::text::push_decimal(&mut line, k + 1);
        push_str(&mut line, ". ");
        push_chars(&mut line, name.as_slice());
        if crate::text::chars_eq(name.as_slice(), cur.as_slice()) {
            push_str(&mut line, " (current)");
        }
        let ghost before = texts(lines@);
        lines.push(string_from_chars(line.as_slice()));
        assert(ms[k as int] == name@);
        assert(texts(lines@) =~= before.push(line@));
        k += 1;
    }
    lines
}

/// What an answer to the model menu asks for.
#[derive(Debug)]
pub enum ModelChoice {
    /// A blank answer.
    Cancelled,
    /// A number that names no model; the answer is kept.
    InvalidIndex(String),
    /// A model to switch to.
    Switch(String),
    /// A name that is not in the list.
    Invalid(String),
}

/// Reads an answer to the model menu: blank cancels; a number picks the model
/// with that position (from 1), or names no model; anything else is a model
/// name. A picked or named model is switched to only when it is in the list.
pub fn choose_model(answer: &str, available: &[String]) -> (r: ModelChoice)
    ensures
        ({
            let t = trim(answer@);
            let ms = texts(available@);
            if t.len() == 0 {
                r is Cancelled
            } else {
                match crate::grok_client::parse_decimal_spec(t, usize::MAX as nat) {
                    Some(n) => if n == 0 || n > ms.len() {
                        r matches ModelChoice::InvalidIndex(a) && a@ == t
                    } else {
                        r matches ModelChoice::Switch(m) && m@ == ms[n - 1]
                    },
                    None => if ms.contains(t) {
                        r matches ModelChoice::Switch(m) && m@ == t
                    } else {
                        r matches ModelChoice::Invalid(m) && m@ == t
                    },
                }
            }
        }),
{
    let t = trim_chars(chars_of(answer).as_slice());
    if t.len() == 0 {
        return ModelChoice::Cancelled;
    }
    let selected = string_from_chars(t.as_slice());
    match crate::grok_client::parse_decimal(selected.as_str(), usize::MAX as u64) {
        Some(n) => {
            if n == 0 || n > available.len() as u64 {
                return ModelChoice::InvalidIndex(selected);
            }
            let idx = (n - 1) as usize;
            let candidate = available[idx].clone();
            assert(texts(available@)[idx as int] == candidate@);
            assert(texts(available@).contains(candidate@));
            ModelChoice::Switch(candidate)
        },
        None => {
            let mut i: usize = 0;
            while i < available.len()
                invariant
                    i <= available.len(),
                    t@ == trim(answer@),
                    selected@ == t@,
                    t@.len() > 0,
                    crate::grok_client::parse_decimal_spec(t@, usize::MAX as nat) is None,
                    forall|j: int| 0 <= j < i ==> texts(available@)[j] != t@,
                decreases available.len() - i,
            {
                if crate::text::chars_eq(chars_of(available[i].as_str()).as_slice(), t.as_slice()) {
                    assert(texts(available@)[i as int] == t@);
                    return ModelChoice::Switch(selected);
                }
                i += 1;
            }
            ModelChoice::Invalid(selected)
        },
    }
}

/// Whether a model is one of those offered.
pub fn is_available_model(model: &str, available: &[String]) -> (r: bool)
    ensures
        r == texts(available@).contains(model@),
{
    let m = chars_of(model);
    let mut i: usize = 0;
    while i < available.len()
        invariant
            i <= available.len(),
            m@ == model@,
            forall|j: int| 0 <= j < i ==> texts(available@)[j] != model@,
        decreases available.len() - i,
    {
        if crate::text::chars_eq(chars_of(available[i].as_str()).as_slice(), m.as_slice()) {
            assert(texts(available@)[i as int] == model@);
            return true;
        }
        i += 1;
    }
    false
}

/// The names joined by `, `.
pub open spec fn comma_joined(names: Seq<Seq<char>>) -> Seq<char>
    decreases names.len(),
{
    if names.len() == 0 {
        Seq::empty()
    } else if names.len() == 1 {
        names[0]
    } else {
        comma_joined(names.drop_last()) + ", "@ + names.last()
    }
}

/// The lines shown for a model that is not offered: the model and the list.
pub fn invalid_model_lines(model: &str, available: &[String]) -> (r: Vec<String>)
    ensures
        texts(r@) == seq!["Invalid model: "@ + model@, "Available: "@ + comma_joined(texts(available@))],
{
    let mut first = chars_of("Invalid model: ");
    push_str(&mut first, model);
    let mut second = chars_of("Available: ");
    let ghost head = second@;
    let ghost ms = texts(available@);
    let mut i: usize = 0;
    while i < available.len()
        invariant
            i <= available.len(),
            ms == texts(available@),
            second@ == head + comma_joined(ms.take(i as int)),
        decreases available.len() - i,
    {
        if i > 0 {
            push_str(&mut second, ", ");
        }
        push_str(&mut second, available[i].as_str());
        proof {
            assert(ms.take(i + 1).drop_last() =~= ms.take(i as int));
            if i == 0 {
                assert(ms.take(1) =~= seq![ms[0]]);
            }
        }
        i += 1;
    }
    assert(ms.take(available.len() as int) =~= ms);
    let mut lines: Vec<String> = Vec::new();
    lines.push(string_from_chars(first.as_slice()));
    lines.push(string_from_chars(second.as_slice()));
    assert(texts(lines@) =~= seq!["Invalid model: "@ + model@, "Available: "@ + comma_joined(ms)]);
    lines
}

/// What the terminal is asked to do while the agent works on a turn.
#[derive(Debug)]
pub enum DisplayOp {
    /// Show the status line (it is cleared before anything else is printed).
    Status(String),
    /// Clear the status line.
    ClearStatus,
    /// Start the answer with its bullet.
    BeginContent,
    /// Stream a piece of the answer through the Markdown renderer.
    Markdown(String),
    /// Flush the Markdown renderer and end the line.
    EndContent,
    /// A tool call starts: its label.
    ToolStart(String),
    /// A tool call ended: its label, how long it took, and whether it worked.
    ToolDone { label: String, elapsed: String, success: bool },
    /// Show a tool result under its call.
    ShowResult { call: ToolCallSummary, result: crate::tools::ToolResult },
    /// Show a line in grey.
    Note(String),
    /// Show an error in red.
    Failure(String),
}

/// What the agent is doing, as the status line says it.
#[derive(Debug, Clone, Copy, PartialEq, Eq, Structural)]
pub enum DisplayPhase {
    Thinking,
    RunningTools,
    Finalizing,
}

/// The words of a phase on the status line.
pub open spec fn phase_text(p: DisplayPhase) -> Seq<char> {
    match p {
        DisplayPhase::Thinking => "thinking"@,
        DisplayPhase::RunningTools => "running tools"@,
        DisplayPhase::Finalizing => "finalizing"@,
    }
}

/// The spinner frames of the status line.
pub open spec fn frame_text(i: nat) -> Seq<char> {
    let k = i % 4;
    if k == 0 {
        "-"@
    } else if k == 1 {
        "\\"@
    } else if k == 2 {
        "|"@
    } else {
        "/"@
    }
}

/// The status line: spinner, phase, tool progress while tools run, elapsed seconds.
pub open spec fn status_text(frame: nat, phase: DisplayPhase, results: nat, calls: nat, secs: nat) -> Seq<char> {
    frame_text(frame) + " "@ + phase_text(phase) + (if phase == DisplayPhase::RunningTools && calls > 0 {
        " ("@ + decimal(if results < calls { results } else { calls }) + "/"@ + decimal(calls) + ")"@
    } else {
        Seq::empty()
    }) + "... "@ + decimal(secs) + "s"@
}

/// The state of the terminal while the agent works on a turn.
pub struct TurnDisplay {
    pub started_content: bool,
    pub phase: DisplayPhase,
    pub tool_calls_seen: usize,
    pub tool_results_seen: usize,
    pub frame_idx: usize,
    /// When each running tool call started, in milliseconds.
    pub tool_started_at: Vec<(String, u64)>,
    pub tool_succeeded: usize,
    pub tool_failed: usize,
}

/// The summary of the tools of a turn.
pub open spec fn summary_text(total: nat, ok: nat, failed: nat) -> Seq<char> {
    "\u{25e6} tools summary: "@ + decimal(total) + " total, "@ + decimal(ok) + " succeeded, "@
        + decimal(failed) + " failed"@
}

/// The operations that close a turn, before its last line: the status is
/// cleared, the answer ended when one was being shown, and the tools summary
/// given when tools ran; then one more line.
pub open spec fn closing_ops(d: TurnDisplay, ops: Seq<DisplayOp>) -> bool {
    let e: int = if d.started_content { 1 } else { 0 };
    let sm: int = if d.tool_calls_seen > 0 { 1 } else { 0 };
    &&& ops.len() == 2 + e + sm
    &&& ops[0] is ClearStatus
    &&& (d.started_content ==> ops[1] is EndContent)
    &&& (d.tool_calls_seen > 0 ==> (ops[1 + e] matches DisplayOp::Note(t) && t@ == summary_text(
        d.tool_calls_seen as nat,
        d.tool_succeeded as nat,
        d.tool_failed as nat,
    )))
}

/// The start of the latest call with this id among the running ones.
pub open spec fn last_start(entries: Seq<(String, u64)>, id: Seq<char>) -> Option<u64>
    decreases entries.len(),
{
    if entries.len() == 0 {
        None
    } else if entries.last().0@ == id {
        Some(entries.last().1)
    } else {
        last_start(entries.drop_last(), id)
    }
}

/// The running calls once those with this id are forgotten.
pub open spec fn without_id(entries: Seq<(String, u64)>, id: Seq<char>) -> Seq<(String, u64)>
    decreases entries.len(),
{
    if entries.len() == 0 {
        Seq::empty()
    } else if entries.last().0@ == id {
        without_id(entries.drop_last(), id)
    } else {
        without_id(entries.drop_last(), id).push(entries.last())
    }
}

/// The running calls that a batch of calls adds, all started at `now`.
pub open spec fn started_entries(calls: Seq<ToolCallSummary>, now: u64) -> Seq<(String, u64)> {
    Seq::new(calls.len(), |k: int| (calls[k].id, now))
}

/// How long a call took, as `format_elapsed` shows it, or `n/a` when its start
/// is unknown.
pub open spec fn elapsed_text(start: Option<u64>, now: u64) -> Seq<char> {
    match start {
        Some(s) => {
            let ms: int = if now >= s { now - s } else { 0 };
            decimal((ms / 1000) as nat) + "."@ + decimal(((ms % 1000) / 100) as nat) + "s"@
        },
        None => "n/a"@,
    }
}

impl TurnDisplay {
    /// The display before anything arrived.
    pub fn new() -> (r: TurnDisplay)
        ensures
            !r.started_content,
            r.phase == DisplayPhase::Thinking,
            r.tool_calls_seen == 0 && r.tool_results_seen == 0 && r.frame_idx == 0,
            r.tool_succeeded == 0 && r.tool_failed == 0,
            r.tool_started_at@.len() == 0,
    {
        TurnDisplay {
            started_content: false,
            phase: DisplayPhase::Thinking,
            tool_calls_seen: 0,
            tool_results_seen: 0,
            frame_idx: 0,
            tool_started_at: Vec::new(),
            tool_succeeded: 0,
            tool_failed: 0,
        }
    }

    /// The status line on a tick, unless the answer is being shown (see
    /// `status_text`); the spinner then moves on.
    pub fn tick(&mut self, elapsed_secs: u64) -> (r: Option<String>)
        ensures
            old(self).started_content ==> r is None && final(self).frame_idx == old(self).frame_idx,
            !old(self).started_content ==> (r matches Some(t) && t@ == status_text(
                old(self).frame_idx as nat,
                old(self).phase,
                old(self).tool_results_seen as nat,
                old(self).tool_calls_seen as nat,
                elapsed_secs as nat,
            )) && final(self).frame_idx == (if old(self).frame_idx == usize::MAX { 0 } else { old(self).frame_idx + 1 }),
            final(self).phase == old(self).phase,
            final(self).started_content == old(self).started_content,
            final(self).tool_calls_seen == old(self).tool_calls_seen,
            final(self).tool_results_seen == old(self).tool_results_seen,
    {
        if self.started_content {
            return None;
        }
        let k = self.frame_idx % 4;
        let mut out = if k == 0 {
            chars_of("-")
        } else if k == 1 {
            chars_of("\\")
        } else if k == 2 {
            chars_of("|")
        } else {
            chars_of("/")
        };
        push_str(&mut out, " ");
        match self.phase {
            DisplayPhase::Thinking => push_str(&mut out, "thinking"),
            DisplayPhase::RunningTools => push_str(&mut out, "running tools"),
            DisplayPhase::Finalizing => push_str(&mut out, "finalizing"),
        }
        if self.phase == DisplayPhase::RunningTools && self.tool_calls_seen > 0 {
            push_str(&mut out, " (");
            let shown = if self.tool_results_seen < self.tool_calls_seen {
                self.tool_results_seen
            } else {
                self.tool_calls_seen
            };
            push_decimal(&mut out, shown);
            push_str(&mut out, "/");
            push_decimal(&mut out, self.tool_calls_seen);
            push_str(&mut out, ")");
        }
        push_str(&mut out, "... ");
        let secs = crate::text::decimal_chars_u128(elapsed_secs as u128);
        push_chars(&mut out, secs.as_slice());
        push_str(&mut out, "s");
        self.frame_idx = if self.frame_idx == usize::MAX {
            0
        } else {
            self.frame_idx + 1
        };
        Some(string_from_chars(out.as_slice()))
    }

    /// Ends the answer being shown, if any.
    fn end_content(&mut self, ops: &mut Vec<DisplayOp>)
        ensures
            !final(self).started_content,
            final(self).phase == old(self).phase,
            final(self).tool_calls_seen == old(self).tool_calls_seen,
            final(self).tool_results_seen == old(self).tool_results_seen,
            final(self).tool_succeeded == old(self).tool_succeeded,
            final(self).tool_failed == old(self).tool_failed,
            final(self).tool_started_at == old(self).tool_started_at,
            final(self).frame_idx == old(self).frame_idx,
            final(ops)@ == if old(self).started_content { old(ops)@.push(DisplayOp::EndContent) } else { old(ops)@ },
    {
        if self.started_content {
            ops.push(DisplayOp::EndContent);
            self.started_content = false;
        }
    }

    /// A piece of the answer: the status line gives way to the answer's bullet
    /// the first time, then the text is streamed.
    pub fn on_content(&mut self, chunk: String) -> (ops: Vec<DisplayOp>)
        ensures
            final(self).started_content,
            !old(self).started_content ==> ops@.len() == 3 && ops@[0] is ClearStatus && ops@[1] is BeginContent
                && (ops@[2] matches DisplayOp::Markdown(c) && c == chunk),
            old(self).started_content ==> ops@.len() == 1 && (ops@[0] matches DisplayOp::Markdown(c) && c == chunk),
            final(self).tool_calls_seen == old(self).tool_calls_seen,
            final(self).tool_results_seen == old(self).tool_results_seen,
    {
        let mut ops: Vec<DisplayOp> = Vec::new();
        if !self.started_content {
            ops.push(DisplayOp::ClearStatus);
            ops.push(DisplayOp::BeginContent);
            self.started_content = true;
        }
        ops.push(DisplayOp::Markdown(chunk));
        ops
    }

    /// Tool calls start: the answer so far is ended, the phase becomes running
    /// tools, and each call is announced and its start time kept.
    pub fn on_tool_calls(&mut self, calls: Vec<ToolCallSummary>, now_ms: u64) -> (ops: Vec<DisplayOp>)
        requires
            old(self).tool_calls_seen + calls@.len() <= usize::MAX,
        ensures
            !final(self).started_content,
            final(self).phase == DisplayPhase::RunningTools,
            final(self).tool_calls_seen == old(self).tool_calls_seen + calls@.len(),
            final(self).tool_results_seen == old(self).tool_results_seen,
            final(self).tool_succeeded == old(self).tool_succeeded,
            final(self).tool_failed == old(self).tool_failed,
            final(self).tool_started_at@ == old(self).tool_started_at@ + started_entries(calls@, now_ms),
            ops@.len() == (if old(self).started_content { 1int } else { 0int }) + 1 + calls@.len(),
            forall|k: int| 0 <= k < calls@.len() ==> (#[trigger] ops@[ops@.len() - calls@.len() + k] matches DisplayOp::ToolStart(l)
                && l@ == label_spec(calls@[k].name@, calls@[k].arguments@)),
    {
        let mut ops: Vec<DisplayOp> = Vec::new();
        self.end_content(&mut ops);
        self.phase = DisplayPhase::RunningTools;
        self.tool_calls_seen = self.tool_calls_seen + calls.len();
        ops.push(DisplayOp::ClearStatus);
        let base = ops.len();
        let mut i: usize = 0;
        while i < calls.len()
            invariant
                i <= calls.len(),
                ops@.len() == base + i,
                forall|k: int| 0 <= k < i ==> (#[trigger] ops@[base + k] matches DisplayOp::ToolStart(l)
                    && l@ == label_spec(calls@[k].name@, calls@[k].arguments@)),
                !self.started_content,
                self.phase == DisplayPhase::RunningTools,
                self.tool_calls_seen == old(self).tool_calls_seen + calls@.len(),
                self.tool_results_seen == old(self).tool_results_seen,
                self.tool_succeeded == old(self).tool_succeeded,
                self.tool_failed == old(self).tool_failed,
                self.tool_started_at@ == old(self).tool_started_at@ + started_entries(calls@.take(i as int), now_ms),
            decreases calls.len() - i,
        {
            let label = tool_label(&calls[i]);
            ops.push(DisplayOp::ToolStart(label));
            self.tool_started_at.push((calls[i].id.clone(), now_ms));
            proof {
                assert(calls@.take(i + 1).drop_last() =~= calls@.take(i as int));
            }
            i += 1;
        }
        proof {
            assert(calls@.take(i as int) =~= calls@);
        }
        ops
    }

    /// How long ago a tool call started (`n/a` when its start is unknown); its
    /// start is forgotten.
    fn take_elapsed(&mut self, id: &str, now_ms: u64) -> (r: String)
        ensures
            r@ == elapsed_text(last_start(old(self).tool_started_at@, id@), now_ms),
            final(self).tool_started_at@ == without_id(old(self).tool_started_at@, id@),
            final(self).started_content == old(self).started_content,
            final(self).phase == old(self).phase,
            final(self).tool_calls_seen == old(self).tool_calls_seen,
            final(self).tool_results_seen == old(self).tool_results_seen,
            final(self).frame_idx == old(self).frame_idx,
            final(self).tool_succeeded == old(self).tool_succeeded,
            final(self).tool_failed == old(self).tool_failed,
    {
        let target = chars_of(id);
        let mut kept: Vec<(String, u64)> = Vec::new();
        let mut found: Option<u64> = None;
        let mut i: usize = 0;
        while i < self.tool_started_at.len()
            invariant
                i <= self.tool_started_at@.len(),
                target@ == id@,
                found == last_start(self.tool_started_at@.take(i as int), id@),
                kept@ == without_id(self.tool_started_at@.take(i as int), id@),
            decreases self.tool_started_at.len() - i,
        {
            proof {
                assert(self.tool_started_at@.take(i + 1).drop_last() =~= self.tool_started_at@.take(i as int));
            }
            let entry_id = chars_of(self.tool_started_at[i].0.as_str());
            if crate::text::chars_eq(entry_id.as_slice(), target.as_slice()) {
                found = Some(self.tool_started_at[i].1);
            } else {
                kept.push((self.tool_started_at[i].0.clone(), self.tool_started_at[i].1));
            }
            i += 1;
        }
        proof {
            assert(self.tool_started_at@.take(i as int) =~= self.tool_started_at@);
        }
        self.tool_started_at = kept;
        match found {
            Some(start) => {
                let ms = if now_ms >= start {
                    now_ms - start
                } else {
                    0
                };
                format_elapsed(ms / 1000, (ms % 1000) as u32)
            },
            None => owned("n/a"),
        }
    }

    /// A tool result: the answer so far is ended, the phase becomes finalizing
    /// once every call has its result, the outcome is counted and shown.
    pub fn on_tool_result(
        &mut self,
        call: ToolCallSummary,
        result: crate::tools::ToolResult,
        now_ms: u64,
    ) -> (ops: Vec<DisplayOp>)
        ensures
            !final(self).started_content,
            final(self).tool_calls_seen == old(self).tool_calls_seen,
            final(self).tool_results_seen == (if old(self).tool_results_seen == usize::MAX {
                usize::MAX
            } else {
                (old(self).tool_results_seen + 1) as usize
            }),
            final(self).phase == (if old(self).tool_calls_seen == 0 {
                DisplayPhase::RunningTools
            } else if final(self).tool_results_seen >= old(self).tool_calls_seen {
                DisplayPhase::Finalizing
            } else {
                DisplayPhase::RunningTools
            }),
            result.success ==> final(self).tool_succeeded == (if old(self).tool_succeeded == usize::MAX {
                usize::MAX
            } else {
                (old(self).tool_succeeded + 1) as usize
            }) && final(self).tool_failed == old(self).tool_failed,
            !result.success ==> final(self).tool_failed == (if old(self).tool_failed == usize::MAX {
                usize::MAX
            } else {
                (old(self).tool_failed + 1) as usize
            }) && final(self).tool_succeeded == old(self).tool_succeeded,
            ops@.len() >= 3,
            ops@[ops@.len() - 2] matches DisplayOp::ToolDone { label, elapsed, success } && label@ == label_spec(
                call.name@,
                call.arguments@,
            ) && success == result.success
                && elapsed@ == elapsed_text(last_start(old(self).tool_started_at@, call.id@), now_ms),
            final(self).tool_started_at@ == without_id(old(self).tool_started_at@, call.id@),
            ops@[ops@.len() - 1] matches DisplayOp::ShowResult { call: c, result: r } && c == call && r == result,
    {
        let mut ops: Vec<DisplayOp> = Vec::new();
        self.end_content(&mut ops);
        self.tool_results_seen = if self.tool_results_seen == usize::MAX {
            usize::MAX
        } else {
            self.tool_results_seen + 1
        };
        self.phase = if self.tool_calls_seen == 0 {
            DisplayPhase::RunningTools
        } else if self.tool_results_seen >= self.tool_calls_seen {
            DisplayPhase::Finalizing
        } else {
            DisplayPhase::RunningTools
        };
        ops.push(DisplayOp::ClearStatus);
        let label = tool_label(&call);
        let elapsed = self.take_elapsed(call.id.as_str(), now_ms);
        let success = result.success;
        if success {
            self.tool_succeeded = if self.tool_succeeded == usize::MAX {
                usize::MAX
            } else {
                self.tool_succeeded + 1
            };
        } else {
            self.tool_failed = if self.tool_failed == usize::MAX {
                usize::MAX
            } else {
                self.tool_failed + 1
            };
        }
        ops.push(DisplayOp::ToolDone { label, elapsed, success });
        ops.push(DisplayOp::ShowResult { call, result });
        ops
    }

    /// The lines that close a turn: the tools summary when tools ran.
    fn push_summary(&self, ops: &mut Vec<DisplayOp>)
        ensures
            self.tool_calls_seen > 0 ==> final(ops)@.len() == old(ops)@.len() + 1 && (final(ops)@.last() matches DisplayOp::Note(t)
                && t@ == summary_text(self.tool_calls_seen as nat, self.tool_succeeded as nat, self.tool_failed as nat)),
            self.tool_calls_seen == 0 ==> final(ops)@ == old(ops)@,
            final(ops)@.subrange(0, old(ops)@.len() as int) == old(ops)@,
    {
        if self.tool_calls_seen > 0 {
            let mut t = chars_of("\u{25e6} tools summary: ");
            push_decimal(&mut t, self.tool_calls_seen);
            push_str(&mut t, " total, ");
            push_decimal(&mut t, self.tool_succeeded);
            push_str(&mut t, " succeeded, ");
            push_decimal(&mut t, self.tool_failed);
            push_str(&mut t, " failed");
            ops.push(DisplayOp::Note(string_from_chars(t.as_slice())));
        }
    }

    /// The turn is done: the status is cleared, the answer ended, the tools
    /// summarised and the time shown.
    pub fn on_done(&mut self, elapsed_secs: u64, subsec_millis: u32) -> (ops: Vec<DisplayOp>)
        requires
            subsec_millis < 1000,
        ensures
            ops@.len() >= 2,
            ops@[0] is ClearStatus,
            closing_ops(*old(self), ops@),
            *final(self) == (TurnDisplay { started_content: false, ..*old(self) }),
            ops@.last() matches DisplayOp::Note(t) && t@ == "\u{25cf} completed in "@ + decimal(elapsed_secs as nat)
                + "."@ + decimal((subsec_millis / 100) as nat) + "s"@,
    {
        let mut ops: Vec<DisplayOp> = Vec::new();
        ops.push(DisplayOp::ClearStatus);
        self.end_content(&mut ops);
        let ghost before = ops@;
        self.push_summary(&mut ops);
        assert(ops@[0] == ops@.subrange(0, before.len() as int)[0]);
        assert(old(self).started_content ==> ops@[1] == ops@.subrange(0, before.len() as int)[1]);
        let ghost mid = ops@;
        let mut t = chars_of("\u{25cf} completed in ");
        let e = format_elapsed(elapsed_secs, subsec_millis);
        push_str(&mut t, e.as_str());
        ops.push(DisplayOp::Note(string_from_chars(t.as_slice())));
        assert(forall|k: int| 0 <= k < mid.len() ==> ops@[k] == mid[k]);
        assert(old(self).tool_calls_seen > 0 ==> mid.len() == before.len() + 1 && mid[before.len() as int] == mid.last());
        ops
    }

    /// The turn failed: the status is cleared, the answer ended, the tools
    /// summarised and the error shown.
    pub fn on_error(&mut self, err: &str) -> (ops: Vec<DisplayOp>)
        ensures
            ops@.len() >= 2,
            ops@[0] is ClearStatus,
            closing_ops(*old(self), ops@),
            *final(self) == (TurnDisplay { started_content: false, ..*old(self) }),
            ops@.last() matches DisplayOp::Failure(t) && t@ == "Error: "@ + err@,
    {
        let mut ops: Vec<DisplayOp> = Vec::new();
        ops.push(DisplayOp::ClearStatus);
        self.end_content(&mut ops);
        let ghost before = ops@;
        self.push_summary(&mut ops);
        assert(ops@[0] == ops@.subrange(0, before.len() as int)[0]);
        assert(old(self).started_content ==> ops@[1] == ops@.subrange(0, before.len() as int)[1]);
        let ghost mid = ops@;
        let mut t = chars_of("Error: ");
        push_str(&mut t, err);
        ops.push(DisplayOp::Failure(string_from_chars(t.as_slice())));
        assert(forall|k: int| 0 <= k < mid.len() ==> ops@[k] == mid[k]);
        assert(old(self).tool_calls_seen > 0 ==> mid.len() == before.len() + 1 && mid[before.len() as int] == mid.last());
        ops
    }

    /// The agent stopped sending: the status is cleared and the answer ended.
    pub fn on_closed(&mut self) -> (ops: Vec<DisplayOp>)
        ensures
            ops@.len() == 1 + if old(self).started_content { 1int } else { 0int },
            ops@[0] is ClearStatus,
            old(self).started_content ==> ops@[1] is EndContent,
            *final(self) == (TurnDisplay { started_content: false, ..*old(self) }),
    {
        let mut ops: Vec<DisplayOp> = Vec::new();
        ops.push(DisplayOp::ClearStatus);
        self.end_content(&mut ops);
        ops
    }
}

} // verus!
