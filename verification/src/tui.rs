//! The full-screen front end's decisions: the conversation entries and the
//! lines they are drawn as, the input line, the command and model pickers,
//! scrolling, what each key press and each agent event does, and the
//! commit-and-push flow it runs. The terminal, the widgets, the agent and the
//! shell are the caller's part.
//!
//! The input line's cursor counts characters, not bytes.
use vstd::prelude::*;

use crate::agent::{AgentEvent, ToolCallSummary};
use crate::inline_feedback::{json_string_field, json_string_member, split_char, split_on_char};
use crate::protocol::owned;
use crate::git_ops::{cleaned_message, commit_command, commit_prompt, needs_upstream, status_command};
use crate::image_input::{strip_lead_exec, strip_trail_exec};
use crate::inline_ui::{comma_joined, direct_commands, leading_word};
use crate::order::texts;
use crate::text::{
    chars_of, decimal, push_chars, push_str, starts_with, starts_with_exec, starts_with_str, string_from_chars, trim,
    trim_chars,
};
use crate::tools::file_ops::{replace_all, replace_all_chars};
use crate::tools::ToolResult;

verus! {

/// Who an entry of the conversation comes from.
#[derive(Debug, Clone, Copy, PartialEq, Eq, Structural)]
pub enum EntryKind {
    User,
    Assistant,
    ToolCall,
    ToolResult,
}

/// One entry of the conversation shown.
#[derive(Debug)]
pub struct Entry {
    pub kind: EntryKind,
    pub content: String,
    /// The answer is still arriving.
    pub streaming: bool,
    /// The tool call of a tool entry.
    pub tool: Option<ToolCallSummary>,
    /// Whether the tool call of a result entry worked.
    pub success: Option<bool>,
}

/// A tool call as plain values.
pub struct CallView {
    pub id: Seq<char>,
    pub name: Seq<char>,
    pub arguments: Seq<char>,
}

/// The view of a tool call.
pub open spec fn call_view(t: ToolCallSummary) -> CallView {
    CallView { id: t.id@, name: t.name@, arguments: t.arguments@ }
}

/// The view of an entry.
pub struct EntryView {
    pub kind: EntryKind,
    pub content: Seq<char>,
    pub streaming: bool,
    pub tool: Option<CallView>,
    pub success: Option<bool>,
}

impl View for Entry {
    type V = EntryView;

    open spec fn view(&self) -> EntryView {
        EntryView {
            kind: self.kind,
            content: self.content@,
            streaming: self.streaming,
            tool: match self.tool {
                Some(t) => Some(call_view(t)),
                None => None,
            },
            success: self.success,
        }
    }
}

/// The text a tool result entry shows: the output, else the error, else nothing.
pub open spec fn result_text(r: ToolResult) -> Seq<char> {
    match r.output {
        Some(o) => o@,
        None => match r.error {
            Some(e) => e@,
            None => Seq::empty(),
        },
    }
}

impl Entry {
    /// A line the user sent.
    pub fn user(content: String) -> (r: Entry)
        ensures
            r.kind == EntryKind::User && r.content == content && !r.streaming && r.tool is None && r.success is None,
    {
        Entry { kind: EntryKind::User, content, streaming: false, tool: None, success: None }
    }

    /// A text from the assistant or the front end.
    pub fn assistant(content: String) -> (r: Entry)
        ensures
            r.kind == EntryKind::Assistant && r.content == content && !r.streaming && r.tool is None
                && r.success is None,
    {
        Entry { kind: EntryKind::Assistant, content, streaming: false, tool: None, success: None }
    }

    /// A tool call that is running.
    pub fn tool_call(tool: ToolCallSummary) -> (r: Entry)
        ensures
            r.kind == EntryKind::ToolCall && r.content@ == "Executing..."@ && !r.streaming && r.tool == Some(tool)
                && r.success is None,
    {
        Entry { kind: EntryKind::ToolCall, content: owned("Executing..."), streaming: false, tool: Some(tool), success: None }
    }

    /// The result of a tool call (see `result_text`).
    pub fn tool_result(tool: ToolCallSummary, result: ToolResult) -> (r: Entry)
        ensures
            r.kind == EntryKind::ToolResult && r.content@ == result_text(result) && !r.streaming
                && r.tool == Some(tool) && r.success == Some(result.success),
    {
        let success = result.success;
        let content = match result.output {
            Some(o) => o,
            None => match result.error {
                Some(e) => e,
                None => String::new(),
            },
        };
        Entry { kind: EntryKind::ToolResult, content, streaming: false, tool: Some(tool), success: Some(success) }
    }
}

/// How a drawn line is coloured.
#[derive(Debug, Clone, Copy, PartialEq, Eq, Structural)]
pub enum Tone {
    /// The terminal's own colour.
    Plain,
    /// Grey: the result of a tool call that worked.
    Gray,
    /// Red: the result of a tool call that failed.
    Red,
    /// Cyan and bold: a heading.
    Title,
}

/// One line of the conversation as drawn.
#[derive(Debug)]
pub struct TuiLine {
    pub text: String,
    pub tone: Tone,
}

/// The text and tone of each line.
pub open spec fn line_views(lines: Seq<TuiLine>) -> Seq<(Seq<char>, Tone)> {
    lines.map_values(|l: TuiLine| (l.text@, l.tone))
}

/// `n` spaces.
pub open spec fn spaces(n: nat) -> Seq<char> {
    Seq::new(n, |i: int| ' ')
}

/// A text cut into lines (`\r\n` read as a line break), the first after
/// `prefix` and the others after `pad` spaces; the prefix alone for an empty text.
pub open spec fn prefixed_lines(prefix: Seq<char>, pad: nat, content: Seq<char>, tone: Tone) -> Seq<
    (Seq<char>, Tone),
> {
    if content.len() == 0 {
        seq![(prefix, tone)]
    } else {
        let pieces = split_char(replace_all(content, "\r\n"@, "\n"@), '\n');
        Seq::new(
            pieces.len(),
            |i: int|
                (
                    if i == 0 {
                        prefix + pieces[0]
                    } else {
                        spaces(pad) + pieces[i]
                    },
                    tone,
                ),
        )
    }
}

/// Cuts a text into drawn lines (see `prefixed_lines`); the lines after the
/// first are indented by as many spaces as the prefix has characters.
pub fn split_prefixed_lines(prefix: &str, content: &str, tone: Tone) -> (r: Vec<TuiLine>)
    ensures
        line_views(r@) == prefixed_lines(prefix@, prefix@.len(), content@, tone),
{
    let mut out: Vec<TuiLine> = Vec::new();
    let cs = chars_of(content);
    if cs.len() == 0 {
        out.push(TuiLine { text: owned(prefix), tone });
        assert(line_views(out@) =~= prefixed_lines(prefix@, prefix@.len(), content@, tone));
        return out;
    }
    let pad = chars_of(prefix).len();
    let crlf = chars_of("\r\n");
    let lf = chars_of("\n");
    let normalized = replace_all_chars(cs.as_slice(), crlf.as_slice(), lf.as_slice());
    let pieces = split_on_char(normalized.as_slice(), '\n');
    let ghost ps = split_char(replace_all(content@, "\r\n"@, "\n"@), '\n');
    let ghost want = prefixed_lines(prefix@, pad as nat, content@, tone);
    assert(crate::order::texts(pieces@) == ps);
    assert(pad == prefix@.len());
    assert(want =~= Seq::new(
        ps.len(),
        |j: int|
            (
                if j == 0 {
                    prefix@ + ps[0]
                } else {
                    spaces(pad as nat) + ps[j]
                },
                tone,
            ),
    ));
    let mut i: usize = 0;
    while i < pieces.len()
        invariant
            i <= pieces.len(),
            crate::order::texts(pieces@) == ps,
            ps.len() == want.len(),
            want == prefixed_lines(prefix@, pad as nat, content@, tone),
            content@.len() > 0,
            pad == prefix@.len(),
            want == Seq::new(
                ps.len(),
                |j: int|
                    (
                        if j == 0 {
                            prefix@ + ps[0]
                        } else {
                            spaces(pad as nat) + ps[j]
                        },
                        tone,
                    ),
            ),
            line_views(out@) == want.take(i as int),
        decreases pieces.len() - i,
    {
        let mut text = if i == 0 {
            chars_of(prefix)
        } else {
            let mut sp: Vec<char> = Vec::new();
            let mut k: usize = 0;
            while k < pad
                invariant
                    k <= pad,
                    sp@ == spaces(k as nat),
                decreases pad - k,
            {
                sp.push(' ');
                k += 1;
                assert(sp@ =~= spaces(k as nat));
            }
            sp
        };
        push_str(&mut text, pieces[i].as_str());
        assert(ps[i as int] == pieces@[i as int]@);
        assert(text@ == (if i == 0 { prefix@ } else { spaces(pad as nat) }) + ps[i as int]);
        assert(i < ps.len());
        assert(want[i as int] == (
            if i == 0 {
                prefix@ + ps[0]
            } else {
                spaces(pad as nat) + ps[i as int]
            },
            tone,
        ));
        assert(want[i as int] == (text@, tone));
        let line = TuiLine { text: string_from_chars(text.as_slice()), tone };
        let ghost before = out@;
        out.push(line);
        assert(line_views(out@) =~= line_views(before).push(want[i as int]));
        assert(line_views(out@) =~= want.take(i + 1));
        i += 1;
    }
    assert(want.take(i as int) =~= want);
    out
}

/// The short name of a tool in the conversation.
pub open spec fn tui_tool_name(name: Seq<char>) -> Seq<char> {
    if name == "view_file"@ {
        "Read"@
    } else if name == "str_replace_editor"@ {
        "Update"@
    } else if name == "create_file"@ {
        "Create"@
    } else if name == "bash"@ {
        "Bash"@
    } else {
        "Tool"@
    }
}

/// The short name of a tool in the conversation (see `tui_tool_name`).
pub fn pretty_tool_name(name: &str) -> (r: &'static str)
    ensures
        r@ == tui_tool_name(name@),
{
    let n = chars_of(name);
    if crate::text::eq_str(n.as_slice(), "view_file") {
        "Read"
    } else if crate::text::eq_str(n.as_slice(), "str_replace_editor") {
        "Update"
    } else if crate::text::eq_str(n.as_slice(), "create_file") {
        "Create"
    } else if crate::text::eq_str(n.as_slice(), "bash") {
        "Bash"
    } else {
        "Tool"
    }
}

/// What a tool call acts on: its arguments' `path`, else their `command`, else nothing.
pub open spec fn tool_path_spec(arguments: Seq<char>) -> Seq<char> {
    match json_string_member(arguments, "path"@) {
        Some(p) => p,
        None => match json_string_member(arguments, "command"@) {
            Some(c) => c,
            None => Seq::empty(),
        },
    }
}

/// What a tool call acts on (see `tool_path_spec`).
pub fn tool_path(tool: &ToolCallSummary) -> (r: String)
    ensures
        r@ == tool_path_spec(tool.arguments@),
{
    match json_string_field(tool.arguments.as_str(), "path") {
        Some(p) => p,
        None => match json_string_field(tool.arguments.as_str(), "command") {
            Some(c) => c,
            None => String::new(),
        },
    }
}

/// The name and arguments of the tool of an entry (a stand-in `tool` with no
/// arguments when it has none).
pub open spec fn entry_tool(e: EntryView) -> (Seq<char>, Seq<char>) {
    match e.tool {
        Some(t) => (t.name, t.arguments),
        None => ("tool"@, Seq::empty()),
    }
}

/// The lines an entry is drawn as: the user's line after `> `, the assistant's
/// after `o ` (with a `|` while it streams), a tool entry as its label then its
/// text after `  -> `, grey when it worked and red when it failed.
pub open spec fn entry_lines_spec(e: EntryView) -> Seq<(Seq<char>, Tone)> {
    match e.kind {
        EntryKind::User => prefixed_lines("> "@, 2, e.content, Tone::Plain),
        EntryKind::Assistant => prefixed_lines("o "@, 2, e.content, Tone::Plain) + if e.streaming {
            seq![("|"@, Tone::Plain)]
        } else {
            Seq::empty()
        },
        _ => {
            let (name, args) = entry_tool(e);
            let tone = match e.success {
                Some(false) => Tone::Red,
                _ => Tone::Gray,
            };
            seq![("o "@ + tui_tool_name(name) + "("@ + tool_path_spec(args) + ")"@, Tone::Plain)]
                + prefixed_lines("  -> "@, 5, e.content, tone)
        },
    }
}

/// The lines an entry is drawn as (see `entry_lines_spec`).
pub fn entry_lines(entry: &Entry) -> (r: Vec<TuiLine>)
    ensures
        line_views(r@) == entry_lines_spec(entry@),
{
    proof {
        reveal_strlit("> ");
        reveal_strlit("o ");
        reveal_strlit("  -> ");
    }
    match entry.kind {
        EntryKind::User => split_prefixed_lines("> ", entry.content.as_str(), Tone::Plain),
        EntryKind::Assistant => {
            let mut lines = split_prefixed_lines("o ", entry.content.as_str(), Tone::Plain);
            if entry.streaming {
                let ghost before = line_views(lines@);
                lines.push(TuiLine { text: owned("|"), tone: Tone::Plain });
                assert(line_views(lines@) =~= before + seq![("|"@, Tone::Plain)]);
            }
            lines
        },
        _ => {
            let (name, path) = match &entry.tool {
                Some(t) => (pretty_tool_name(t.name.as_str()), tool_path(t)),
                None => {
                    let stand_in = ToolCallSummary { id: owned("unknown"), name: owned("tool"), arguments: String::new() };
                    (pretty_tool_name(stand_in.name.as_str()), tool_path(&stand_in))
                },
            };
            let tone = match entry.success {
                Some(false) => Tone::Red,
                _ => Tone::Gray,
            };
            let mut label = chars_of("o ");
            push_str(&mut label, name);
            push_str(&mut label, "(");
            push_str(&mut label, path.as_str());
            push_str(&mut label, ")");
            let mut lines: Vec<TuiLine> = Vec::new();
            lines.push(TuiLine { text: string_from_chars(label.as_slice()), tone: Tone::Plain });
            let mut rest = split_prefixed_lines("  -> ", entry.content.as_str(), tone);
            let ghost head = lines@;
            let ghost tail = rest@;
            lines.append(&mut rest);
            assert(line_views(lines@) =~= line_views(head) + line_views(tail));
            lines
        },
    }
}


/// The commands offered under the input line, with what they do.
pub open spec fn tui_suggestions() -> Seq<(Seq<char>, Seq<char>)> {
    seq![
        ("/help"@, "Show help information"@),
        ("/clear"@, "Clear chat history"@),
        ("/models"@, "Switch model"@),
        ("/commit-and-push"@, "AI commit and push"@),
        ("/exit"@, "Exit application"@),
    ]
}

/// The suggestions of `cmds` whose command starts with `input`, in order.
pub open spec fn suggestions_from(cmds: Seq<(Seq<char>, Seq<char>)>, input: Seq<char>) -> Seq<
    (Seq<char>, Seq<char>),
>
    decreases cmds.len(),
{
    if cmds.len() == 0 {
        Seq::empty()
    } else if starts_with(cmds.last().0, input) {
        suggestions_from(cmds.drop_last(), input).push(cmds.last())
    } else {
        suggestions_from(cmds.drop_last(), input)
    }
}

/// The suggestions for an input line: only for a line that starts with `/`,
/// the commands that start with the whole line.
pub open spec fn filtered_spec(input: Seq<char>) -> Seq<(Seq<char>, Seq<char>)> {
    if starts_with(input, "/"@) {
        suggestions_from(tui_suggestions(), input)
    } else {
        Seq::empty()
    }
}

/// The suggestions for an input line (see `filtered_spec`).
pub fn filtered_suggestions_for(input: &[char]) -> (r: Vec<(&'static str, &'static str)>)
    ensures
        r@.map_values(|p: (&'static str, &'static str)| (p.0@, p.1@)) == filtered_spec(input@),
{
    let mut out: Vec<(&'static str, &'static str)> = Vec::new();
    if !starts_with_str(input, "/") {
        assert(out@.map_values(|p: (&'static str, &'static str)| (p.0@, p.1@)) =~= filtered_spec(input@));
        return out;
    }
    let list: Vec<(&'static str, &'static str)> = vec![
        ("/help", "Show help information"),
        ("/clear", "Clear chat history"),
        ("/models", "Switch model"),
        ("/commit-and-push", "AI commit and push"),
        ("/exit", "Exit application"),
    ];
    let ghost all = tui_suggestions();
    assert(list@.map_values(|p: (&'static str, &'static str)| (p.0@, p.1@)) =~= all);
    let mut i: usize = 0;
    while i < list.len()
        invariant
            i <= list.len(),
            list@.map_values(|p: (&'static str, &'static str)| (p.0@, p.1@)) == all,
            all == tui_suggestions(),
            out@.map_values(|p: (&'static str, &'static str)| (p.0@, p.1@)) == suggestions_from(
                all.take(i as int),
                input@,
            ),
        decreases list.len() - i,
    {
        assert(all.take(i + 1).drop_last() =~= all.take(i as int));
        assert(all.take(i + 1).last() == (list@[i as int].0@, list@[i as int].1@));
        let cmd = chars_of(list[i].0);
        if starts_with_exec(cmd.as_slice(), input) {
            let ghost before = out@;
            out.push(list[i]);
            assert(out@.map_values(|p: (&'static str, &'static str)| (p.0@, p.1@)) =~= before.map_values(
                |p: (&'static str, &'static str)| (p.0@, p.1@),
            ).push(all.take(i + 1).last()));
        }
        i += 1;
    }
    assert(all.take(5) =~= all);
    out
}

/// What a key press does in the full-screen front end.
#[derive(Debug, Clone, Copy, PartialEq, Eq, Structural)]
pub enum TuiKey {
    /// Ctrl+C.
    CtrlC,
    /// Shift+Tab.
    BackTab,
    Esc,
    Up,
    Down,
    Tab,
    Enter,
    PageUp,
    PageDown,
    Backspace,
    Delete,
    Left,
    Right,
    Home,
    End,
    /// A character typed without Control.
    Char(char),
    /// A character typed with Control (but Ctrl+C).
    CtrlChar(char),
    /// Any other key.
    Other,
}

/// What the caller does after a key press or a submitted line.
#[derive(Debug)]
pub enum TuiAction {
    /// Nothing but drawing again.
    Nothing,
    /// Cancel the answer being generated.
    CancelTurn,
    /// Switch the agent and the project settings to this model, then call
    /// `model_switched`.
    SwitchModel(String),
    /// Run the commit-and-push flow (see `TuiCommitFlow`).
    RunCommitAndPush,
    /// Run this line in the shell, then push `direct_command_entry` and send `Done`.
    RunDirectCommand(String),
    /// Send this message to the agent and forward its events.
    SendToAgent(String),
}

/// The view of an action.
pub enum ActionView {
    Nothing,
    CancelTurn,
    SwitchModel(Seq<char>),
    RunCommitAndPush,
    RunDirectCommand(Seq<char>),
    SendToAgent(Seq<char>),
}

impl View for TuiAction {
    type V = ActionView;

    open spec fn view(&self) -> ActionView {
        match self {
            TuiAction::Nothing => ActionView::Nothing,
            TuiAction::CancelTurn => ActionView::CancelTurn,
            TuiAction::SwitchModel(m) => ActionView::SwitchModel(m@),
            TuiAction::RunCommitAndPush => ActionView::RunCommitAndPush,
            TuiAction::RunDirectCommand(c) => ActionView::RunDirectCommand(c@),
            TuiAction::SendToAgent(m) => ActionView::SendToAgent(m@),
        }
    }
}

/// The state of the full-screen front end.
pub struct App {
    pub entries: Vec<Entry>,
    pub input: Vec<char>,
    /// Characters before the cursor.
    pub cursor: usize,
    /// The lines sent so far.
    pub history: Vec<String>,
    /// The history entry shown, if the input comes from the history.
    pub history_idx: Option<usize>,
    pub show_suggestions: bool,
    pub suggestion_idx: usize,
    pub show_models: bool,
    pub model_idx: usize,
    pub available_models: Vec<String>,
    pub current_model: String,
    /// The agent or the shell is working.
    pub processing: bool,
    pub auto_edit: bool,
    /// The entry that the answer being streamed goes to.
    pub stream_idx: Option<usize>,
    /// The first line shown when the view does not follow the end.
    pub chat_scroll: usize,
    /// The view follows the end of the conversation.
    pub follow_tail: bool,
    pub quit: bool,
}

/// The view of the state.
pub struct AppView {
    pub entries: Seq<EntryView>,
    pub input: Seq<char>,
    pub cursor: int,
    pub history: Seq<Seq<char>>,
    pub history_idx: Option<int>,
    pub show_suggestions: bool,
    pub suggestion_idx: int,
    pub show_models: bool,
    pub model_idx: int,
    pub models: Seq<Seq<char>>,
    pub current_model: Seq<char>,
    pub processing: bool,
    pub auto_edit: bool,
    pub stream_idx: Option<int>,
    pub chat_scroll: int,
    pub follow_tail: bool,
    pub quit: bool,
}

/// The views of entries.
pub open spec fn entry_views(es: Seq<Entry>) -> Seq<EntryView> {
    es.map_values(|e: Entry| e@)
}

impl View for App {
    type V = AppView;

    open spec fn view(&self) -> AppView {
        AppView {
            entries: entry_views(self.entries@),
            input: self.input@,
            cursor: self.cursor as int,
            history: texts(self.history@),
            history_idx: match self.history_idx {
                Some(i) => Some(i as int),
                None => None,
            },
            show_suggestions: self.show_suggestions,
            suggestion_idx: self.suggestion_idx as int,
            show_models: self.show_models,
            model_idx: self.model_idx as int,
            models: texts(self.available_models@),
            current_model: self.current_model@,
            processing: self.processing,
            auto_edit: self.auto_edit,
            stream_idx: match self.stream_idx {
                Some(i) => Some(i as int),
                None => None,
            },
            chat_scroll: self.chat_scroll as int,
            follow_tail: self.follow_tail,
            quit: self.quit,
        }
    }
}

/// A consistent state: the cursor lies within the input, the history entry
/// exists, the model picked is one of the models (0 when there are none), and a
/// suggestion shown is one of the suggestions (0 when there are none).
pub open spec fn app_wf(m: AppView) -> bool {
    &&& 0 <= m.cursor <= m.input.len()
    &&& (m.history_idx matches Some(i) ==> 0 <= i < m.history.len())
    &&& 0 <= m.model_idx && (m.model_idx == 0 || m.model_idx < m.models.len())
    &&& 0 <= m.suggestion_idx
    &&& (m.show_suggestions ==> (m.suggestion_idx == 0 || m.suggestion_idx < filtered_spec(m.input).len()))
    &&& 0 <= m.chat_scroll <= usize::MAX
}

/// `a - b`, or 0 when `b` is larger.
pub open spec fn sat_sub(a: int, b: int) -> int {
    if a >= b {
        a - b
    } else {
        0
    }
}

/// `a + b`, kept within `usize`.
pub open spec fn sat_add(a: int, b: int) -> int {
    if a + b > usize::MAX {
        usize::MAX as int
    } else {
        a + b
    }
}

/// The lines the entries are drawn as, one entry after the other.
pub open spec fn conversation_lines(es: Seq<EntryView>) -> Seq<(Seq<char>, Tone)>
    decreases es.len(),
{
    if es.len() == 0 {
        Seq::empty()
    } else {
        conversation_lines(es.drop_last()) + entry_lines_spec(es.last())
    }
}

/// How many lines the entries are drawn as.
pub open spec fn line_total(es: Seq<EntryView>) -> nat {
    conversation_lines(es).len()
}

/// How many lines the conversation is drawn as: the six lines of the tips
/// when it is empty (kept within `usize`).
pub open spec fn line_count(m: AppView) -> int {
    if m.entries.len() == 0 {
        6
    } else {
        sat_add(0, line_total(m.entries) as int)
    }
}

/// The suggestions shown again for the new input, the first one picked.
pub open spec fn refreshed(m: AppView) -> AppView {
    AppView { show_suggestions: starts_with(m.input, "/"@), suggestion_idx: 0, ..m }
}

/// Nothing running any more.
pub open spec fn reset_spec(m: AppView) -> AppView {
    AppView { processing: false, stream_idx: None, ..m }
}

/// An entry added at the end.
pub open spec fn pushed(m: AppView, e: EntryView) -> AppView {
    AppView { entries: m.entries.push(e), ..m }
}

/// A plain entry of kind `kind` with `content`.
pub open spec fn plain_entry(kind: EntryKind, content: Seq<char>) -> EntryView {
    EntryView { kind, content, streaming: false, tool: None, success: None }
}

/// The mouse wheel up: the view stops following the end and moves up three lines.
pub open spec fn scroll_up_spec(m: AppView) -> AppView {
    AppView { follow_tail: false, chat_scroll: sat_sub(m.chat_scroll, 3), ..m }
}

/// The mouse wheel down: unless the view follows the end, it moves down three
/// lines and follows the end again once it reaches the last line.
pub open spec fn scroll_down_spec(m: AppView) -> AppView {
    if m.follow_tail {
        m
    } else {
        let s = sat_add(m.chat_scroll, 3);
        AppView { chat_scroll: s, follow_tail: s >= sat_sub(line_count(m), 1), ..m }
    }
}

/// Page Up: ten lines up from where the view is (the last line when it
/// follows the end), no longer following the end.
pub open spec fn page_up_spec(m: AppView) -> AppView {
    let total = line_count(m);
    if total == 0 {
        m
    } else {
        let current = if m.follow_tail {
            total - 1
        } else {
            m.chat_scroll
        };
        AppView { chat_scroll: sat_sub(current, 10), follow_tail: false, ..m }
    }
}

/// Page Down: ten lines down from where the view is, following the end again
/// once the last line is reached.
pub open spec fn page_down_spec(m: AppView) -> AppView {
    let total = line_count(m);
    if total == 0 {
        AppView { follow_tail: true, chat_scroll: 0, ..m }
    } else {
        let current = if m.follow_tail {
            total - 1
        } else {
            m.chat_scroll
        };
        let next = sat_add(current, 10);
        if next >= total - 1 {
            AppView { follow_tail: true, ..m }
        } else {
            AppView { chat_scroll: next, follow_tail: false, ..m }
        }
    }
}

/// Up in the input line: the previous history entry (the last one at first).
pub open spec fn history_up_spec(m: AppView) -> AppView {
    if m.history.len() == 0 {
        m
    } else {
        let idx = match m.history_idx {
            Some(i) => sat_sub(i, 1),
            None => m.history.len() - 1,
        };
        refreshed(
            AppView {
                history_idx: Some(idx),
                input: m.history[idx],
                cursor: m.history[idx].len() as int,
                ..m
            },
        )
    }
}

/// Down in the input line: the next history entry, or an empty line after the last.
pub open spec fn history_down_spec(m: AppView) -> AppView {
    if m.history.len() == 0 {
        m
    } else {
        match m.history_idx {
            None => refreshed(m),
            Some(i) => if i + 1 >= m.history.len() {
                refreshed(AppView { history_idx: None, input: Seq::empty(), cursor: 0, ..m })
            } else {
                refreshed(
                    AppView {
                        history_idx: Some(i + 1),
                        input: m.history[i + 1],
                        cursor: m.history[i + 1].len() as int,
                        ..m
                    },
                )
            },
        }
    }
}

/// The help shown for `/help`.
pub open spec fn tui_help() -> Seq<char> {
    "Grok Build Help:\n\n/clear\n/help\n/models\n/models <name>\n/commit-and-push\n/exit\n\nNavigation: mouse wheel + PageUp/PageDown scroll history, Esc cancels active generation\n\nDirect commands: ls, pwd, cd, cat, mkdir, touch, echo, grep, find, cp, mv, rm"@
}

/// The help shown for `/help`.
pub fn tui_help_text() -> (r: &'static str)
    ensures
        r@ == tui_help(),
{
    "Grok Build Help:\n\n/clear\n/help\n/models\n/models <name>\n/commit-and-push\n/exit\n\nNavigation: mouse wheel + PageUp/PageDown scroll history, Esc cancels active generation\n\nDirect commands: ls, pwd, cd, cat, mkdir, touch, echo, grep, find, cp, mv, rm"
}

/// What a submitted line does: nothing when blank; `exit`, `quit` and `/exit`
/// quit; otherwise the line joins the history and `/clear`, `/help`,
/// `/models` and `/models <name>` act at once, while `/commit-and-push`, a
/// direct shell command and any other message are shown and start work.
pub open spec fn submit_spec(m: AppView, raw: Seq<char>) -> (AppView, ActionView) {
    let msg = trim(raw);
    if msg.len() == 0 {
        (m, ActionView::Nothing)
    } else if msg == "exit"@ || msg == "quit"@ || msg == "/exit"@ {
        (AppView { quit: true, ..m }, ActionView::Nothing)
    } else {
        let m1 = AppView { history: m.history.push(msg), history_idx: None, ..m };
        if msg == "/clear"@ {
            (reset_spec(AppView { entries: Seq::empty(), ..m1 }), ActionView::Nothing)
        } else if msg == "/help"@ {
            (pushed(m1, plain_entry(EntryKind::Assistant, tui_help())), ActionView::Nothing)
        } else if msg == "/models"@ {
            (AppView { show_models: true, model_idx: 0, ..m1 }, ActionView::Nothing)
        } else if starts_with(msg, "/models "@) {
            let model = trim(msg.skip(8));
            if m.models.contains(model) {
                (m1, ActionView::SwitchModel(model))
            } else {
                (
                    pushed(
                        m1,
                        plain_entry(
                            EntryKind::Assistant,
                            "Invalid model: "@ + model + "\nAvailable models: "@ + comma_joined(m.models),
                        ),
                    ),
                    ActionView::Nothing,
                )
            }
        } else if msg == "/commit-and-push"@ {
            (
                AppView { processing: true, ..pushed(m1, plain_entry(EntryKind::User, msg)) },
                ActionView::RunCommitAndPush,
            )
        } else if direct_commands().contains(leading_word(msg)) {
            (
                AppView { processing: true, ..pushed(m1, plain_entry(EntryKind::User, msg)) },
                ActionView::RunDirectCommand(msg),
            )
        } else {
            (
                AppView { processing: true, ..pushed(m1, plain_entry(EntryKind::User, msg)) },
                ActionView::SendToAgent(msg),
            )
        }
    }
}

/// A key press while the model list is open: Esc closes it, Up and Down move
/// through it (wrapping around), Enter and Tab pick the model.
pub open spec fn models_key_spec(m: AppView, key: TuiKey) -> (AppView, ActionView) {
    let n = m.models.len() as int;
    match key {
        TuiKey::Esc => (AppView { show_models: false, ..m }, ActionView::Nothing),
        TuiKey::Up => (
            AppView {
                model_idx: if m.model_idx == 0 {
                    sat_sub(n, 1)
                } else {
                    m.model_idx - 1
                },
                ..m
            },
            ActionView::Nothing,
        ),
        TuiKey::Down => if n > 0 {
            (AppView { model_idx: (m.model_idx + 1) % n, ..m }, ActionView::Nothing)
        } else {
            (m, ActionView::Nothing)
        },
        TuiKey::Enter | TuiKey::Tab => if n > 0 {
            (m, ActionView::SwitchModel(m.models[m.model_idx]))
        } else {
            (m, ActionView::Nothing)
        },
        _ => (m, ActionView::Nothing),
    }
}

/// A key press while suggestions are shown: Up and Down move through them
/// (wrapping around) and Tab puts the one picked in the input.
pub open spec fn suggestion_key_spec(m: AppView, key: TuiKey) -> AppView {
    let f = filtered_spec(m.input);
    let n = f.len() as int;
    match key {
        TuiKey::Up => AppView {
            suggestion_idx: if m.suggestion_idx == 0 {
                n - 1
            } else {
                m.suggestion_idx - 1
            },
            ..m
        },
        TuiKey::Down => AppView { suggestion_idx: (m.suggestion_idx + 1) % n, ..m },
        _ => {
            let text = f[m.suggestion_idx].0.push(' ');
            AppView { input: text, cursor: text.len() as int, show_suggestions: false, ..m }
        },
    }
}

/// A key press in the input line.
pub open spec fn main_key_spec(m: AppView, key: TuiKey) -> (AppView, ActionView) {
    let len = m.input.len() as int;
    match key {
        TuiKey::PageUp => (page_up_spec(m), ActionView::Nothing),
        TuiKey::PageDown => (page_down_spec(m), ActionView::Nothing),
        TuiKey::Enter => submit_spec(refreshed(AppView { input: Seq::empty(), cursor: 0, ..m }), m.input),
        TuiKey::Backspace => if m.cursor > 0 {
            (
                refreshed(AppView { input: m.input.remove(m.cursor - 1), cursor: m.cursor - 1, ..m }),
                ActionView::Nothing,
            )
        } else {
            (m, ActionView::Nothing)
        },
        TuiKey::Delete => if m.cursor < len {
            (refreshed(AppView { input: m.input.remove(m.cursor), ..m }), ActionView::Nothing)
        } else {
            (m, ActionView::Nothing)
        },
        TuiKey::Left => (AppView { cursor: sat_sub(m.cursor, 1), ..m }, ActionView::Nothing),
        TuiKey::Right => (
            AppView {
                cursor: if m.cursor < len {
                    m.cursor + 1
                } else {
                    len
                },
                ..m
            },
            ActionView::Nothing,
        ),
        TuiKey::Home => (AppView { cursor: 0, ..m }, ActionView::Nothing),
        TuiKey::End => (AppView { cursor: len, ..m }, ActionView::Nothing),
        TuiKey::Up => (history_up_spec(m), ActionView::Nothing),
        TuiKey::Down => (history_down_spec(m), ActionView::Nothing),
        TuiKey::Char(c) => (
            refreshed(AppView { input: m.input.insert(m.cursor, c), cursor: m.cursor + 1, ..m }),
            ActionView::Nothing,
        ),
        TuiKey::CtrlChar(c) => if c == 'u' {
            (refreshed(AppView { input: Seq::empty(), cursor: 0, ..m }), ActionView::Nothing)
        } else {
            (m, ActionView::Nothing)
        },
        _ => (m, ActionView::Nothing),
    }
}

/// What a key press does: Ctrl+C quits on an empty line and clears it
/// otherwise; Shift+Tab toggles auto-edit; with the model list open the key
/// goes to it; Esc cancels the work under way, or hides the suggestions; Up,
/// Down and Tab go to the suggestions when some are shown; the rest edits the
/// input line.
pub open spec fn key_spec(m: AppView, key: TuiKey) -> (AppView, ActionView) {
    match key {
        TuiKey::CtrlC => if m.input.len() == 0 {
            (AppView { quit: true, ..m }, ActionView::Nothing)
        } else {
            (refreshed(AppView { input: Seq::empty(), cursor: 0, ..m }), ActionView::Nothing)
        },
        TuiKey::BackTab => (AppView { auto_edit: !m.auto_edit, ..m }, ActionView::Nothing),
        _ => if m.show_models {
            models_key_spec(m, key)
        } else if key == TuiKey::Esc {
            if m.processing {
                (reset_spec(m), ActionView::CancelTurn)
            } else {
                (AppView { show_suggestions: false, ..m }, ActionView::Nothing)
            }
        } else if m.show_suggestions && filtered_spec(m.input).len() > 0 && (key == TuiKey::Up || key
            == TuiKey::Down || key == TuiKey::Tab) {
            (suggestion_key_spec(m, key), ActionView::Nothing)
        } else {
            main_key_spec(m, key)
        },
    }
}

/// The state after a model switch: the model is current, it is announced, and
/// the model list is closed.
pub open spec fn model_switched_spec(m: AppView, model: Seq<char>) -> AppView {
    AppView {
        current_model: model,
        show_models: false,
        ..pushed(m, plain_entry(EntryKind::Assistant, "Switched to model: "@ + model))
    }
}


/// The names joined by `, `.
fn join_commas(names: &[String]) -> (r: String)
    ensures
        r@ == comma_joined(texts(names@)),
{
    let mut out: Vec<char> = Vec::new();
    let ghost ms = texts(names@);
    let mut i: usize = 0;
    while i < names.len()
        invariant
            i <= names.len(),
            ms == texts(names@),
            out@ == comma_joined(ms.take(i as int)),
        decreases names.len() - i,
    {
        if i > 0 {
            push_str(&mut out, ", ");
        }
        push_str(&mut out, names[i].as_str());
        proof {
            assert(ms.take(i + 1).drop_last() =~= ms.take(i as int));
            if i == 0 {
                assert(ms.take(1) =~= seq![ms[0]]);
            }
        }
        i += 1;
    }
    assert(ms.take(names.len() as int) =~= ms);
    string_from_chars(out.as_slice())
}

impl App {
    /// The state at the start: nothing shown, the view following the end.
    pub fn new(current_model: String, available_models: Vec<String>) -> (r: App)
        ensures
            r@ == (AppView {
                entries: Seq::empty(),
                input: Seq::empty(),
                cursor: 0,
                history: Seq::empty(),
                history_idx: None,
                show_suggestions: false,
                suggestion_idx: 0,
                show_models: false,
                model_idx: 0,
                models: texts(available_models@),
                current_model: current_model@,
                processing: false,
                auto_edit: false,
                stream_idx: None,
                chat_scroll: 0,
                follow_tail: true,
                quit: false,
            }),
            app_wf(r@),
    {
        let r = App {
            entries: Vec::new(),
            input: Vec::new(),
            cursor: 0,
            history: Vec::new(),
            history_idx: None,
            show_suggestions: false,
            suggestion_idx: 0,
            show_models: false,
            model_idx: 0,
            available_models,
            current_model,
            processing: false,
            auto_edit: false,
            stream_idx: None,
            chat_scroll: 0,
            follow_tail: true,
            quit: false,
        };
        assert(r@.entries =~= Seq::<EntryView>::empty());
        assert(r@.history =~= Seq::<Seq<char>>::empty());
        r
    }

    /// Nothing running any more (see `reset_spec`).
    pub fn reset_processing(&mut self)
        ensures
            final(self)@ == reset_spec(old(self)@),
    {
        self.processing = false;
        self.stream_idx = None;
    }

    /// The suggestions for the input line (see `filtered_spec`).
    pub fn filtered_suggestions(&self) -> (r: Vec<(&'static str, &'static str)>)
        ensures
            r@.map_values(|p: (&'static str, &'static str)| (p.0@, p.1@)) == filtered_spec(self@.input),
    {
        filtered_suggestions_for(self.input.as_slice())
    }

    /// The suggestions shown again for the new input (see `refreshed`).
    fn refresh_suggestions(&mut self)
        ensures
            final(self)@ == refreshed(old(self)@),
    {
        self.show_suggestions = starts_with_str(self.input.as_slice(), "/");
        self.suggestion_idx = 0;
    }

    /// Adds an entry at the end.
    pub fn push_entry(&mut self, e: Entry)
        ensures
            final(self)@ == pushed(old(self)@, e@),
    {
        let ghost before = self.entries@;
        self.entries.push(e);
        assert(entry_views(self.entries@) =~= entry_views(before).push(e@));
    }

    /// How many lines the conversation is drawn as (see `line_count`).
    pub fn history_line_count(&self) -> (r: usize)
        ensures
            r == line_count(self@),
    {
        if self.entries.len() == 0 {
            return 6;
        }
        let ghost es = entry_views(self.entries@);
        let mut total: usize = 0;
        let mut i: usize = 0;
        while i < self.entries.len()
            invariant
                i <= self.entries@.len(),
                es == entry_views(self.entries@),
                total == sat_add(0, line_total(es.take(i as int)) as int),
            decreases self.entries.len() - i,
        {
            assert(es.take(i + 1).drop_last() =~= es.take(i as int));
            assert(es.take(i + 1).last() == self.entries@[i as int]@);
            let n = entry_lines(&self.entries[i]).len();
            total = if total > usize::MAX - n {
                usize::MAX
            } else {
                total + n
            };
            i += 1;
        }
        assert(es.take(i as int) =~= es);
        total
    }

    /// The mouse wheel up (see `scroll_up_spec`).
    pub fn scroll_up(&mut self)
        ensures
            final(self)@ == scroll_up_spec(old(self)@),
    {
        self.follow_tail = false;
        self.chat_scroll = if self.chat_scroll >= 3 {
            self.chat_scroll - 3
        } else {
            0
        };
    }

    /// The mouse wheel down (see `scroll_down_spec`).
    pub fn scroll_down(&mut self)
        ensures
            final(self)@ == scroll_down_spec(old(self)@),
    {
        if !self.follow_tail {
            self.chat_scroll = if self.chat_scroll > usize::MAX - 3 {
                usize::MAX
            } else {
                self.chat_scroll + 3
            };
            let total = self.history_line_count();
            let last = if total >= 1 {
                total - 1
            } else {
                0
            };
            if self.chat_scroll >= last {
                self.follow_tail = true;
            }
        }
    }

    /// Page Up (see `page_up_spec`).
    fn page_up_history(&mut self)
        ensures
            final(self)@ == page_up_spec(old(self)@),
    {
        let total = self.history_line_count();
        if total == 0 {
            return;
        }
        let current = if self.follow_tail {
            total - 1
        } else {
            self.chat_scroll
        };
        self.chat_scroll = if current >= 10 {
            current - 10
        } else {
            0
        };
        self.follow_tail = false;
    }

    /// Page Down (see `page_down_spec`).
    fn page_down_history(&mut self)
        ensures
            final(self)@ == page_down_spec(old(self)@),
    {
        let total = self.history_line_count();
        if total == 0 {
            self.follow_tail = true;
            self.chat_scroll = 0;
            return;
        }
        let current = if self.follow_tail {
            total - 1
        } else {
            self.chat_scroll
        };
        let next = if current > usize::MAX - 10 {
            usize::MAX
        } else {
            current + 10
        };
        if next >= total - 1 {
            self.follow_tail = true;
        } else {
            self.chat_scroll = next;
            self.follow_tail = false;
        }
    }

    /// Shows history entry `idx` in the input line.
    fn recall(&mut self, idx: usize)
        requires
            idx < old(self).history@.len(),
        ensures
            final(self)@ == refreshed(
                AppView {
                    history_idx: Some(idx as int),
                    input: old(self)@.history[idx as int],
                    cursor: old(self)@.history[idx as int].len() as int,
                    ..old(self)@
                },
            ),
    {
        self.history_idx = Some(idx);
        self.input = chars_of(self.history[idx].as_str());
        self.cursor = self.input.len();
        self.refresh_suggestions();
    }

    /// Up in the input line (see `history_up_spec`).
    fn history_up(&mut self)
        requires
            app_wf(old(self)@),
        ensures
            final(self)@ == history_up_spec(old(self)@),
    {
        if self.history.len() == 0 {
            return;
        }
        let idx = match self.history_idx {
            Some(i) => if i >= 1 {
                i - 1
            } else {
                0
            },
            None => self.history.len() - 1,
        };
        self.recall(idx);
    }

    /// Down in the input line (see `history_down_spec`).
    fn history_down(&mut self)
        requires
            app_wf(old(self)@),
        ensures
            final(self)@ == history_down_spec(old(self)@),
    {
        if self.history.len() == 0 {
            return;
        }
        match self.history_idx {
            None => self.refresh_suggestions(),
            Some(i) => {
                if i + 1 >= self.history.len() {
                    self.history_idx = None;
                    self.input = Vec::new();
                    self.cursor = 0;
                    self.refresh_suggestions();
                    assert(self@.input =~= Seq::<char>::empty());
                } else {
                    self.recall(i + 1);
                }
            },
        }
    }

    /// The state after a model switch (see `model_switched_spec`).
    pub fn model_switched(&mut self, model: String)
        ensures
            final(self)@ == model_switched_spec(old(self)@, model@),
    {
        let mut text = chars_of("Switched to model: ");
        push_str(&mut text, model.as_str());
        self.push_entry(Entry::assistant(string_from_chars(text.as_slice())));
        self.current_model = model;
        self.show_models = false;
    }

    /// Adds the user's line and marks work as under way.
    fn start_work(&mut self, msg: &String)
        ensures
            final(self)@ == (AppView { processing: true, ..pushed(old(self)@, plain_entry(EntryKind::User, msg@)) }),
    {
        self.push_entry(Entry::user(msg.clone()));
        self.processing = true;
    }

    /// What a submitted line does (see `submit_spec`).
    pub fn submit(&mut self, raw: String) -> (act: TuiAction)
        requires
            app_wf(old(self)@),
        ensures
            (final(self)@, act@) == submit_spec(old(self)@, raw@),
            app_wf(final(self)@),
    {
        let ghost m = self@;
        let mc = trim_chars(chars_of(raw.as_str()).as_slice());
        let msg = string_from_chars(mc.as_slice());
        if mc.len() == 0 {
            return TuiAction::Nothing;
        }
        if crate::text::eq_str(mc.as_slice(), "exit") || crate::text::eq_str(mc.as_slice(), "quit")
            || crate::text::eq_str(mc.as_slice(), "/exit") {
            self.quit = true;
            return TuiAction::Nothing;
        }
        let ghost hist = self.history@;
        self.history.push(msg.clone());
        assert(texts(self.history@) =~= texts(hist).push(msg@));
        self.history_idx = None;
        if crate::text::eq_str(mc.as_slice(), "/clear") {
            self.entries = Vec::new();
            self.reset_processing();
            assert(self@.entries =~= Seq::<EntryView>::empty());
            return TuiAction::Nothing;
        }
        if crate::text::eq_str(mc.as_slice(), "/help") {
            self.push_entry(Entry::assistant(owned(tui_help_text())));
            return TuiAction::Nothing;
        }
        if crate::text::eq_str(mc.as_slice(), "/models") {
            self.show_models = true;
            self.model_idx = 0;
            return TuiAction::Nothing;
        }
        if starts_with_str(mc.as_slice(), "/models ") {
            proof {
                reveal_strlit("/models ");
            }
            let rest = crate::text::slice_chars(mc.as_slice(), 8, mc.len());
            let model_chars = trim_chars(rest.as_slice());
            assert(rest@ =~= mc@.skip(8));
            let model = string_from_chars(model_chars.as_slice());
            if crate::inline_ui::is_available_model(model.as_str(), self.available_models.as_slice()) {
                return TuiAction::SwitchModel(model);
            }
            let mut text = chars_of("Invalid model: ");
            push_str(&mut text, model.as_str());
            push_str(&mut text, "\nAvailable models: ");
            let joined = join_commas(self.available_models.as_slice());
            push_str(&mut text, joined.as_str());
            self.push_entry(Entry::assistant(string_from_chars(text.as_slice())));
            return TuiAction::Nothing;
        }
        if crate::text::eq_str(mc.as_slice(), "/commit-and-push") {
            self.start_work(&msg);
            return TuiAction::RunCommitAndPush;
        }
        if crate::inline_ui::is_direct_command(msg.as_str()) {
            self.start_work(&msg);
            return TuiAction::RunDirectCommand(msg);
        }
        self.start_work(&msg);
        TuiAction::SendToAgent(msg)
    }
}


impl App {
    /// A key press while the model list is open (see `models_key_spec`).
    fn models_key(&mut self, key: TuiKey) -> (act: TuiAction)
        requires
            app_wf(old(self)@),
        ensures
            (final(self)@, act@) == models_key_spec(old(self)@, key),
            app_wf(final(self)@),
    {
        let n = self.available_models.len();
        match key {
            TuiKey::Esc => {
                self.show_models = false;
                TuiAction::Nothing
            },
            TuiKey::Up => {
                self.model_idx = if self.model_idx == 0 {
                    if n >= 1 {
                        n - 1
                    } else {
                        0
                    }
                } else {
                    self.model_idx - 1
                };
                TuiAction::Nothing
            },
            TuiKey::Down => {
                if n > 0 {
                    self.model_idx = (self.model_idx + 1) % n;
                }
                TuiAction::Nothing
            },
            TuiKey::Enter | TuiKey::Tab => {
                if n > 0 {
                    TuiAction::SwitchModel(self.available_models[self.model_idx].clone())
                } else {
                    TuiAction::Nothing
                }
            },
            _ => TuiAction::Nothing,
        }
    }

    /// A key press while suggestions are shown (see `suggestion_key_spec`).
    fn suggestion_key(&mut self, key: TuiKey, filtered: &Vec<(&'static str, &'static str)>)
        requires
            app_wf(old(self)@),
            old(self).show_suggestions,
            filtered@.map_values(|p: (&'static str, &'static str)| (p.0@, p.1@)) == filtered_spec(old(self)@.input),
            filtered@.len() > 0,
            key == TuiKey::Up || key == TuiKey::Down || key == TuiKey::Tab,
        ensures
            final(self)@ == suggestion_key_spec(old(self)@, key),
            app_wf(final(self)@),
    {
        let n = filtered.len();
        let ghost f = filtered_spec(self@.input);
        assert(f.len() == n);
        match key {
            TuiKey::Up => {
                self.suggestion_idx = if self.suggestion_idx == 0 {
                    n - 1
                } else {
                    self.suggestion_idx - 1
                };
            },
            TuiKey::Down => {
                self.suggestion_idx = (self.suggestion_idx + 1) % n;
            },
            _ => {
                let idx = self.suggestion_idx;
                assert(f[idx as int] == (filtered@[idx as int].0@, filtered@[idx as int].1@));
                let mut text = chars_of(filtered[idx].0);
                text.push(' ');
                self.cursor = text.len();
                self.input = text;
                self.show_suggestions = false;
            },
        }
    }

    /// A key press in the input line (see `main_key_spec`).
    #[verifier::rlimit(40)]
    fn main_key(&mut self, key: TuiKey) -> (act: TuiAction)
        requires
            app_wf(old(self)@),
        ensures
            (final(self)@, act@) == main_key_spec(old(self)@, key),
            app_wf(final(self)@),
    {
        let len = self.input.len();
        match key {
            TuiKey::PageUp => {
                self.page_up_history();
                TuiAction::Nothing
            },
            TuiKey::PageDown => {
                self.page_down_history();
                TuiAction::Nothing
            },
            TuiKey::Enter => {
                let mut taken: Vec<char> = Vec::new();
                std::mem::swap(&mut taken, &mut self.input);
                self.cursor = 0;
                self.refresh_suggestions();
                assert(self@.input =~= Seq::<char>::empty());
                let raw = string_from_chars(taken.as_slice());
                self.submit(raw)
            },
            TuiKey::Backspace => {
                if self.cursor > 0 {
                    self.cursor = self.cursor - 1;
                    let c = self.cursor;
                    self.input.remove(c);
                    self.refresh_suggestions();
                }
                TuiAction::Nothing
            },
            TuiKey::Delete => {
                if self.cursor < len {
                    let c = self.cursor;
                    self.input.remove(c);
                    self.refresh_suggestions();
                }
                TuiAction::Nothing
            },
            TuiKey::Left => {
                if self.cursor > 0 {
                    self.cursor = self.cursor - 1;
                }
                TuiAction::Nothing
            },
            TuiKey::Right => {
                self.cursor = if self.cursor < len {
                    self.cursor + 1
                } else {
                    len
                };
                TuiAction::Nothing
            },
            TuiKey::Home => {
                self.cursor = 0;
                TuiAction::Nothing
            },
            TuiKey::End => {
                self.cursor = len;
                TuiAction::Nothing
            },
            TuiKey::Up => {
                self.history_up();
                TuiAction::Nothing
            },
            TuiKey::Down => {
                self.history_down();
                TuiAction::Nothing
            },
            TuiKey::Char(c) => {
                let at = self.cursor;
                self.input.insert(at, c);
                let grown = self.input.len();
                assert(at < grown);
                self.cursor = at + 1;
                self.refresh_suggestions();
                TuiAction::Nothing
            },
            TuiKey::CtrlChar(c) => {
                if c == 'u' {
                    self.input = Vec::new();
                    self.cursor = 0;
                    self.refresh_suggestions();
                    assert(self@.input =~= Seq::<char>::empty());
                }
                TuiAction::Nothing
            },
            _ => TuiAction::Nothing,
        }
    }

    /// What a key press does (see `key_spec`).
    pub fn on_key(&mut self, key: TuiKey) -> (act: TuiAction)
        requires
            app_wf(old(self)@),
        ensures
            (final(self)@, act@) == key_spec(old(self)@, key),
            app_wf(final(self)@),
    {
        match key {
            TuiKey::CtrlC => {
                if self.input.len() == 0 {
                    self.quit = true;
                } else {
                    self.input = Vec::new();
                    self.cursor = 0;
                    self.refresh_suggestions();
                    assert(self@.input =~= Seq::<char>::empty());
                }
                TuiAction::Nothing
            },
            TuiKey::BackTab => {
                self.auto_edit = !self.auto_edit;
                TuiAction::Nothing
            },
            _ => {
                if self.show_models {
                    return self.models_key(key);
                }
                if key == TuiKey::Esc {
                    if self.processing {
                        self.reset_processing();
                        return TuiAction::CancelTurn;
                    }
                    self.show_suggestions = false;
                    return TuiAction::Nothing;
                }
                if self.show_suggestions && (key == TuiKey::Up || key == TuiKey::Down || key == TuiKey::Tab) {
                    let filtered = self.filtered_suggestions();
                    if filtered.len() > 0 {
                        self.suggestion_key(key, &filtered);
                        return TuiAction::Nothing;
                    }
                }
                self.main_key(key)
            },
        }
    }
}


/// What reaches the front end while work runs.
#[derive(Debug)]
pub enum UiEvent {
    /// An event of the agent's turn.
    Agent(AgentEvent),
    /// An entry to add.
    Push(Entry),
    /// The work is over.
    Done,
}

/// The answer being streamed stops streaming and is no longer the target.
pub open spec fn stop_streaming(m: AppView) -> AppView {
    let es = match m.stream_idx {
        Some(i) => if 0 <= i < m.entries.len() {
            m.entries.update(i, EntryView { streaming: false, ..m.entries[i] })
        } else {
            m.entries
        },
        None => m.entries,
    };
    AppView { entries: es, stream_idx: None, ..m }
}

/// A piece of the answer: added to the entry being streamed, or a new
/// streaming entry that becomes the target.
pub open spec fn content_step(m: AppView, chunk: Seq<char>) -> AppView {
    match m.stream_idx {
        Some(i) => if 0 <= i < m.entries.len() {
            AppView {
                entries: m.entries.update(
                    i,
                    EntryView { content: m.entries[i].content + chunk, streaming: true, ..m.entries[i] },
                ),
                ..m
            }
        } else {
            m
        },
        None => AppView {
            entries: m.entries.push(EntryView { streaming: true, ..plain_entry(EntryKind::Assistant, chunk) }),
            stream_idx: Some(m.entries.len() as int),
            ..m
        },
    }
}

/// The entry of a running tool call.
pub open spec fn call_entry(c: CallView) -> EntryView {
    EntryView { kind: EntryKind::ToolCall, content: "Executing..."@, streaming: false, tool: Some(c), success: None }
}

/// The entry of a tool result.
pub open spec fn result_entry(c: CallView, r: ToolResult) -> EntryView {
    EntryView {
        kind: EntryKind::ToolResult,
        content: result_text(r),
        streaming: false,
        tool: Some(c),
        success: Some(r.success),
    }
}

/// Tool calls start: the answer stops streaming and each call gets a running entry.
pub open spec fn tool_calls_step(m: AppView, calls: Seq<CallView>) -> AppView {
    let s = stop_streaming(m);
    AppView { entries: s.entries + calls.map_values(|c: CallView| call_entry(c)), ..s }
}

/// Whether an entry is the running entry of the call `id`.
pub open spec fn is_running_call(e: EntryView, id: Seq<char>) -> bool {
    e.kind == EntryKind::ToolCall && (e.tool matches Some(t) && t.id == id)
}

/// The last running entry of the call `id`, or -1.
pub open spec fn last_running_call(es: Seq<EntryView>, id: Seq<char>) -> int
    decreases es.len(),
{
    if es.len() == 0 {
        -1
    } else if is_running_call(es.last(), id) {
        es.len() - 1
    } else {
        last_running_call(es.drop_last(), id)
    }
}

/// A tool result replaces the last running entry of its call, or is added
/// when there is none.
pub open spec fn tool_result_step(m: AppView, c: CallView, r: ToolResult) -> AppView {
    let k = last_running_call(m.entries, c.id);
    if k >= 0 {
        AppView { entries: m.entries.update(k, result_entry(c, r)), ..m }
    } else {
        pushed(m, result_entry(c, r))
    }
}

/// What an event does to the state.
pub open spec fn ui_event_spec(m: AppView, event: UiEvent) -> AppView {
    match event {
        UiEvent::Push(e) => pushed(m, e@),
        UiEvent::Done => reset_spec(m),
        UiEvent::Agent(ev) => match ev {
            AgentEvent::Content(chunk) => content_step(m, chunk@),
            AgentEvent::ToolCalls(calls) => tool_calls_step(m, calls@.map_values(|t: ToolCallSummary| call_view(t))),
            AgentEvent::ToolResult { tool_call, result } => tool_result_step(m, call_view(tool_call), result),
            AgentEvent::Done => reset_spec(stop_streaming(m)),
            AgentEvent::Error(err) => reset_spec(pushed(m, plain_entry(EntryKind::Assistant, "Error: "@ + err@))),
            _ => m,
        },
    }
}

/// A copy of a tool call, if any.
fn copy_tool(t: &Option<ToolCallSummary>) -> (r: Option<ToolCallSummary>)
    ensures
        match (r, *t) {
            (Some(a), Some(b)) => call_view(a) == call_view(b),
            (None, None) => true,
            _ => false,
        },
{
    match t {
        Some(c) => Some(c.duplicate()),
        None => None,
    }
}

impl App {
    /// The answer being streamed stops streaming (see `stop_streaming`).
    fn stop_streaming(&mut self)
        ensures
            final(self)@ == stop_streaming(old(self)@),
    {
        let ghost m = self@;
        if let Some(i) = self.stream_idx {
            if i < self.entries.len() {
                let e = &self.entries[i];
                let updated = Entry {
                    kind: e.kind,
                    content: e.content.clone(),
                    streaming: false,
                    tool: copy_tool(&e.tool),
                    success: e.success,
                };
                let ghost before = self.entries@;
                self.entries.set(i, updated);
                assert(entry_views(self.entries@) =~= entry_views(before).update(
                    i as int,
                    EntryView { streaming: false, ..m.entries[i as int] },
                ));
            }
        }
        self.stream_idx = None;
    }

    /// A piece of the answer (see `content_step`).
    fn on_content(&mut self, chunk: String)
        ensures
            final(self)@ == content_step(old(self)@, chunk@),
    {
        let ghost m = self@;
        match self.stream_idx {
            Some(i) => {
                if i < self.entries.len() {
                    let e = &self.entries[i];
                    let mut text = chars_of(e.content.as_str());
                    push_str(&mut text, chunk.as_str());
                    let updated = Entry {
                        kind: e.kind,
                        content: string_from_chars(text.as_slice()),
                        streaming: true,
                        tool: copy_tool(&e.tool),
                        success: e.success,
                    };
                    let ghost before = self.entries@;
                    self.entries.set(i, updated);
                    assert(entry_views(self.entries@) =~= entry_views(before).update(
                        i as int,
                        EntryView { content: m.entries[i as int].content + chunk@, streaming: true, ..m.entries[i as int] },
                    ));
                }
            },
            None => {
                let mut e = Entry::assistant(chunk);
                e.streaming = true;
                let at = self.entries.len();
                self.push_entry(e);
                self.stream_idx = Some(at);
            },
        }
    }

    /// Tool calls start (see `tool_calls_step`).
    fn on_tool_calls(&mut self, calls: Vec<ToolCallSummary>)
        ensures
            final(self)@ == tool_calls_step(old(self)@, calls@.map_values(|t: ToolCallSummary| call_view(t))),
    {
        self.stop_streaming();
        let ghost base = self@;
        let ghost cs = calls@.map_values(|t: ToolCallSummary| call_view(t));
        let count = calls.len();
        let ghost n = count as nat;
        let mut rest = calls;
        let mut done: usize = 0;
        while rest.len() > 0
            invariant
                done + rest@.len() == n,
                rest@.map_values(|t: ToolCallSummary| call_view(t)) == cs.skip(done as int),
                self@ == (AppView {
                    entries: base.entries + cs.take(done as int).map_values(|c: CallView| call_entry(c)),
                    ..base
                }),
                cs.len() == n,
                n <= usize::MAX,
            decreases rest.len(),
        {
            let ghost r0 = rest@;
            let c = rest.remove(0);
            assert(r0[0] == c);
            assert(rest@ =~= r0.skip(1));
            assert(r0.map_values(|t: ToolCallSummary| call_view(t))[0] == call_view(c));
            assert(call_view(c) == cs[done as int]);
            assert forall|k: int| 0 <= k < rest@.len() implies call_view(#[trigger] rest@[k]) == cs[done + 1 + k] by {
                assert(rest@[k] == r0[k + 1]);
                assert(r0.map_values(|t: ToolCallSummary| call_view(t))[k + 1] == cs.skip(done as int)[k + 1]);
            }
            assert(rest@.map_values(|t: ToolCallSummary| call_view(t)) =~= cs.skip(done + 1));
            self.push_entry(Entry::tool_call(c));
            assert(cs.take(done + 1).map_values(|c: CallView| call_entry(c)) =~= cs.take(done as int).map_values(
                |c: CallView| call_entry(c),
            ).push(call_entry(cs[done as int])));
            done += 1;
        }
        assert(cs.take(n as int) =~= cs);
    }

    /// A tool result (see `tool_result_step`).
    fn on_tool_result(&mut self, tool_call: ToolCallSummary, result: ToolResult)
        ensures
            final(self)@ == tool_result_step(old(self)@, call_view(tool_call), result),
    {
        let ghost m = self@;
        let ghost es = self@.entries;
        let ghost id = tool_call.id@;
        let target = chars_of(tool_call.id.as_str());
        let mut j = self.entries.len();
        assert(es.take(j as int) =~= es);
        while j > 0
            invariant
                self@ == m,
                m == old(self)@,
                es == m.entries,
                id == tool_call.id@,
                j <= self.entries@.len(),
                es == entry_views(self.entries@),
                target@ == id,
                last_running_call(es, id) == last_running_call(es.take(j as int), id),
            decreases j,
        {
            assert(es.take(j as int).last() == self.entries@[j - 1]@);
            assert(es.take(j as int).drop_last() =~= es.take(j - 1));
            let e = &self.entries[j - 1];
            let hit = match &e.tool {
                Some(t) => e.kind == EntryKind::ToolCall && crate::text::chars_eq(
                    chars_of(t.id.as_str()).as_slice(),
                    target.as_slice(),
                ),
                None => false,
            };
            if hit {
                assert(is_running_call(es[j - 1], id));
                assert(last_running_call(es.take(j as int), id) == j - 1);
                let ghost before = self.entries@;
                self.entries.set(j - 1, Entry::tool_result(tool_call, result));
                assert(entry_views(self.entries@) =~= entry_views(before).update(
                    j - 1,
                    result_entry(call_view(tool_call), result),
                ));
                return;
            }
            j -= 1;
        }
        assert(es.take(0) =~= Seq::<EntryView>::empty());
        self.push_entry(Entry::tool_result(tool_call, result));
    }

    /// What an event does (see `ui_event_spec`).
    pub fn on_ui_event(&mut self, event: UiEvent)
        ensures
            final(self)@ == ui_event_spec(old(self)@, event),
    {
        match event {
            UiEvent::Push(e) => self.push_entry(e),
            UiEvent::Done => self.reset_processing(),
            UiEvent::Agent(ev) => match ev {
                AgentEvent::Content(chunk) => self.on_content(chunk),
                AgentEvent::ToolCalls(calls) => self.on_tool_calls(calls),
                AgentEvent::ToolResult { tool_call, result } => self.on_tool_result(tool_call, result),
                AgentEvent::Done => {
                    self.stop_streaming();
                    self.reset_processing();
                },
                AgentEvent::Error(err) => {
                    let mut text = chars_of("Error: ");
                    push_str(&mut text, err.as_str());
                    self.push_entry(Entry::assistant(string_from_chars(text.as_slice())));
                    self.reset_processing();
                },
                _ => {},
            },
        }
    }
}


/// The tips shown while the conversation is empty.
pub open spec fn tips_lines() -> Seq<(Seq<char>, Tone)> {
    seq![
        ("Tips for getting started:"@, Tone::Title),
        ("1. Ask questions, edit files, or run commands."@, Tone::Plain),
        ("2. Be specific for the best results."@, Tone::Plain),
        ("3. Create GROK.md files to customize behavior."@, Tone::Plain),
        ("4. Press Shift+Tab to toggle auto-edit mode."@, Tone::Plain),
        ("5. /help for more information."@, Tone::Plain),
    ]
}

/// The lines of the conversation pane: the tips while it is empty, else the
/// entries' lines.
pub open spec fn history_lines_spec(es: Seq<EntryView>) -> Seq<(Seq<char>, Tone)> {
    if es.len() == 0 {
        tips_lines()
    } else {
        conversation_lines(es)
    }
}

/// A line of the given tone.
fn line(text: &str, tone: Tone) -> (r: TuiLine)
    ensures
        r.text@ == text@,
        r.tone == tone,
{
    TuiLine { text: owned(text), tone }
}

impl App {
    /// The lines of the conversation pane (see `history_lines_spec`).
    pub fn build_history_lines(&self) -> (r: Vec<TuiLine>)
        ensures
            line_views(r@) == history_lines_spec(self@.entries),
    {
        let mut out: Vec<TuiLine> = Vec::new();
        if self.entries.len() == 0 {
            out.push(line("Tips for getting started:", Tone::Title));
            out.push(line("1. Ask questions, edit files, or run commands.", Tone::Plain));
            out.push(line("2. Be specific for the best results.", Tone::Plain));
            out.push(line("3. Create GROK.md files to customize behavior.", Tone::Plain));
            out.push(line("4. Press Shift+Tab to toggle auto-edit mode.", Tone::Plain));
            out.push(line("5. /help for more information.", Tone::Plain));
            assert(line_views(out@) =~= tips_lines());
            return out;
        }
        let ghost es = self@.entries;
        let mut i: usize = 0;
        assert(line_views(out@) =~= conversation_lines(es.take(0)));
        while i < self.entries.len()
            invariant
                i <= self.entries@.len(),
                es == entry_views(self.entries@),
                line_views(out@) == conversation_lines(es.take(i as int)),
            decreases self.entries.len() - i,
        {
            assert(es.take(i + 1).drop_last() =~= es.take(i as int));
            assert(es.take(i + 1).last() == self.entries@[i as int]@);
            let mut more = entry_lines(&self.entries[i]);
            let ghost head = out@;
            let ghost tail = more@;
            out.append(&mut more);
            assert(line_views(out@) =~= line_views(head) + line_views(tail));
            i += 1;
        }
        assert(es.take(i as int) =~= es);
        out
    }

    /// The text of the input box after the `>` prompt, or nothing when it is
    /// empty (the placeholder is shown then).
    pub fn input_text(&self) -> (r: Option<String>)
        ensures
            match r {
                Some(t) => self@.input.len() > 0 && t@ == " "@ + self@.input,
                None => self@.input.len() == 0,
            },
    {
        if self.input.len() == 0 {
            return None;
        }
        let mut t = chars_of(" ");
        push_chars(&mut t, self.input.as_slice());
        Some(string_from_chars(t.as_slice()))
    }
}

/// The status line under the input box.
pub open spec fn footer_spec(auto_edit: bool, model: Seq<char>, processing: bool, elapsed_secs: nat) -> Seq<char> {
    (if auto_edit { "on"@ } else { "off"@ }) + " auto-edit: "@ + (if auto_edit { "enabled"@ } else { "disabled"@ })
        + " (shift + tab)   ~= "@ + model + if processing {
        "   processing: "@ + decimal(elapsed_secs) + "s"@
    } else {
        Seq::empty()
    }
}

/// The status line under the input box (see `footer_spec`).
pub fn footer_text(auto_edit: bool, model: &str, processing: bool, elapsed_secs: u64) -> (r: String)
    ensures
        r@ == footer_spec(auto_edit, model@, processing, elapsed_secs as nat),
{
    let mut t = if auto_edit {
        chars_of("on")
    } else {
        chars_of("off")
    };
    push_str(&mut t, " auto-edit: ");
    if auto_edit {
        push_str(&mut t, "enabled");
    } else {
        push_str(&mut t, "disabled");
    }
    push_str(&mut t, " (shift + tab)   ~= ");
    push_str(&mut t, model);
    if processing {
        push_str(&mut t, "   processing: ");
        let secs = crate::text::decimal_chars_u128(elapsed_secs as u128);
        push_chars(&mut t, secs.as_slice());
        push_str(&mut t, "s");
    }
    string_from_chars(t.as_slice())
}

/// The first line shown in a pane of `height` lines: the last page when the
/// view follows the end, else the scroll position kept within it.
pub fn scroll_offset(follow_tail: bool, chat_scroll: usize, line_count: usize, height: usize) -> (r: usize)
    ensures
        r == (if follow_tail {
            sat_sub(line_count as int, height as int)
        } else if chat_scroll < sat_sub(line_count as int, height as int) {
            chat_scroll as int
        } else {
            sat_sub(line_count as int, height as int)
        }),
{
    let max_scroll = if line_count >= height {
        line_count - height
    } else {
        0
    };
    if follow_tail {
        max_scroll
    } else if chat_scroll < max_scroll {
        chat_scroll
    } else {
        max_scroll
    }
}

/// A rectangle as its left, top, width and height.
pub struct Area {
    pub x: u16,
    pub y: u16,
    pub width: u16,
    pub height: u16,
}

/// A rectangle `percent_x` percent as wide as `area` and `height` high (at
/// most as high as `area`), centred in it.
pub fn centered_rect(percent_x: u16, height: u16, area: Area) -> (r: Area)
    requires
        area.x + area.width <= u16::MAX,
        area.y + area.height <= u16::MAX,
    ensures
        r.width == (if area.width * percent_x > u16::MAX { u16::MAX as int } else { area.width * percent_x }) / 100,
        r.x == area.x + sat_sub(area.width as int, r.width as int) / 2,
        r.y == area.y + sat_sub(area.height as int, height as int) / 2,
        r.height == (if height < area.height { height } else { area.height }),
{
    let w32 = area.width as u32;
    let p32 = percent_x as u32;
    assert(w32 * p32 <= 65535 * 65535) by (nonlinear_arith)
        requires
            w32 <= 65535,
            p32 <= 65535,
    ;
    let product: u32 = w32 * p32;
    let width: u16 = if product > 65535 {
        65535 / 100
    } else {
        (product / 100) as u16
    };
    let spare_w = if area.width >= width {
        area.width - width
    } else {
        0
    };
    let x = area.x + spare_w / 2;
    let spare = if area.height >= height {
        area.height - height
    } else {
        0
    };
    let y = area.y + spare / 2;
    Area { x, y, width, height: if height < area.height { height } else { area.height } }
}

/// How high the suggestion list is: two lines of border around the
/// suggestions, at most eight lines in all.
pub fn suggestion_popup_height(count: usize) -> (r: usize)
    ensures
        r == (if count + 2 < 8 { count + 2 } else { 8 }),
{
    if count < 6 {
        count + 2
    } else {
        8
    }
}

/// The row highlighted in a list of `len` rows: `selected`, kept on the last row.
pub fn highlighted_row(selected: usize, len: usize) -> (r: usize)
    ensures
        r == (if selected < sat_sub(len as int, 1) { selected as int } else { sat_sub(len as int, 1) }),
{
    let last = if len >= 1 {
        len - 1
    } else {
        0
    };
    if selected < last {
        selected
    } else {
        last
    }
}

/// A `bash` call as the conversation records it: its id is `prefix` and the
/// time in milliseconds, its arguments the command with double quotes escaped.
pub open spec fn bash_call(prefix: Seq<char>, millis: nat, command: Seq<char>) -> CallView {
    CallView {
        id: prefix + decimal(millis),
        name: "bash"@,
        arguments: "{\"command\":\""@ + replace_all(command, "\""@, "\\\""@) + "\"}"@,
    }
}

/// A `bash` call (see `bash_call`).
fn bash_summary(prefix: &str, millis: u128, command: &str) -> (r: ToolCallSummary)
    ensures
        call_view(r) == bash_call(prefix@, millis as nat, command@),
{
    let mut id = chars_of(prefix);
    let digits = crate::text::decimal_chars_u128(millis);
    push_chars(&mut id, digits.as_slice());
    ToolCallSummary {
        id: string_from_chars(id.as_slice()),
        name: owned("bash"),
        arguments: crate::inline_ui::direct_command_arguments(command),
    }
}

/// The entry a direct shell command leaves: its result as a `bash_…` call, or
/// the error when it could not run.
pub open spec fn direct_entry_spec(message: Seq<char>, outcome: Result<ToolResult, String>, millis: nat) -> EntryView {
    match outcome {
        Ok(r) => result_entry(bash_call("bash_"@, millis, message), r),
        Err(e) => plain_entry(EntryKind::Assistant, "Error executing command: "@ + e@),
    }
}

/// The entry a direct shell command leaves (see `direct_entry_spec`).
pub fn direct_command_entry(message: &str, outcome: Result<ToolResult, String>, millis: u128) -> (r: Entry)
    ensures
        r@ == direct_entry_spec(message@, outcome, millis as nat),
{
    match outcome {
        Ok(result) => Entry::tool_result(bash_summary("bash_", millis, message), result),
        Err(e) => {
            let mut t = chars_of("Error executing command: ");
            push_str(&mut t, e.as_str());
            Entry::assistant(string_from_chars(t.as_slice()))
        },
    }
}


/// Where the full-screen commit-and-push flow stands.
#[derive(Debug, Clone, Copy, PartialEq, Eq, Structural)]
pub enum TuiFlowPhase {
    /// Waiting for `git status --porcelain`.
    Status,
    /// Waiting for `git add .`.
    Add,
    /// Waiting for `git diff --cached`.
    Diff,
    /// Waiting for the commit message.
    Generate,
    /// Waiting for `git commit`.
    Commit,
    /// Waiting for `git push`.
    Push,
    /// Waiting for `git push -u origin HEAD`.
    PushUpstream,
    /// Over.
    Done,
}

/// What the caller does next for the flow.
#[derive(Debug)]
pub enum TuiFlowRequest {
    /// Run this command in the shell and hand its outcome to `on_bash`.
    RunBash(String),
    /// Ask the model for a commit message with this prompt and hand the
    /// outcome to `on_message`.
    Generate(String),
    /// The flow is over: send `Done`.
    Finished,
}

/// The view of a request.
pub enum FlowRequestView {
    RunBash(Seq<char>),
    Generate(Seq<char>),
    Finished,
}

impl View for TuiFlowRequest {
    type V = FlowRequestView;

    open spec fn view(&self) -> FlowRequestView {
        match self {
            TuiFlowRequest::RunBash(c) => FlowRequestView::RunBash(c@),
            TuiFlowRequest::Generate(p) => FlowRequestView::Generate(p@),
            TuiFlowRequest::Finished => FlowRequestView::Finished,
        }
    }
}

/// One step of the flow: the entries to push, then what to do next.
#[derive(Debug)]
pub struct TuiFlowStep {
    pub entries: Vec<Entry>,
    pub next: TuiFlowRequest,
}

/// The commit-and-push flow of the full-screen front end. Unlike the one of
/// `git_ops`, it stops quietly: a failed status means nothing to commit, a
/// failed add or push is only shown, and a missing message falls back to a
/// stock one.
pub struct TuiCommitFlow {
    pub phase: TuiFlowPhase,
    /// What `git status --porcelain` printed.
    pub status_output: String,
    /// The commit command run.
    pub commit_command: String,
}

/// The text of an optional output, empty when there is none.
pub open spec fn output_text(o: Option<String>) -> Seq<char> {
    match o {
        Some(t) => t@,
        None => Seq::empty(),
    }
}

/// The commit message of a model's answer: the answer trimmed and without
/// surrounding double quotes, or the stock message when the trimmed answer is
/// empty or the model failed.
pub open spec fn tui_message(outcome: Result<String, String>) -> Seq<char> {
    match outcome {
        Ok(text) => if trim(text@).len() > 0 {
            cleaned_message(text@)
        } else {
            "chore: update project files"@
        },
        Err(_) => "chore: update project files"@,
    }
}

/// The optional output of a command as a string, empty when there is none.
fn output_or_empty(o: &Option<String>) -> (r: String)
    ensures
        r@ == output_text(*o),
{
    match o {
        Some(t) => t.clone(),
        None => String::new(),
    }
}

impl TuiCommitFlow {
    /// A flow that waits for the status; the caller runs `start`'s command.
    pub fn new() -> (r: TuiCommitFlow)
        ensures
            r.phase == TuiFlowPhase::Status,
    {
        TuiCommitFlow { phase: TuiFlowPhase::Status, status_output: String::new(), commit_command: String::new() }
    }

    /// The first command: `git status --porcelain`.
    pub fn start(&self) -> (r: TuiFlowRequest)
        ensures
            r@ == FlowRequestView::RunBash(status_command()),
    {
        TuiFlowRequest::RunBash(owned("git status --porcelain"))
    }

    /// The outcome of a shell command: `Err` when it could not run.
    pub fn on_bash(&mut self, outcome: Result<ToolResult, String>, millis: u128) -> (r: TuiFlowStep)
        requires
            old(self).phase != TuiFlowPhase::Generate,
            old(self).phase != TuiFlowPhase::Done,
        ensures
            old(self).phase == TuiFlowPhase::Status ==> match outcome {
                Err(e) => final(self).phase == TuiFlowPhase::Done && r.next@ is Finished && entry_views(r.entries@)
                    == seq![plain_entry(EntryKind::Assistant, "git status failed: "@ + e@)],
                Ok(s) => if !s.success || trim(output_text(s.output)).len() == 0 {
                    final(self).phase == TuiFlowPhase::Done && r.next@ is Finished && entry_views(r.entries@)
                        == seq![plain_entry(EntryKind::Assistant, "No changes to commit."@)]
                } else {
                    final(self).phase == TuiFlowPhase::Add && r.next@ == FlowRequestView::RunBash("git add ."@)
                        && r.entries@.len() == 0 && final(self).status_output@ == output_text(s.output)
                },
            },
            old(self).phase == TuiFlowPhase::Add ==> final(self).phase == TuiFlowPhase::Diff && r.next@
                == FlowRequestView::RunBash("git diff --cached"@) && final(self).status_output
                == old(self).status_output && entry_views(r.entries@) == match outcome {
                Ok(a) => seq![result_entry(bash_call("git_add_"@, millis as nat, "git add ."@), a)],
                Err(_) => Seq::empty(),
            },
            old(self).phase == TuiFlowPhase::Diff ==> final(self).phase == TuiFlowPhase::Generate && r.entries@.len()
                == 0 && r.next@ == FlowRequestView::Generate(
                commit_prompt(
                    old(self).status_output@,
                    match outcome {
                        Ok(d) => output_text(d.output),
                        Err(_) => Seq::empty(),
                    },
                ),
            ),
            old(self).phase == TuiFlowPhase::Commit ==> match outcome {
                Ok(c) => entry_views(r.entries@) == seq![
                    result_entry(bash_call("git_commit_"@, millis as nat, old(self).commit_command@), c),
                ] && if c.success {
                    final(self).phase == TuiFlowPhase::Push && r.next@ == FlowRequestView::RunBash("git push"@)
                } else {
                    final(self).phase == TuiFlowPhase::Done && r.next@ is Finished
                },
                Err(_) => final(self).phase == TuiFlowPhase::Done && r.next@ is Finished && r.entries@.len() == 0,
            },
            old(self).phase == TuiFlowPhase::Push ==> match outcome {
                Ok(p) => if needs_upstream(p) {
                    final(self).phase == TuiFlowPhase::PushUpstream && r.entries@.len() == 0 && r.next@
                        == FlowRequestView::RunBash("git push -u origin HEAD"@)
                } else {
                    final(self).phase == TuiFlowPhase::Done && r.next@ is Finished && entry_views(r.entries@)
                        == seq![result_entry(bash_call("git_push_"@, millis as nat, "git push"@), p)]
                },
                Err(_) => final(self).phase == TuiFlowPhase::Done && r.next@ is Finished && r.entries@.len() == 0,
            },
            old(self).phase == TuiFlowPhase::PushUpstream ==> final(self).phase == TuiFlowPhase::Done && r.next@ is Finished
                && entry_views(r.entries@) == match outcome {
                Ok(p) => seq![result_entry(bash_call("git_push_"@, millis as nat, "git push -u origin HEAD"@), p)],
                Err(_) => Seq::empty(),
            },
    {
        let mut entries: Vec<Entry> = Vec::new();
        match self.phase {
            TuiFlowPhase::Status => {
                match outcome {
                    Err(e) => {
                        let mut t = chars_of("git status failed: ");
                        push_str(&mut t, e.as_str());
                        entries.push(Entry::assistant(string_from_chars(t.as_slice())));
                        self.phase = TuiFlowPhase::Done;
                        assert(entry_views(entries@) =~= seq![
                            plain_entry(EntryKind::Assistant, "git status failed: "@ + e@),
                        ]);
                        TuiFlowStep { entries, next: TuiFlowRequest::Finished }
                    },
                    Ok(s) => {
                        let out = output_or_empty(&s.output);
                        let t = trim_chars(chars_of(out.as_str()).as_slice());
                        if !s.success || t.len() == 0 {
                            entries.push(Entry::assistant(owned("No changes to commit.")));
                            self.phase = TuiFlowPhase::Done;
                            assert(entry_views(entries@) =~= seq![
                                plain_entry(EntryKind::Assistant, "No changes to commit."@),
                            ]);
                            TuiFlowStep { entries, next: TuiFlowRequest::Finished }
                        } else {
                            self.status_output = out;
                            self.phase = TuiFlowPhase::Add;
                            TuiFlowStep { entries, next: TuiFlowRequest::RunBash(owned("git add .")) }
                        }
                    },
                }
            },
            TuiFlowPhase::Add => {
                if let Ok(a) = outcome {
                    entries.push(Entry::tool_result(bash_summary("git_add_", millis, "git add ."), a));
                    assert(entry_views(entries@) =~= seq![
                        result_entry(bash_call("git_add_"@, millis as nat, "git add ."@), a),
                    ]);
                } else {
                    assert(entry_views(entries@) =~= Seq::<EntryView>::empty());
                }
                self.phase = TuiFlowPhase::Diff;
                TuiFlowStep { entries, next: TuiFlowRequest::RunBash(owned("git diff --cached")) }
            },
            TuiFlowPhase::Diff => {
                let diff = match outcome {
                    Ok(d) => output_or_empty(&d.output),
                    Err(_) => String::new(),
                };
                let mut p = chars_of(
                    "Generate a concise conventional commit message under 72 characters.\n\nGit Status:\n",
                );
                push_str(&mut p, self.status_output.as_str());
                push_str(&mut p, "\n\nGit Diff:\n");
                push_str(&mut p, diff.as_str());
                push_str(&mut p, "\n\nRespond with only the commit message.");
                self.phase = TuiFlowPhase::Generate;
                TuiFlowStep { entries, next: TuiFlowRequest::Generate(string_from_chars(p.as_slice())) }
            },
            TuiFlowPhase::Commit => {
                match outcome {
                    Ok(c) => {
                        let success = c.success;
                        entries.push(
                            Entry::tool_result(bash_summary("git_commit_", millis, self.commit_command.as_str()), c),
                        );
                        assert(entry_views(entries@) =~= seq![
                            result_entry(bash_call("git_commit_"@, millis as nat, self.commit_command@), c),
                        ]);
                        if success {
                            self.phase = TuiFlowPhase::Push;
                            TuiFlowStep { entries, next: TuiFlowRequest::RunBash(owned("git push")) }
                        } else {
                            self.phase = TuiFlowPhase::Done;
                            TuiFlowStep { entries, next: TuiFlowRequest::Finished }
                        }
                    },
                    Err(_) => {
                        self.phase = TuiFlowPhase::Done;
                        TuiFlowStep { entries, next: TuiFlowRequest::Finished }
                    },
                }
            },
            TuiFlowPhase::Push => {
                match outcome {
                    Ok(p) => {
                        let upstream = !p.success && match &p.error {
                            Some(e) => crate::text::contains_str(chars_of(e.as_str()).as_slice(), "no upstream branch"),
                            None => false,
                        };
                        if upstream {
                            self.phase = TuiFlowPhase::PushUpstream;
                            TuiFlowStep { entries, next: TuiFlowRequest::RunBash(owned("git push -u origin HEAD")) }
                        } else {
                            entries.push(Entry::tool_result(bash_summary("git_push_", millis, "git push"), p));
                            assert(entry_views(entries@) =~= seq![
                                result_entry(bash_call("git_push_"@, millis as nat, "git push"@), p),
                            ]);
                            self.phase = TuiFlowPhase::Done;
                            TuiFlowStep { entries, next: TuiFlowRequest::Finished }
                        }
                    },
                    Err(_) => {
                        self.phase = TuiFlowPhase::Done;
                        TuiFlowStep { entries, next: TuiFlowRequest::Finished }
                    },
                }
            },
            _ => {
                if let Ok(p) = outcome {
                    entries.push(
                        Entry::tool_result(bash_summary("git_push_", millis, "git push -u origin HEAD"), p),
                    );
                    assert(entry_views(entries@) =~= seq![
                        result_entry(bash_call("git_push_"@, millis as nat, "git push -u origin HEAD"@), p),
                    ]);
                } else {
                    assert(entry_views(entries@) =~= Seq::<EntryView>::empty());
                }
                self.phase = TuiFlowPhase::Done;
                TuiFlowStep { entries, next: TuiFlowRequest::Finished }
            },
        }
    }

    /// The outcome of asking for a commit message: the message (see
    /// `tui_message`) is announced and committed.
    pub fn on_message(&mut self, outcome: Result<String, String>) -> (r: TuiFlowStep)
        requires
            old(self).phase == TuiFlowPhase::Generate,
        ensures
            final(self).phase == TuiFlowPhase::Commit,
            final(self).commit_command@ == commit_command(tui_message(outcome)),
            r.next@ == FlowRequestView::RunBash(commit_command(tui_message(outcome))),
            entry_views(r.entries@) == seq![
                plain_entry(EntryKind::Assistant, "Generated commit message: \""@ + tui_message(outcome) + "\""@),
            ],
    {
        let message: Vec<char> = match outcome {
            Ok(text) => {
                let t = trim_chars(chars_of(text.as_str()).as_slice());
                if t.len() > 0 {
                    let mut quote: Vec<char> = Vec::new();
                    quote.push('"');
                    assert(quote@ =~= seq!['"']);
                    let a = strip_lead_exec(t.as_slice(), quote.as_slice());
                    strip_trail_exec(a.as_slice(), quote.as_slice())
                } else {
                    chars_of("chore: update project files")
                }
            },
            Err(_) => chars_of("chore: update project files"),
        };
        let mut shown = chars_of("Generated commit message: \"");
        push_chars(&mut shown, message.as_slice());
        push_str(&mut shown, "\"");
        let mut entries: Vec<Entry> = Vec::new();
        entries.push(Entry::assistant(string_from_chars(shown.as_slice())));
        let q = chars_of("\"");
        let esc = chars_of("\\\"");
        let escaped = replace_all_chars(message.as_slice(), q.as_slice(), esc.as_slice());
        let mut command = chars_of("git commit -m \"");
        push_chars(&mut command, escaped.as_slice());
        push_str(&mut command, "\"");
        self.commit_command = string_from_chars(command.as_slice());
        self.phase = TuiFlowPhase::Commit;
        assert(entry_views(entries@) =~= seq![
            plain_entry(EntryKind::Assistant, "Generated commit message: \""@ + tui_message(outcome) + "\""@),
        ]);
        TuiFlowStep { entries, next: TuiFlowRequest::RunBash(string_from_chars(command.as_slice())) }
    }
}


/// The lines of a text with `\r\n` read as a line break.
pub open spec fn text_pieces(content: Seq<char>) -> Seq<Seq<char>> {
    split_char(replace_all(content, "\r\n"@, "\n"@), '\n')
}

/// The lines an entry leaves in the transcript printed on exit: the user's
/// line after `> `; the assistant's lines after `o ` then two spaces (`o` alone
/// when empty); a tool entry as `o ` and its label (`Tool` when it has no
/// call), then each line of its text after `  -> `.
pub open spec fn transcript_entry(e: EntryView) -> Seq<Seq<char>> {
    match e.kind {
        EntryKind::User => seq!["> "@ + e.content],
        EntryKind::Assistant => if e.content.len() == 0 {
            seq!["o"@]
        } else {
            let ps = text_pieces(e.content);
            Seq::new(ps.len(), |i: int| if i == 0 { "o "@ + ps[0] } else { "  "@ + ps[i] })
        },
        _ => {
            let label = match e.tool {
                Some(t) => tui_tool_name(t.name) + "("@ + tool_path_spec(t.arguments) + ")"@,
                None => "Tool"@,
            };
            let ps = text_pieces(e.content);
            seq!["o "@ + label] + ps.map_values(|l: Seq<char>| "  -> "@ + l)
        },
    }
}

/// The transcript of entries, one entry after the other.
pub open spec fn transcript_of(es: Seq<EntryView>) -> Seq<Seq<char>>
    decreases es.len(),
{
    if es.len() == 0 {
        Seq::empty()
    } else {
        transcript_of(es.drop_last()) + transcript_entry(es.last())
    }
}

/// The transcript printed on exit: nothing for an empty conversation, else a
/// blank line, a heading and each entry's lines.
pub open spec fn transcript_spec(es: Seq<EntryView>) -> Seq<Seq<char>> {
    if es.len() == 0 {
        Seq::empty()
    } else {
        seq![Seq::empty(), "Session transcript:"@] + transcript_of(es)
    }
}

/// The lines of a text (see `text_pieces`).
fn pieces_of(content: &str) -> (r: Vec<String>)
    ensures
        texts(r@) == text_pieces(content@),
{
    let cs = chars_of(content);
    let crlf = chars_of("\r\n");
    let lf = chars_of("\n");
    let normalized = replace_all_chars(cs.as_slice(), crlf.as_slice(), lf.as_slice());
    split_on_char(normalized.as_slice(), '\n')
}

/// `prefix` and `text`.
fn joined(prefix: &str, text: &str) -> (r: String)
    ensures
        r@ == prefix@ + text@,
{
    let mut t = chars_of(prefix);
    push_str(&mut t, text);
    string_from_chars(t.as_slice())
}

/// The lines an entry leaves in the transcript (see `transcript_entry`).
fn transcript_entry_lines(e: &Entry) -> (r: Vec<String>)
    ensures
        texts(r@) == transcript_entry(e@),
{
    let mut out: Vec<String> = Vec::new();
    match e.kind {
        EntryKind::User => {
            out.push(joined("> ", e.content.as_str()));
            assert(texts(out@) =~= transcript_entry(e@));
        },
        EntryKind::Assistant => {
            if chars_of(e.content.as_str()).len() == 0 {
                out.push(owned("o"));
                assert(texts(out@) =~= transcript_entry(e@));
            } else {
                let ps = pieces_of(e.content.as_str());
                let ghost want = transcript_entry(e@);
                let ghost pv = text_pieces(e@.content);
                let mut i: usize = 0;
                while i < ps.len()
                    invariant
                        i <= ps.len(),
                        texts(ps@) == pv,
                        e@.content.len() > 0,
                        pv == text_pieces(e@.content),
                        want == Seq::new(pv.len(), |j: int| if j == 0 { "o "@ + pv[0] } else { "  "@ + pv[j] }),
                        texts(out@) == want.take(i as int),
                    decreases ps.len() - i,
                {
                    let l = if i == 0 {
                        joined("o ", ps[i].as_str())
                    } else {
                        joined("  ", ps[i].as_str())
                    };
                    assert(pv[i as int] == ps@[i as int]@);
                    assert(l@ == want[i as int]);
                    let ghost before = out@;
                    out.push(l);
                    assert(texts(out@) =~= texts(before).push(want[i as int]));
                    assert(want.take(i + 1) =~= want.take(i as int).push(want[i as int]));
                    i += 1;
                }
                assert(want.take(i as int) =~= want);
            }
        },
        _ => {
            let label = match &e.tool {
                Some(t) => {
                    let mut l = chars_of(pretty_tool_name(t.name.as_str()));
                    push_str(&mut l, "(");
                    let path = tool_path(t);
                    push_str(&mut l, path.as_str());
                    push_str(&mut l, ")");
                    string_from_chars(l.as_slice())
                },
                None => owned("Tool"),
            };
            out.push(joined("o ", label.as_str()));
            let ps = pieces_of(e.content.as_str());
            let ghost pv = text_pieces(e@.content);
            let ghost head = texts(out@);
            let mut i: usize = 0;
            while i < ps.len()
                invariant
                    i <= ps.len(),
                    texts(ps@) == pv,
                    texts(out@) == head + pv.take(i as int).map_values(|l: Seq<char>| "  -> "@ + l),
                decreases ps.len() - i,
            {
                let l = joined("  -> ", ps[i].as_str());
                assert(pv[i as int] == ps@[i as int]@);
                let ghost before = out@;
                out.push(l);
                assert(pv.take(i + 1).map_values(|l: Seq<char>| "  -> "@ + l) =~= pv.take(i as int).map_values(
                    |l: Seq<char>| "  -> "@ + l,
                ).push("  -> "@ + pv[i as int]));
                assert(texts(out@) =~= texts(before).push("  -> "@ + pv[i as int]));
                i += 1;
            }
            assert(pv.take(i as int) =~= pv);
            assert(texts(out@) =~= transcript_entry(e@));
        },
    }
    out
}

/// The transcript printed on exit (see `transcript_spec`).
pub fn transcript_lines(entries: &[Entry]) -> (r: Vec<String>)
    ensures
        texts(r@) == transcript_spec(entry_views(entries@)),
{
    let mut out: Vec<String> = Vec::new();
    let ghost es = entry_views(entries@);
    if entries.len() == 0 {
        assert(texts(out@) =~= transcript_spec(es));
        return out;
    }
    out.push(String::new());
    out.push(owned("Session transcript:"));
    let ghost head = texts(out@);
    assert(head =~= seq![Seq::<char>::empty(), "Session transcript:"@]);
    let mut i: usize = 0;
    assert(transcript_of(es.take(0)) =~= Seq::<Seq<char>>::empty());
    while i < entries.len()
        invariant
            i <= entries@.len(),
            es == entry_views(entries@),
            texts(out@) == head + transcript_of(es.take(i as int)),
        decreases entries.len() - i,
    {
        assert(es.take(i + 1).drop_last() =~= es.take(i as int));
        assert(es.take(i + 1).last() == entries@[i as int]@);
        let mut more = transcript_entry_lines(&entries[i]);
        let ghost a = out@;
        let ghost b = more@;
        out.append(&mut more);
        assert(texts(out@) =~= texts(a) + texts(b));
        i += 1;
    }
    assert(es.take(i as int) =~= es);
    out
}


/// A tool result that follows its call replaces the call's running entry: the
/// conversation keeps its length and ends with the result.
pub proof fn law_result_replaces_running_call(m: AppView, c: CallView, r: ToolResult)
    ensures
        ({
            let started = tool_calls_step(m, seq![c]);
            let finished = tool_result_step(started, c, r);
            &&& finished.entries.len() == started.entries.len()
            &&& finished.entries.last() == result_entry(c, r)
        }),
{
    let started = tool_calls_step(m, seq![c]);
    assert(seq![c].map_values(|x: CallView| call_entry(x)) =~= seq![call_entry(c)]);
    assert(started.entries.last() == call_entry(c));
    assert(is_running_call(started.entries.last(), c.id));
}

/// Typing a character and then deleting it with Backspace gives back the input
/// line and the cursor position.
pub proof fn law_tui_backspace_undoes_typing(m: AppView, ch: char)
    requires
        app_wf(m),
        !m.show_models,
    ensures
        ({
            let typed = key_spec(m, TuiKey::Char(ch)).0;
            let back = key_spec(typed, TuiKey::Backspace).0;
            back.input == m.input && back.cursor == m.cursor
        }),
{
    assert(m.input.insert(m.cursor, ch).remove(m.cursor) =~= m.input);
}

/// Esc while work is under way cancels it, and nothing is running afterwards.
pub proof fn law_esc_cancels_work(m: AppView)
    requires
        m.processing,
        !m.show_models,
    ensures
        key_spec(m, TuiKey::Esc).1 is CancelTurn,
        !key_spec(m, TuiKey::Esc).0.processing,
        key_spec(m, TuiKey::Esc).0.stream_idx is None,
{
}

} // verus!
