//! The prompt's line editor and the option picker, as state machines driven by
//! key presses, with the lines of the panel under the prompt.
//!
//! The editor's cursor counts characters, not bytes: it always sits between two
//! characters, and moving it by one moves it over one character.
use vstd::prelude::*;

use crate::order::texts;
use crate::slash_commands::{filtered_command_suggestions, pad_right, push_padded, suggestions_spec};
use crate::text::{
    chars_eq, chars_of, decimal, is_whitespace, is_ws, opt_text, push_chars, push_decimal, push_str,
    slice_chars, string_from_chars, trim, trim_chars,
};

verus! {

/// A key press, as the editor tells them apart.
#[derive(Debug, Clone, Copy, PartialEq, Eq, Structural)]
pub enum PromptKey {
    Enter,
    BackTab,
    CtrlC,
    CtrlD,
    CtrlA,
    CtrlE,
    CtrlU,
    CtrlW,
    Left,
    Right,
    Home,
    End,
    Backspace,
    Delete,
    Up,
    Down,
    Tab,
    /// A character typed without Control or Alt.
    Char(char),
    /// A character typed with Control or Alt that no binding takes: nothing happens.
    ModifiedChar,
    /// Any other key: it only disarms the Ctrl+C exit.
    Other,
}

/// What the caller does after a key press.
#[derive(Debug)]
pub enum PromptAction {
    /// Draw the prompt and its panel again.
    Redraw,
    /// Tell the user that a second Ctrl+C exits, then draw again.
    ExitHint,
    /// The line is entered.
    Submit(String),
    /// The prompt is left without a line.
    Cancel,
}

/// The view of an action.
pub enum ActionModel {
    Redraw,
    ExitHint,
    Submit(Seq<char>),
    Cancel,
}

impl View for PromptAction {
    type V = ActionModel;

    open spec fn view(&self) -> ActionModel {
        match self {
            PromptAction::Redraw => ActionModel::Redraw,
            PromptAction::ExitHint => ActionModel::ExitHint,
            PromptAction::Submit(s) => ActionModel::Submit(s@),
            PromptAction::Cancel => ActionModel::Cancel,
        }
    }
}

/// The state of the line editor.
pub struct PromptEditor {
    /// The text typed so far.
    pub input: Vec<char>,
    /// Characters before the cursor.
    pub cursor: usize,
    /// The history entry shown, if the text comes from the history.
    pub history_idx: Option<usize>,
    /// A first Ctrl+C on an empty line arms the exit.
    pub ctrl_c_armed: bool,
    /// The highlighted command suggestion.
    pub selected_suggestion: usize,
    /// Whether edits are approved without asking.
    pub auto_edit: bool,
}

/// The view of the editor state.
pub struct EditorModel {
    pub input: Seq<char>,
    pub cursor: int,
    pub history_idx: Option<int>,
    pub ctrl_c_armed: bool,
    pub selected: int,
    pub auto_edit: bool,
}

impl View for PromptEditor {
    type V = EditorModel;

    open spec fn view(&self) -> EditorModel {
        EditorModel {
            input: self.input@,
            cursor: self.cursor as int,
            history_idx: match self.history_idx {
                Some(i) => Some(i as int),
                None => None,
            },
            ctrl_c_armed: self.ctrl_c_armed,
            selected: self.selected_suggestion as int,
            auto_edit: self.auto_edit,
        }
    }
}

/// A consistent editor state for a given history: the cursor lies within the
/// text, the history entry exists, and the highlighted suggestion is one of the
/// suggestions (0 when there are none).
pub open spec fn editor_wf(m: EditorModel, history_len: nat) -> bool {
    &&& 0 <= m.cursor <= m.input.len()
    &&& (m.history_idx matches Some(i) ==> 0 <= i < history_len)
    &&& 0 <= m.selected
    &&& (m.selected == 0 || m.selected < suggestions_spec(m.input).len())
}

/// Start of the white space that ends right before `i`.
pub open spec fn skip_ws_back(s: Seq<char>, i: int) -> int
    decreases i,
{
    if 0 < i <= s.len() && is_ws(s[i - 1]) {
        skip_ws_back(s, i - 1)
    } else {
        i
    }
}

/// Start of the run of non-white-space characters that ends right before `i`.
pub open spec fn skip_word_back(s: Seq<char>, i: int) -> int
    decreases i,
{
    if 0 < i <= s.len() && !is_ws(s[i - 1]) {
        skip_word_back(s, i - 1)
    } else {
        i
    }
}

/// Where Ctrl+W deletes back to: over the white space before the cursor, then
/// over the word before it.
pub open spec fn word_start(s: Seq<char>, cursor: int) -> int {
    skip_word_back(s, skip_ws_back(s, cursor))
}

/// Facts about `skip_ws_back` and `skip_word_back`.
proof fn lemma_skip_back(s: Seq<char>, i: int)
    requires
        0 <= i <= s.len(),
    ensures
        0 <= skip_ws_back(s, i) <= i,
        0 <= skip_word_back(s, i) <= i,
    decreases i,
{
    if i > 0 {
        lemma_skip_back(s, i - 1);
    }
}

/// The editor with `input` as its text and the cursor at its end, coming from
/// history entry `idx`, no suggestion highlighted and the exit disarmed.
pub open spec fn with_text(m: EditorModel, input: Seq<char>, idx: Option<int>) -> EditorModel {
    EditorModel {
        input,
        cursor: input.len() as int,
        history_idx: idx,
        ctrl_c_armed: false,
        selected: 0,
        ..m
    }
}

/// The editor with its text edited to `input` and the cursor at `cursor`.
pub open spec fn edited(m: EditorModel, input: Seq<char>, cursor: int) -> EditorModel {
    EditorModel { input, cursor, history_idx: None, ctrl_c_armed: false, selected: 0, ..m }
}

/// The editor with the exit disarmed.
pub open spec fn disarmed(m: EditorModel) -> EditorModel {
    EditorModel { ctrl_c_armed: false, ..m }
}

/// The highlighted suggestion among `n > 0`, kept in range.
pub open spec fn safe_index(selected: int, n: int) -> int {
    if selected < n - 1 {
        selected
    } else {
        n - 1
    }
}

/// What one key press does to the editor, with the history `history`.
pub open spec fn step_spec(m: EditorModel, key: PromptKey, history: Seq<Seq<char>>) -> (
    EditorModel,
    ActionModel,
) {
    let sugg = suggestions_spec(m.input);
    let n = sugg.len() as int;
    let len = m.input.len() as int;
    match key {
        PromptKey::Enter => if n > 0 && trim(m.input) != sugg[safe_index(m.selected, n)].command {
            (
                with_text(m, sugg[safe_index(m.selected, n)].command.push(' '), None),
                ActionModel::Redraw,
            )
        } else {
            (m, ActionModel::Submit(m.input))
        },
        PromptKey::BackTab => (
            EditorModel { auto_edit: !m.auto_edit, ctrl_c_armed: false, ..m },
            ActionModel::Redraw,
        ),
        PromptKey::CtrlC => if len == 0 {
            if m.ctrl_c_armed {
                (m, ActionModel::Cancel)
            } else {
                (EditorModel { ctrl_c_armed: true, ..m }, ActionModel::ExitHint)
            }
        } else {
            (edited(m, Seq::empty(), 0), ActionModel::Redraw)
        },
        PromptKey::CtrlD => if len == 0 {
            (m, ActionModel::Cancel)
        } else if m.cursor < len {
            (
                EditorModel {
                    input: m.input.remove(m.cursor),
                    ctrl_c_armed: false,
                    selected: 0,
                    ..m
                },
                ActionModel::Redraw,
            )
        } else {
            (m, ActionModel::Redraw)
        },
        PromptKey::CtrlA | PromptKey::Home => (
            EditorModel { cursor: 0, ..disarmed(m) },
            ActionModel::Redraw,
        ),
        PromptKey::CtrlE | PromptKey::End => (
            EditorModel { cursor: len, ..disarmed(m) },
            ActionModel::Redraw,
        ),
        PromptKey::CtrlU => (edited(m, m.input.skip(m.cursor), 0), ActionModel::Redraw),
        PromptKey::CtrlW => {
            let start = word_start(m.input, m.cursor);
            (
                edited(m, m.input.take(start) + m.input.skip(m.cursor), start),
                ActionModel::Redraw,
            )
        },
        PromptKey::Left => (
            EditorModel {
                cursor: if m.cursor > 0 {
                    m.cursor - 1
                } else {
                    0
                },
                ..disarmed(m)
            },
            ActionModel::Redraw,
        ),
        PromptKey::Right => (
            EditorModel {
                cursor: if m.cursor < len {
                    m.cursor + 1
                } else {
                    len
                },
                ..disarmed(m)
            },
            ActionModel::Redraw,
        ),
        PromptKey::Backspace => if m.cursor > 0 {
            (edited(m, m.input.remove(m.cursor - 1), m.cursor - 1), ActionModel::Redraw)
        } else {
            (disarmed(m), ActionModel::Redraw)
        },
        PromptKey::Delete => if m.cursor < len {
            (edited(m, m.input.remove(m.cursor), m.cursor), ActionModel::Redraw)
        } else {
            (disarmed(m), ActionModel::Redraw)
        },
        PromptKey::Up => if n > 0 {
            (
                EditorModel {
                    selected: if m.selected == 0 {
                        n - 1
                    } else {
                        m.selected - 1
                    },
                    ..disarmed(m)
                },
                ActionModel::Redraw,
            )
        } else if history.len() > 0 {
            let next = match m.history_idx {
                Some(i) => if i > 0 {
                    i - 1
                } else {
                    0
                },
                None => history.len() - 1,
            };
            (with_text(m, history[next], Some(next)), ActionModel::Redraw)
        } else {
            (disarmed(m), ActionModel::Redraw)
        },
        PromptKey::Down => if n > 0 {
            (EditorModel { selected: (m.selected + 1) % n, ..disarmed(m) }, ActionModel::Redraw)
        } else if history.len() > 0 {
            match m.history_idx {
                None => (EditorModel { selected: 0, ..disarmed(m) }, ActionModel::Redraw),
                Some(i) => if i + 1 >= history.len() {
                    (with_text(m, Seq::empty(), None), ActionModel::Redraw)
                } else {
                    (with_text(m, history[i + 1], Some(i + 1)), ActionModel::Redraw)
                },
            }
        } else {
            (disarmed(m), ActionModel::Redraw)
        },
        PromptKey::Tab => if n > 0 {
            (
                with_text(m, sugg[safe_index(m.selected, n)].command.push(' '), None),
                ActionModel::Redraw,
            )
        } else {
            (disarmed(m), ActionModel::Redraw)
        },
        PromptKey::Char(ch) => (
            edited(m, m.input.insert(m.cursor, ch), m.cursor + 1),
            ActionModel::Redraw,
        ),
        PromptKey::ModifiedChar => (m, ActionModel::Redraw),
        PromptKey::Other => (disarmed(m), ActionModel::Redraw),
    }
}

/// Where Ctrl+W deletes back to from `cursor` (see `word_start`).
pub fn previous_word_start(input: &[char], cursor: usize) -> (r: usize)
    requires
        cursor <= input.len(),
    ensures
        r == word_start(input@, cursor as int),
        r <= cursor,
{
    let mut index = cursor;
    while index > 0 && is_whitespace(input[index - 1])
        invariant
            index <= cursor <= input.len(),
            skip_ws_back(input@, cursor as int) == skip_ws_back(input@, index as int),
        decreases index,
    {
        index -= 1;
    }
    let ghost mid = index;
    assert(skip_ws_back(input@, index as int) == index);
    while index > 0 && !is_whitespace(input[index - 1])
        invariant
            index <= mid <= cursor <= input.len(),
            skip_word_back(input@, mid as int) == skip_word_back(input@, index as int),
        decreases index,
    {
        index -= 1;
    }
    index
}

/// The chosen suggestion followed by a space, as `format!("{} ", command)`.
fn completion(command: &'static str) -> (r: Vec<char>)
    ensures
        r@ == command@.push(' '),
{
    let mut v = chars_of(command);
    v.push(' ');
    v
}

impl PromptEditor {
    /// An empty editor.
    pub fn new(auto_edit: bool) -> (r: PromptEditor)
        ensures
            r@.input.len() == 0,
            r@.cursor == 0,
            r@.history_idx is None,
            !r@.ctrl_c_armed,
            r@.selected == 0,
            r@.auto_edit == auto_edit,
    {
        PromptEditor {
            input: Vec::new(),
            cursor: 0,
            history_idx: None,
            ctrl_c_armed: false,
            selected_suggestion: 0,
            auto_edit,
        }
    }

    /// The text typed so far.
    pub fn text(&self) -> (r: String)
        ensures
            r@ == self@.input,
    {
        string_from_chars(self.input.as_slice())
    }

    /// Replaces the text, moving the cursor to its end.
    fn set_text(&mut self, input: Vec<char>, idx: Option<usize>)
        ensures
            final(self)@ == with_text(
                old(self)@,
                input@,
                match idx {
                    Some(i) => Some(i as int),
                    None => None,
                },
            ),
    {
        self.cursor = input.len();
        self.input = input;
        self.history_idx = idx;
        self.ctrl_c_armed = false;
        self.selected_suggestion = 0;
    }

    /// Applies one key press (see `step_spec`) and says what to do next.
    pub fn handle_key(&mut self, key: PromptKey, history: &[String]) -> (act: PromptAction)
        requires
            editor_wf(old(self)@, history@.len()),
        ensures
            (final(self)@, act@) == step_spec(old(self)@, key, texts(history@)),
            editor_wf(final(self)@, history@.len()),
    {
        let ghost m = self@;
        let ghost hs = texts(history@);
        let text = string_from_chars(self.input.as_slice());
        let sugg = filtered_command_suggestions(text.as_str());
        let ghost sm = sugg@.map_values(|c: crate::slash_commands::SlashCommand| c@);
        assert(sm == suggestions_spec(m.input));
        assert(sm.len() == sugg.len());
        let n = sugg.len();
        let len = self.input.len();
        let safe = if n > 0 && self.selected_suggestion < n - 1 {
            self.selected_suggestion
        } else if n > 0 {
            n - 1
        } else {
            0
        };
        match key {
            PromptKey::Enter => {
                if n > 0 {
                    let chosen = sugg[safe].command;
                    let cmd = chars_of(chosen);
                    let trimmed = trim_chars(self.input.as_slice());
                    assert(sm[safe as int].command == chosen@);
                    if !chars_eq(trimmed.as_slice(), cmd.as_slice()) {
                        self.set_text(completion(chosen), None);
                        return PromptAction::Redraw;
                    }
                }
                PromptAction::Submit(text)
            },
            PromptKey::BackTab => {
                self.auto_edit = !self.auto_edit;
                self.ctrl_c_armed = false;
                PromptAction::Redraw
            },
            PromptKey::CtrlC => {
                if len == 0 {
                    if self.ctrl_c_armed {
                        return PromptAction::Cancel;
                    }
                    self.ctrl_c_armed = true;
                    return PromptAction::ExitHint;
                }
                self.input = Vec::new();
                self.cursor = 0;
                self.history_idx = None;
                self.ctrl_c_armed = false;
                self.selected_suggestion = 0;
                assert(self@.input =~= Seq::<char>::empty());
                PromptAction::Redraw
            },
            PromptKey::CtrlD => {
                if len == 0 {
                    return PromptAction::Cancel;
                }
                if self.cursor < len {
                    let c = self.cursor;
                    self.input.remove(c);
                    self.ctrl_c_armed = false;
                    self.selected_suggestion = 0;
                }
                PromptAction::Redraw
            },
            PromptKey::CtrlA | PromptKey::Home => {
                self.cursor = 0;
                self.ctrl_c_armed = false;
                PromptAction::Redraw
            },
            PromptKey::CtrlE | PromptKey::End => {
                self.cursor = len;
                self.ctrl_c_armed = false;
                PromptAction::Redraw
            },
            PromptKey::CtrlU => {
                let rest = slice_chars(self.input.as_slice(), self.cursor, len);
                self.input = rest;
                self.cursor = 0;
                self.history_idx = None;
                self.ctrl_c_armed = false;
                self.selected_suggestion = 0;
                assert(self@.input =~= m.input.skip(m.cursor));
                PromptAction::Redraw
            },
            PromptKey::CtrlW => {
                let start = previous_word_start(self.input.as_slice(), self.cursor);
                let mut kept = slice_chars(self.input.as_slice(), 0, start);
                let tail = slice_chars(self.input.as_slice(), self.cursor, len);
                push_chars(&mut kept, tail.as_slice());
                self.input = kept;
                self.cursor = start;
                self.history_idx = None;
                self.ctrl_c_armed = false;
                self.selected_suggestion = 0;
                assert(self@.input =~= m.input.take(start as int) + m.input.skip(m.cursor));
                PromptAction::Redraw
            },
            PromptKey::Left => {
                if self.cursor > 0 {
                    self.cursor = self.cursor - 1;
                }
                self.ctrl_c_armed = false;
                PromptAction::Redraw
            },
            PromptKey::Right => {
                if self.cursor < len {
                    self.cursor = self.cursor + 1;
                }
                self.ctrl_c_armed = false;
                PromptAction::Redraw
            },
            PromptKey::Backspace => {
                if self.cursor > 0 {
                    let c = self.cursor - 1;
                    self.input.remove(c);
                    self.cursor = c;
                    self.history_idx = None;
                    self.selected_suggestion = 0;
                }
                self.ctrl_c_armed = false;
                PromptAction::Redraw
            },
            PromptKey::Delete => {
                if self.cursor < len {
                    let c = self.cursor;
                    self.input.remove(c);
                    self.history_idx = None;
                    self.selected_suggestion = 0;
                }
                self.ctrl_c_armed = false;
                PromptAction::Redraw
            },
            PromptKey::Up => {
                if n > 0 {
                    self.selected_suggestion = if self.selected_suggestion == 0 {
                        n - 1
                    } else {
                        self.selected_suggestion - 1
                    };
                    self.ctrl_c_armed = false;
                } else if history.len() > 0 {
                    let next = match self.history_idx {
                        Some(i) => if i > 0 {
                            i - 1
                        } else {
                            0
                        },
                        None => history.len() - 1,
                    };
                    let entry = chars_of(history[next].as_str());
                    self.set_text(entry, Some(next));
                } else {
                    self.ctrl_c_armed = false;
                }
                PromptAction::Redraw
            },
            PromptKey::Down => {
                if n > 0 {
                    self.selected_suggestion = (self.selected_suggestion + 1) % n;
                    self.ctrl_c_armed = false;
                } else if history.len() > 0 {
                    match self.history_idx {
                        None => {
                            self.selected_suggestion = 0;
                            self.ctrl_c_armed = false;
                        },
                        Some(i) => {
                            if i + 1 >= history.len() {
                                self.set_text(Vec::new(), None);
                                assert(self@.input =~= Seq::<char>::empty());
                            } else {
                                let entry = chars_of(history[i + 1].as_str());
                                self.set_text(entry, Some(i + 1));
                            }
                        },
                    }
                } else {
                    self.ctrl_c_armed = false;
                }
                PromptAction::Redraw
            },
            PromptKey::Tab => {
                if n > 0 {
                    let chosen = sugg[safe].command;
                    assert(sm[safe as int].command == chosen@);
                    self.set_text(completion(chosen), None);
                } else {
                    self.ctrl_c_armed = false;
                }
                PromptAction::Redraw
            },
            PromptKey::Char(ch) => {
                let c = self.cursor;
                self.input.insert(c, ch);
                let grown = self.input.len();
                assert(c < grown);
                self.cursor = c + 1;
                self.history_idx = None;
                self.ctrl_c_armed = false;
                self.selected_suggestion = 0;
                PromptAction::Redraw
            },
            PromptKey::ModifiedChar => PromptAction::Redraw,
            PromptKey::Other => {
                self.ctrl_c_armed = false;
                PromptAction::Redraw
            },
        }
    }
}

/// Typing a character and then deleting it with Backspace gives back the text
/// and the cursor position.
pub proof fn law_backspace_undoes_typing(m: EditorModel, ch: char, history: Seq<Seq<char>>)
    requires
        editor_wf(m, history.len()),
    ensures
        ({
            let typed = step_spec(m, PromptKey::Char(ch), history).0;
            let back = step_spec(typed, PromptKey::Backspace, history).0;
            back.input == m.input && back.cursor == m.cursor
        }),
{
    assert(m.input.insert(m.cursor, ch).remove(m.cursor) =~= m.input);
}

/// On an empty line a first Ctrl+C only warns, and a second one leaves the prompt.
pub proof fn law_double_ctrl_c_exits(m: EditorModel, history: Seq<Seq<char>>)
    requires
        m.input.len() == 0,
        !m.ctrl_c_armed,
    ensures
        step_spec(m, PromptKey::CtrlC, history).1 is ExitHint,
        step_spec(step_spec(m, PromptKey::CtrlC, history).0, PromptKey::CtrlC, history).1 is Cancel,
{
}

/// The keys that move the cursor never change the text, and keep the cursor
/// within it.
pub proof fn law_cursor_keys_keep_text(m: EditorModel, key: PromptKey, history: Seq<Seq<char>>)
    requires
        editor_wf(m, history.len()),
        key is Left || key is Right || key is Home || key is End || key is CtrlA || key is CtrlE,
    ensures
        step_spec(m, key, history).0.input == m.input,
        0 <= step_spec(m, key, history).0.cursor <= m.input.len(),
        step_spec(m, key, history).1 is Redraw,
{
}

/// The status line under the prompt: the auto-edit state and the model.
pub open spec fn status_line(auto_edit: bool, model: Seq<char>) -> Seq<char> {
    (if auto_edit {
        "\u{25b6}"@
    } else {
        "\u{23f8}"@
    }) + " auto-edit: "@ + (if auto_edit {
        "on"@
    } else {
        "off"@
    }) + " (shift + tab)   ~= "@ + model
}

/// One suggestion line of the panel.
pub open spec fn suggestion_row(c: crate::slash_commands::CommandModel, marked: bool) -> Seq<char> {
    "  "@ + (if marked {
        ">"@
    } else {
        " "@
    }) + " "@ + pad_right(c.command, 18) + " "@ + c.description
}

/// How many suggestions the panel shows at most.
pub const SUGGESTION_LINES: usize = 6;

/// The panel under the prompt: the status line and, while a command is typed,
/// up to six matching commands (the highlighted one marked), how many more there
/// are, and the key hints.
pub open spec fn panel_spec(input: Seq<char>, selected: int, auto_edit: bool, model: Seq<char>) -> Seq<
    Seq<char>,
> {
    let status = status_line(auto_edit, model);
    if !(input.len() > 0 && input[0] == '/') {
        seq![status]
    } else {
        let ms = suggestions_spec(input);
        if ms.len() == 0 {
            seq![status, "slash commands: (no matches)"@]
        } else {
            let safe = safe_index(selected, ms.len() as int);
            let shown: int = if ms.len() < 6 {
                ms.len() as int
            } else {
                6
            };
            seq![status, "slash commands:"@] + Seq::new(
                shown as nat,
                |k: int| suggestion_row(ms[k], k == safe),
            ) + (if ms.len() > 6 {
                seq!["    ... +"@ + decimal((ms.len() - 6) as nat) + " more"@]
            } else {
                Seq::empty()
            }) + seq!["    \u{2191}/\u{2193} navigate  Tab autocomplete  Enter run"@]
        }
    }
}

/// The lines of the panel under the prompt (see `panel_spec`).
pub fn build_prompt_panel(input: &str, selected_index: usize, auto_edit: bool, current_model: &str) -> (r:
    Vec<String>)
    ensures
        texts(r@) == panel_spec(input@, selected_index as int, auto_edit, current_model@),
{
    let mut status: Vec<char> = if auto_edit {
        chars_of("\u{25b6}")
    } else {
        chars_of("\u{23f8}")
    };
    push_str(&mut status, " auto-edit: ");
    if auto_edit {
        push_str(&mut status, "on");
    } else {
        push_str(&mut status, "off");
    }
    push_str(&mut status, " (shift + tab)   ~= ");
    push_str(&mut status, current_model);
    let mut lines: Vec<String> = Vec::new();
    lines.push(string_from_chars(status.as_slice()));
    let raw = chars_of(input);
    if raw.len() == 0 || raw[0] != '/' {
        assert(texts(lines@) =~= panel_spec(input@, selected_index as int, auto_edit, current_model@));
        return lines;
    }
    let matches = filtered_command_suggestions(input);
    let ghost ms = matches@.map_values(|c: crate::slash_commands::SlashCommand| c@);
    assert(ms.len() == matches.len());
    if matches.len() == 0 {
        lines.push(String::from_str("slash commands: (no matches)"));
        assert(texts(lines@) =~= panel_spec(input@, selected_index as int, auto_edit, current_model@));
        return lines;
    }
    lines.push(String::from_str("slash commands:"));
    let n = matches.len();
    let safe = if selected_index < n - 1 {
        selected_index
    } else {
        n - 1
    };
    let shown = if n < SUGGESTION_LINES {
        n
    } else {
        SUGGESTION_LINES
    };
    let ghost head = texts(lines@);
    let mut k: usize = 0;
    while k < shown
        invariant
            k <= shown <= n,
            n == matches.len(),
            ms == matches@.map_values(|c: crate::slash_commands::SlashCommand| c@),
            texts(lines@) == head + Seq::new(k as nat, |j: int| suggestion_row(ms[j], j == safe)),
        decreases shown - k,
    {
        let c = matches[k];
        let mut row = chars_of("  ");
        if k == safe {
            push_str(&mut row, ">");
        } else {
            push_str(&mut row, " ");
        }
        push_str(&mut row, " ");
        push_padded(&mut row, c.command, 18);
        push_str(&mut row, " ");
        push_str(&mut row, c.description);
        let ghost before = texts(lines@);
        lines.push(string_from_chars(row.as_slice()));
        proof {
            assert(ms[k as int] == c@);
            assert(row@ =~= suggestion_row(ms[k as int], k == safe));
            assert(texts(lines@) =~= before.push(row@));
            assert(texts(lines@) =~= head + Seq::new((k + 1) as nat, |j: int| suggestion_row(ms[j], j == safe)));
        }
        k += 1;
    }
    let ghost rows = texts(lines@);
    if n > SUGGESTION_LINES {
        let mut more = chars_of("    ... +");
        push_decimal(&mut more, n - SUGGESTION_LINES);
        push_str(&mut more, " more");
        lines.push(string_from_chars(more.as_slice()));
        assert(texts(lines@) =~= rows.push(more@));
    }
    let ghost with_more = texts(lines@);
    lines.push(String::from_str("    \u{2191}/\u{2193} navigate  Tab autocomplete  Enter run"));
    assert(texts(lines@) =~= with_more.push("    \u{2191}/\u{2193} navigate  Tab autocomplete  Enter run"@));
    assert(texts(lines@) =~= panel_spec(input@, selected_index as int, auto_edit, current_model@));
    lines
}

/// A panel line cut to fit a terminal `width` columns wide: at most `width - 1`
/// characters, the last one an ellipsis when the line was cut.
pub open spec fn fit_line(text: Seq<char>, width: nat) -> Seq<char> {
    let max: int = if width > 0 {
        width - 1
    } else {
        0
    };
    if max == 0 {
        Seq::empty()
    } else if text.len() <= max {
        text
    } else if max == 1 {
        seq!['\u{2026}']
    } else {
        text.take(max - 1).push('\u{2026}')
    }
}

/// Cuts a panel line to the terminal width (see `fit_line`).
pub fn fit_terminal_line(text: &str, terminal_cols: usize) -> (r: String)
    ensures
        r@ == fit_line(text@, terminal_cols as nat),
{
    let max = if terminal_cols > 0 {
        terminal_cols - 1
    } else {
        0
    };
    if max == 0 {
        return String::new();
    }
    let cs = chars_of(text);
    if cs.len() <= max {
        return string_from_chars(cs.as_slice());
    }
    if max == 1 {
        let mut one: Vec<char> = Vec::new();
        one.push('\u{2026}');
        assert(one@ =~= seq!['\u{2026}']);
        return string_from_chars(one.as_slice());
    }
    let mut kept = slice_chars(cs.as_slice(), 0, max - 1);
    kept.push('\u{2026}');
    string_from_chars(kept.as_slice())
}

/// The terminal column of the cursor: after the two-column `> ` prompt, and
/// never past the last column.
pub fn cursor_column(cursor: usize, terminal_cols: usize) -> (r: usize)
    requires
        cursor + 2 <= usize::MAX,
    ensures
        r == (if cursor + 2 < (if terminal_cols > 0 {
            terminal_cols - 1
        } else {
            0
        }) {
            cursor + 2
        } else if terminal_cols > 0 {
            terminal_cols - 1
        } else {
            0
        }),
{
    let max_col = if terminal_cols > 0 {
        terminal_cols - 1
    } else {
        0
    };
    let target = cursor + 2;
    if target < max_col {
        target
    } else {
        max_col
    }
}

/// A key press in the option picker.
#[derive(Debug, Clone, Copy, PartialEq, Eq, Structural)]
pub enum PickerKey {
    Up,
    Down,
    /// Enter or Tab.
    Confirm,
    /// Esc or Ctrl+C.
    Cancel,
    Other,
}

/// What a key press in the option picker leads to.
#[derive(Debug, Clone, Copy, PartialEq, Eq, Structural)]
pub enum PickerStep {
    /// The highlighted option is now this one; draw again.
    Highlight(usize),
    /// This option is chosen.
    Chosen(usize),
    /// The picker is left without a choice.
    Cancelled,
}

/// `r` is where a picker over `options` starts for `current`: the first option
/// equal to it, or the first option when there is none.
pub open spec fn initial_selection_spec(options: Seq<Seq<char>>, current: Option<Seq<char>>, r: int) -> bool {
    match current {
        Some(c) => if exists|i: int| 0 <= i < options.len() && #[trigger] options[i] == c {
            &&& 0 <= r < options.len()
            &&& options[r] == c
            &&& forall|j: int| 0 <= j < r ==> #[trigger] options[j] != c
        } else {
            r == 0
        },
        None => r == 0,
    }
}

/// Where the picker starts (see `initial_selection_spec`).
pub fn initial_selection(available: &[String], current: Option<&str>) -> (r: usize)
    ensures
        initial_selection_spec(texts(available@), opt_text(current), r as int),
{
    let ghost opts = texts(available@);
    match current {
        None => 0,
        Some(c) => {
            let target = chars_of(c);
            let mut i: usize = 0;
            while i < available.len()
                invariant
                    i <= available.len(),
                    opts == texts(available@),
                    current == Some(c),
                    target@ == c@,
                    forall|j: int| 0 <= j < i ==> #[trigger] opts[j] != c@,
                decreases available.len() - i,
            {
                let here = chars_of(available[i].as_str());
                assert(opts[i as int] == here@);
                if chars_eq(here.as_slice(), target.as_slice()) {
                    assert(opts[i as int] == c@);
                    return i;
                }
                i += 1;
            }
            assert forall|k: int| 0 <= k < opts.len() implies #[trigger] opts[k] != c@ by {}
            0
        },
    }
}

/// The lines the picker shows: the title with the key hints, then one line per
/// option, the highlighted one marked and the current one labelled.
pub open spec fn picker_spec(
    title: Seq<char>,
    options: Seq<Seq<char>>,
    selected: int,
    current: Option<Seq<char>>,
) -> Seq<Seq<char>> {
    seq![title + " (\u{2191}/\u{2193} navigate, Enter/Tab confirm, Esc cancel):"@] + Seq::new(
        options.len(),
        |k: int|
            (if k == selected {
                ">"@
            } else {
                " "@
            }) + " "@ + options[k] + (if current == Some(options[k]) {
                " (current)"@
            } else {
                Seq::empty()
            }),
    )
}

/// The lines the picker shows (see `picker_spec`).
pub fn picker_lines(title: &str, available: &[String], selected: usize, current: Option<&str>) -> (r:
    Vec<String>)
    ensures
        texts(r@) == picker_spec(
            title@,
            texts(available@),
            selected as int,
            match current {
                Some(c) => Some(c@),
                None => None,
            },
        ),
{
    let ghost cur: Option<Seq<char>> = match current {
        Some(c) => Some(c@),
        None => None,
    };
    let ghost opts = texts(available@);
    let mut head = chars_of(title);
    push_str(&mut head, " (\u{2191}/\u{2193} navigate, Enter/Tab confirm, Esc cancel):");
    let mut lines: Vec<String> = Vec::new();
    lines.push(string_from_chars(head.as_slice()));
    let ghost first = texts(lines@);
    let target: Option<Vec<char>> = match current {
        Some(c) => Some(chars_of(c)),
        None => None,
    };
    let mut k: usize = 0;
    while k < available.len()
        invariant
            k <= available.len(),
            opts == texts(available@),
            match target {
                Some(t) => cur == Some(t@),
                None => cur is None,
            },
            texts(lines@) == first + Seq::new(
                k as nat,
                |j: int|
                    (if j == selected {
                        ">"@
                    } else {
                        " "@
                    }) + " "@ + opts[j] + (if cur == Some(opts[j]) {
                        " (current)"@
                    } else {
                        Seq::empty()
                    }),
            ),
        decreases available.len() - k,
    {
        let name = chars_of(available[k].as_str());
        let mut row = if k == selected {
            chars_of(">")
        } else {
            chars_of(" ")
        };
        push_str(&mut row, " ");
        push_chars(&mut row, name.as_slice());
        let is_current = match &target {
            Some(t) => chars_eq(name.as_slice(), t.as_slice()),
            None => false,
        };
        if is_current {
            push_str(&mut row, " (current)");
        }
        let ghost before = texts(lines@);
        lines.push(string_from_chars(row.as_slice()));
        proof {
            assert(opts[k as int] == name@);
            assert(is_current == (cur == Some(opts[k as int])));
            assert(texts(lines@) =~= before.push(row@));
        }
        k += 1;
    }
    assert(texts(lines@) =~= picker_spec(title@, opts, selected as int, cur));
    lines
}

/// What a key press does in a picker of `len` options with `selected` highlighted:
/// Up and Down move the highlight round the list, Enter or Tab chooses, Esc or
/// Ctrl+C leaves.
pub fn picker_step(selected: usize, len: usize, key: PickerKey) -> (r: PickerStep)
    requires
        selected < len,
    ensures
        match key {
            PickerKey::Up => r == PickerStep::Highlight(
                if selected == 0 {
                    (len - 1) as usize
                } else {
                    (selected - 1) as usize
                },
            ),
            PickerKey::Down => r == PickerStep::Highlight(((selected + 1) % (len as int)) as usize),
            PickerKey::Confirm => r == PickerStep::Chosen(selected),
            PickerKey::Cancel => r == PickerStep::Cancelled,
            PickerKey::Other => r == PickerStep::Highlight(selected),
        },
        r matches PickerStep::Highlight(i) ==> i < len,
{
    match key {
        PickerKey::Up => PickerStep::Highlight(
            if selected == 0 {
                len - 1
            } else {
                selected - 1
            },
        ),
        PickerKey::Down => PickerStep::Highlight((selected + 1) % len),
        PickerKey::Confirm => PickerStep::Chosen(selected),
        PickerKey::Cancel => PickerStep::Cancelled,
        PickerKey::Other => PickerStep::Highlight(selected),
    }
}


/// The white space before `cursor` in `s` starts at `t`, and the run of other
/// characters before it starts at `start`; neither run can be extended
/// further back.
pub open spec fn word_runs(s: Seq<char>, cursor: int, t: int, start: int) -> bool {
    &&& 0 <= start <= t <= cursor <= s.len()
    &&& forall|j: int| t <= j < cursor ==> is_ws(#[trigger] s[j])
    &&& forall|j: int| start <= j < t ==> !is_ws(#[trigger] s[j])
    &&& (t == 0 || !is_ws(s[t - 1]))
    &&& (start == 0 || is_ws(s[start - 1]))
}

/// `start` is where Ctrl+W deletes back to from `cursor` in `s`: the start of
/// the word before the white space before the cursor (see `word_runs`).
pub open spec fn word_cut(s: Seq<char>, cursor: int, start: int) -> bool {
    exists|t: int| #[trigger] word_runs(s, cursor, t, start)
}

/// Where `skip_ws_back` stops: white space behind, none just before.
proof fn lemma_skip_ws_back_stops(s: Seq<char>, i: int)
    requires
        0 <= i <= s.len(),
    ensures
        0 <= skip_ws_back(s, i) <= i,
        forall|j: int| skip_ws_back(s, i) <= j < i ==> is_ws(#[trigger] s[j]),
        skip_ws_back(s, i) == 0 || !is_ws(s[skip_ws_back(s, i) - 1]),
    decreases i,
{
    if i > 0 && is_ws(s[i - 1]) {
        lemma_skip_ws_back_stops(s, i - 1);
    }
}

/// Where `skip_word_back` stops: other characters behind, white space (or the
/// start) just before.
proof fn lemma_skip_word_back_stops(s: Seq<char>, i: int)
    requires
        0 <= i <= s.len(),
    ensures
        0 <= skip_word_back(s, i) <= i,
        forall|j: int| skip_word_back(s, i) <= j < i ==> !is_ws(#[trigger] s[j]),
        skip_word_back(s, i) == 0 || is_ws(s[skip_word_back(s, i) - 1]),
    decreases i,
{
    if i > 0 && !is_ws(s[i - 1]) {
        lemma_skip_word_back_stops(s, i - 1);
    }
}

/// `word_start` is the point that `word_cut` describes.
pub proof fn lemma_word_start_cut(s: Seq<char>, cursor: int)
    requires
        0 <= cursor <= s.len(),
    ensures
        word_cut(s, cursor, word_start(s, cursor)),
{
    lemma_skip_ws_back_stops(s, cursor);
    let t = skip_ws_back(s, cursor);
    lemma_skip_word_back_stops(s, t);
    assert(word_runs(s, cursor, t, word_start(s, cursor)));
}

/// Ctrl+W deletes the word before the cursor and the white space after it,
/// and nothing else: the text keeps everything before the start of that word
/// (see `word_cut`) and everything from the cursor on, and the cursor moves to
/// that start.
pub proof fn law_ctrl_w_deletes_previous_word(m: EditorModel, history: Seq<Seq<char>>)
    requires
        editor_wf(m, history.len()),
    ensures
        ({
            let after = step_spec(m, PromptKey::CtrlW, history).0;
            &&& word_cut(m.input, m.cursor, after.cursor)
            &&& after.input == m.input.take(after.cursor) + m.input.skip(m.cursor)
        }),
{
    lemma_word_start_cut(m.input, m.cursor);
}

} // verus!
