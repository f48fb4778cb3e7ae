//! The line editor of the inline front end: the prompt's text, its cursor, the
//! history, and Tab completion of slash commands that cycles through the
//! matches, with the hint row shown under the prompt. The terminal is the
//! caller's part: it turns key presses into `PromptKey`s and draws the line and
//! the hint.
//!
//! The cursor counts characters, not bytes.
use vstd::prelude::*;

use crate::image_input::opt_string;
use crate::order::texts;
use crate::protocol::owned;
use crate::text::{
    chars_eq, chars_of, push_chars, push_str, slice_chars, starts_with, starts_with_exec, starts_with_str,
    string_from_chars, trim, trim_chars,
};
use crate::ui::prompt::{lemma_word_start_cut, previous_word_start, word_cut, word_start, ActionModel, PromptAction, PromptKey};

verus! {

/// The slash commands that Tab completes.
pub open spec fn inline_slash_commands() -> Seq<Seq<char>> {
    seq!["/help"@, "/clear"@, "/models"@, "/commit-and-push"@, "/exit"@]
}

/// The commands of `cmds` that start with `prefix`, in their order.
pub open spec fn matches_of(cmds: Seq<Seq<char>>, prefix: Seq<char>) -> Seq<Seq<char>>
    decreases cmds.len(),
{
    if cmds.len() == 0 {
        Seq::empty()
    } else if starts_with(cmds.last(), prefix) {
        matches_of(cmds.drop_last(), prefix).push(cmds.last())
    } else {
        matches_of(cmds.drop_last(), prefix)
    }
}

/// The slash commands that start with `prefix`.
pub open spec fn slash_matches_spec(prefix: Seq<char>) -> Seq<Seq<char>> {
    matches_of(inline_slash_commands(), prefix)
}

/// The slash commands that start with `prefix`, in the order of the list.
pub fn slash_matches(prefix: &str) -> (r: Vec<String>)
    ensures
        texts(r@) == slash_matches_spec(prefix@),
{
    let list: Vec<&'static str> = vec!["/help", "/clear", "/models", "/commit-and-push", "/exit"];
    assert(list@.map_values(|s: &'static str| s@) =~= inline_slash_commands());
    let p = chars_of(prefix);
    let mut out: Vec<String> = Vec::new();
    let mut i: usize = 0;
    while i < list.len()
        invariant
            i <= list.len(),
            list@.map_values(|s: &'static str| s@) == inline_slash_commands(),
            p@ == prefix@,
            texts(out@) == matches_of(inline_slash_commands().take(i as int), prefix@),
        decreases list.len() - i,
    {
        let ghost cmds = inline_slash_commands();
        assert(cmds.take(i + 1).drop_last() =~= cmds.take(i as int));
        assert(cmds.take(i + 1).last() == list@[i as int]@);
        let c = chars_of(list[i]);
        if starts_with_exec(c.as_slice(), p.as_slice()) {
            out.push(owned(list[i]));
            assert(texts(out@) =~= matches_of(cmds.take(i as int), prefix@).push(list@[i as int]@));
        }
        i += 1;
    }
    assert(inline_slash_commands().take(5) =~= inline_slash_commands());
    out
}

/// `parts` joined with `sep` between each two.
pub open spec fn joined_with(parts: Seq<Seq<char>>, sep: Seq<char>) -> Seq<char>
    decreases parts.len(),
{
    if parts.len() == 0 {
        Seq::empty()
    } else if parts.len() == 1 {
        parts[0]
    } else {
        joined_with(parts.drop_last(), sep) + sep + parts.last()
    }
}

/// How the hint shows the `k`-th match: in brackets when it is the one Tab
/// would put in next.
pub open spec fn rendered_match(ms: Seq<Seq<char>>, active: int, k: int) -> Seq<char> {
    if k == active {
        "["@ + ms[k] + "]"@
    } else {
        ms[k]
    }
}

/// The parts of the hint: at most five matches, then `...` when there are more.
pub open spec fn hint_parts(ms: Seq<Seq<char>>, active: int) -> Seq<Seq<char>> {
    let shown: int = if ms.len() < 5 { ms.len() as int } else { 5 };
    Seq::new(shown as nat, |k: int| rendered_match(ms, active, k)) + if ms.len() > 5 {
        seq!["..."@]
    } else {
        Seq::empty()
    }
}

/// The hint row under the prompt: only for a line that starts with `/`, it
/// lists the matching commands, the one of the current completion in brackets.
pub open spec fn hint_spec(input: Seq<char>, prefix: Seq<char>, matches: Seq<Seq<char>>, index: int) -> Option<
    Seq<char>,
> {
    if !starts_with(input, "/"@) {
        None
    } else {
        let p = trim(input);
        let ms = slash_matches_spec(p);
        if ms.len() == 0 {
            Some("commands: (no matches)"@)
        } else {
            let active: int = if prefix == p && matches.len() > 0 {
                index % (matches.len() as int)
            } else {
                -1
            };
            Some("commands: "@ + joined_with(hint_parts(ms, active), "  "@))
        }
    }
}

/// The hint row for the current line and completion state (see `hint_spec`).
pub fn build_command_hint(
    input: &str,
    completion_prefix: &str,
    completion_matches: &[String],
    completion_index: usize,
) -> (r: Option<String>)
    ensures
        opt_string(r) == hint_spec(
            input@,
            completion_prefix@,
            texts(completion_matches@),
            completion_index as int,
        ),
{
    let cs = chars_of(input);
    if !starts_with_str(cs.as_slice(), "/") {
        return None;
    }
    let p = trim_chars(cs.as_slice());
    let ps = string_from_chars(p.as_slice());
    let ms = slash_matches(ps.as_str());
    let ghost msv = texts(ms@);
    if ms.len() == 0 {
        return Some(owned("commands: (no matches)"));
    }
    let pc = chars_of(completion_prefix);
    let same = chars_eq(pc.as_slice(), p.as_slice());
    let has_active = same && completion_matches.len() > 0;
    let active: usize = if has_active {
        completion_index % completion_matches.len()
    } else {
        0
    };
    let ghost active_spec: int = if has_active { active as int } else { -1 };
    let shown: usize = if ms.len() < 5 {
        ms.len()
    } else {
        5
    };
    let mut parts: Vec<Vec<char>> = Vec::new();
    let mut k: usize = 0;
    while k < shown
        invariant
            k <= shown <= ms.len(),
            shown == (if ms.len() < 5 { ms.len() } else { 5 }),
            msv == texts(ms@),
            active_spec == (if has_active { active as int } else { -1 }),
            parts@.len() == k,
            forall|j: int| 0 <= j < k ==> #[trigger] parts@[j]@ == rendered_match(msv, active_spec, j),
        decreases shown - k,
    {
        let name = chars_of(ms[k].as_str());
        if has_active && k == active {
            let mut t = chars_of("[");
            push_chars(&mut t, name.as_slice());
            push_str(&mut t, "]");
            parts.push(t);
        } else {
            parts.push(name);
        }
        k += 1;
    }
    if ms.len() > 5 {
        parts.push(chars_of("..."));
    }
    let ghost want = hint_parts(msv, active_spec);
    assert(parts@.map_values(|v: Vec<char>| v@) =~= want);
    let mut out = chars_of("commands: ");
    let ghost head = out@;
    let mut i: usize = 0;
    while i < parts.len()
        invariant
            i <= parts.len(),
            parts@.map_values(|v: Vec<char>| v@) == want,
            out@ == head + joined_with(want.take(i as int), "  "@),
        decreases parts.len() - i,
    {
        assert(want.take(i + 1).drop_last() =~= want.take(i as int));
        if i > 0 {
            push_str(&mut out, "  ");
        }
        push_chars(&mut out, parts[i].as_slice());
        assert(want[i as int] == parts@[i as int]@);
        proof {
            if i == 0 {
                assert(want.take(1) =~= seq![want[0]]);
            }
        }
        i += 1;
    }
    assert(want.take(parts.len() as int) =~= want);
    Some(string_from_chars(out.as_slice()))
}

/// The state of the inline line editor.
pub struct InlineEditor {
    /// The text typed so far.
    pub input: Vec<char>,
    /// Characters before the cursor.
    pub cursor: usize,
    /// The history entry shown, if the text comes from the history.
    pub history_idx: Option<usize>,
    /// A first Ctrl+C on an empty line arms the exit.
    pub ctrl_c_armed: bool,
    /// The line that the current Tab completion started from.
    pub completion_prefix: Vec<char>,
    /// The commands that the current Tab completion cycles through.
    pub completion_matches: Vec<String>,
    /// The command of the current Tab completion.
    pub completion_index: usize,
}

/// The view of the inline editor.
pub struct InlineModel {
    pub input: Seq<char>,
    pub cursor: int,
    pub history_idx: Option<int>,
    pub ctrl_c_armed: bool,
    pub prefix: Seq<char>,
    pub matches: Seq<Seq<char>>,
    pub index: int,
}

impl View for InlineEditor {
    type V = InlineModel;

    open spec fn view(&self) -> InlineModel {
        InlineModel {
            input: self.input@,
            cursor: self.cursor as int,
            history_idx: match self.history_idx {
                Some(i) => Some(i as int),
                None => None,
            },
            ctrl_c_armed: self.ctrl_c_armed,
            prefix: self.completion_prefix@,
            matches: texts(self.completion_matches@),
            index: self.completion_index as int,
        }
    }
}

/// A consistent state for a history of `history_len` lines: the cursor lies
/// within the text, the history entry exists, and the completion index points
/// at one of the matches (0 when there are none).
pub open spec fn inline_wf(m: InlineModel, history_len: nat) -> bool {
    &&& 0 <= m.cursor <= m.input.len()
    &&& (m.history_idx matches Some(i) ==> 0 <= i < history_len)
    &&& 0 <= m.index
    &&& (if m.matches.len() == 0 { m.index == 0 } else { m.index < m.matches.len() })
}

/// The state with the completion forgotten and the exit disarmed.
pub open spec fn reset(m: InlineModel) -> InlineModel {
    InlineModel { prefix: Seq::empty(), matches: Seq::empty(), index: 0, ctrl_c_armed: false, ..m }
}

/// The state with the exit disarmed.
pub open spec fn calm(m: InlineModel) -> InlineModel {
    InlineModel { ctrl_c_armed: false, ..m }
}

/// The state with its text edited to `input` and the cursor at `cursor`: the
/// history entry and the completion are forgotten.
pub open spec fn rewritten(m: InlineModel, input: Seq<char>, cursor: int) -> InlineModel {
    InlineModel { input, cursor, history_idx: None, ..reset(m) }
}

/// The state showing `input` from history entry `idx`, the cursor at its end.
pub open spec fn recalled(m: InlineModel, input: Seq<char>, idx: Option<int>) -> InlineModel {
    InlineModel { input, cursor: input.len() as int, history_idx: idx, ..reset(m) }
}

/// What Tab does to the completion: a new line starts a new completion over
/// the matching commands, the same line moves on to the next match.
pub open spec fn completion_after_tab(m: InlineModel) -> (Seq<char>, Seq<Seq<char>>, int) {
    let p = trim(m.input);
    if m.matches.len() == 0 || m.prefix != p {
        (p, slash_matches_spec(p), 0)
    } else {
        (m.prefix, m.matches, (m.index + 1) % (m.matches.len() as int))
    }
}

/// What one key press does to the inline editor, with the history `history`.
pub open spec fn inline_step(m: InlineModel, key: PromptKey, history: Seq<Seq<char>>) -> (
    InlineModel,
    ActionModel,
) {
    let len = m.input.len() as int;
    match key {
        PromptKey::Enter => (m, ActionModel::Submit(m.input)),
        PromptKey::CtrlC => if len == 0 {
            if m.ctrl_c_armed {
                (m, ActionModel::Cancel)
            } else {
                (InlineModel { ctrl_c_armed: true, ..m }, ActionModel::ExitHint)
            }
        } else {
            (rewritten(m, Seq::empty(), 0), ActionModel::Redraw)
        },
        PromptKey::CtrlD => if len == 0 {
            (m, ActionModel::Cancel)
        } else if m.cursor < len {
            (InlineModel { input: m.input.remove(m.cursor), ..reset(m) }, ActionModel::Redraw)
        } else {
            (m, ActionModel::Redraw)
        },
        PromptKey::CtrlA | PromptKey::Home => (InlineModel { cursor: 0, ..calm(m) }, ActionModel::Redraw),
        PromptKey::CtrlE | PromptKey::End => (InlineModel { cursor: len, ..calm(m) }, ActionModel::Redraw),
        PromptKey::CtrlU => (rewritten(m, m.input.skip(m.cursor), 0), ActionModel::Redraw),
        PromptKey::CtrlW => {
            let start = word_start(m.input, m.cursor);
            (rewritten(m, m.input.take(start) + m.input.skip(m.cursor), start), ActionModel::Redraw)
        },
        PromptKey::Left => (
            InlineModel {
                cursor: if m.cursor > 0 {
                    m.cursor - 1
                } else {
                    0
                },
                ..calm(m)
            },
            ActionModel::Redraw,
        ),
        PromptKey::Right => (
            InlineModel {
                cursor: if m.cursor < len {
                    m.cursor + 1
                } else {
                    len
                },
                ..calm(m)
            },
            ActionModel::Redraw,
        ),
        PromptKey::Backspace => if m.cursor > 0 {
            (rewritten(m, m.input.remove(m.cursor - 1), m.cursor - 1), ActionModel::Redraw)
        } else {
            (calm(m), ActionModel::Redraw)
        },
        PromptKey::Delete => if m.cursor < len {
            (rewritten(m, m.input.remove(m.cursor), m.cursor), ActionModel::Redraw)
        } else {
            (calm(m), ActionModel::Redraw)
        },
        PromptKey::Up => if history.len() > 0 {
            let next = match m.history_idx {
                Some(i) => if i > 0 {
                    i - 1
                } else {
                    0
                },
                None => history.len() - 1,
            };
            (recalled(m, history[next], Some(next)), ActionModel::Redraw)
        } else {
            (calm(m), ActionModel::Redraw)
        },
        PromptKey::Down => if history.len() > 0 {
            match m.history_idx {
                None => (reset(m), ActionModel::Redraw),
                Some(i) => if i + 1 >= history.len() {
                    (recalled(m, Seq::empty(), None), ActionModel::Redraw)
                } else {
                    (recalled(m, history[i + 1], Some(i + 1)), ActionModel::Redraw)
                },
            }
        } else {
            (calm(m), ActionModel::Redraw)
        },
        PromptKey::Tab => if starts_with(m.input, "/"@) {
            let (p, ms, k) = completion_after_tab(m);
            let next = InlineModel { prefix: p, matches: ms, index: k, ..calm(m) };
            if k < ms.len() {
                let text = ms[k].push(' ');
                (InlineModel { input: text, cursor: text.len() as int, ..next }, ActionModel::Redraw)
            } else {
                (next, ActionModel::Redraw)
            }
        } else {
            (calm(m), ActionModel::Redraw)
        },
        PromptKey::Char(ch) => (rewritten(m, m.input.insert(m.cursor, ch), m.cursor + 1), ActionModel::Redraw),
        PromptKey::ModifiedChar => (m, ActionModel::Redraw),
        PromptKey::BackTab | PromptKey::Other => (calm(m), ActionModel::Redraw),
    }
}

impl InlineEditor {
    /// An empty editor.
    pub fn new() -> (r: InlineEditor)
        ensures
            r@.input.len() == 0,
            r@.cursor == 0,
            r@.history_idx is None,
            !r@.ctrl_c_armed,
            r@.prefix.len() == 0,
            r@.matches.len() == 0,
            r@.index == 0,
    {
        InlineEditor {
            input: Vec::new(),
            cursor: 0,
            history_idx: None,
            ctrl_c_armed: false,
            completion_prefix: Vec::new(),
            completion_matches: Vec::new(),
            completion_index: 0,
        }
    }

    /// The text typed so far.
    pub fn text(&self) -> (r: String)
        ensures
            r@ == self@.input,
    {
        string_from_chars(self.input.as_slice())
    }

    /// The hint row for the current state (see `hint_spec`).
    pub fn hint(&self) -> (r: Option<String>)
        ensures
            opt_string(r) == hint_spec(self@.input, self@.prefix, self@.matches, self@.index),
    {
        let text = string_from_chars(self.input.as_slice());
        let prefix = string_from_chars(self.completion_prefix.as_slice());
        build_command_hint(text.as_str(), prefix.as_str(), self.completion_matches.as_slice(), self.completion_index)
    }

    /// Forgets the completion and disarms the exit.
    fn reset_completion(&mut self)
        ensures
            final(self)@ == reset(old(self)@),
    {
        self.completion_prefix = Vec::new();
        self.completion_matches = Vec::new();
        self.completion_index = 0;
        self.ctrl_c_armed = false;
        assert(final(self)@.matches =~= Seq::<Seq<char>>::empty());
    }

    /// Shows `input` from history entry `idx`.
    fn recall(&mut self, input: Vec<char>, idx: Option<usize>)
        ensures
            final(self)@ == recalled(
                old(self)@,
                input@,
                match idx {
                    Some(i) => Some(i as int),
                    None => None,
                },
            ),
    {
        self.reset_completion();
        self.cursor = input.len();
        self.input = input;
        self.history_idx = idx;
    }

    /// Applies one key press (see `inline_step`) and says what to do next.
    pub fn handle_key(&mut self, key: PromptKey, history: &[String]) -> (act: PromptAction)
        requires
            inline_wf(old(self)@, history@.len()),
        ensures
            (final(self)@, act@) == inline_step(old(self)@, key, texts(history@)),
            inline_wf(final(self)@, history@.len()),
    {
        let ghost m = self@;
        let len = self.input.len();
        match key {
            PromptKey::Enter => PromptAction::Submit(string_from_chars(self.input.as_slice())),
            PromptKey::CtrlC => {
                if len == 0 {
                    if self.ctrl_c_armed {
                        return PromptAction::Cancel;
                    }
                    self.ctrl_c_armed = true;
                    return PromptAction::ExitHint;
                }
                self.reset_completion();
                self.input = Vec::new();
                self.cursor = 0;
                self.history_idx = None;
                assert(self@.input =~= Seq::<char>::empty());
                PromptAction::Redraw
            },
            PromptKey::CtrlD => {
                if len == 0 {
                    return PromptAction::Cancel;
                }
                if self.cursor < len {
                    let c = self.cursor;
                    self.reset_completion();
                    self.input.remove(c);
                }
                PromptAction::Redraw
            },
            PromptKey::CtrlA | PromptKey::Home => {
                self.cursor = 0;
                self.ctrl_c_armed = false;
                PromptAction::Redraw
            },
            PromptKey::CtrlE | PromptKey::End => {
                self.cursor = len;
                self.ctrl_c_armed = false;
                PromptAction::Redraw
            },
            PromptKey::CtrlU => {
                let rest = slice_chars(self.input.as_slice(), self.cursor, len);
                self.reset_completion();
                self.input = rest;
                self.cursor = 0;
                self.history_idx = None;
                assert(self@.input =~= m.input.skip(m.cursor));
                PromptAction::Redraw
            },
            PromptKey::CtrlW => {
                let start = previous_word_start(self.input.as_slice(), self.cursor);
                let mut kept = slice_chars(self.input.as_slice(), 0, start);
                let tail = slice_chars(self.input.as_slice(), self.cursor, len);
                push_chars(&mut kept, tail.as_slice());
                self.reset_completion();
                self.input = kept;
                self.cursor = start;
                self.history_idx = None;
                assert(self@.input =~= m.input.take(start as int) + m.input.skip(m.cursor));
                PromptAction::Redraw
            },
            PromptKey::Left => {
                if self.cursor > 0 {
                    self.cursor = self.cursor - 1;
                }
                self.ctrl_c_armed = false;
                PromptAction::Redraw
            },
            PromptKey::Right => {
                if self.cursor < len {
                    self.cursor = self.cursor + 1;
                }
                self.ctrl_c_armed = false;
                PromptAction::Redraw
            },
            PromptKey::Backspace => {
                if self.cursor > 0 {
                    let c = self.cursor - 1;
                    self.reset_completion();
                    self.input.remove(c);
                    self.cursor = c;
                    self.history_idx = None;
                }
                self.ctrl_c_armed = false;
                PromptAction::Redraw
            },
            PromptKey::Delete => {
                if self.cursor < len {
                    let c = self.cursor;
                    self.reset_completion();
                    self.input.remove(c);
                    self.history_idx = None;
                }
                self.ctrl_c_armed = false;
                PromptAction::Redraw
            },
            PromptKey::Up => {
                if history.len() > 0 {
                    let next = match self.history_idx {
                        Some(i) => if i > 0 {
                            i - 1
                        } else {
                            0
                        },
                        None => history.len() - 1,
                    };
                    let entry = chars_of(history[next].as_str());
                    self.recall(entry, Some(next));
                } else {
                    self.ctrl_c_armed = false;
                }
                PromptAction::Redraw
            },
            PromptKey::Down => {
                if history.len() > 0 {
                    match self.history_idx {
                        None => {
                            self.reset_completion();
                        },
                        Some(i) => {
                            if i + 1 >= history.len() {
                                self.recall(Vec::new(), None);
                                assert(self@.input =~= Seq::<char>::empty());
                            } else {
                                let entry = chars_of(history[i + 1].as_str());
                                self.recall(entry, Some(i + 1));
                            }
                        },
                    }
                } else {
                    self.ctrl_c_armed = false;
                }
                PromptAction::Redraw
            },
            PromptKey::Tab => {
                self.ctrl_c_armed = false;
                if starts_with_str(self.input.as_slice(), "/") {
                    let p = trim_chars(self.input.as_slice());
                    let same = chars_eq(self.completion_prefix.as_slice(), p.as_slice());
                    if self.completion_matches.len() == 0 || !same {
                        let ps = string_from_chars(p.as_slice());
                        self.completion_matches = slash_matches(ps.as_str());
                        self.completion_index = 0;
                        self.completion_prefix = p;
                    } else {
                        self.completion_index = (self.completion_index + 1) % self.completion_matches.len();
                    }
                    if self.completion_index < self.completion_matches.len() {
                        let mut text = chars_of(self.completion_matches[self.completion_index].as_str());
                        text.push(' ');
                        self.cursor = text.len();
                        self.input = text;
                    }
                }
                PromptAction::Redraw
            },
            PromptKey::Char(ch) => {
                let c = self.cursor;
                self.reset_completion();
                self.input.insert(c, ch);
                let grown = self.input.len();
                assert(c < grown);
                self.cursor = c + 1;
                self.history_idx = None;
                PromptAction::Redraw
            },
            PromptKey::ModifiedChar => PromptAction::Redraw,
            PromptKey::BackTab | PromptKey::Other => {
                self.ctrl_c_armed = false;
                PromptAction::Redraw
            },
        }
    }
}

/// Pressing Tab again on the line that a completion put in moves on to the
/// next matching command, and after as many presses as there are matches the
/// first one comes back.
pub proof fn law_tab_cycles_matches(m: InlineModel, history: Seq<Seq<char>>)
    requires
        inline_wf(m, history.len()),
        starts_with(m.input, "/"@),
        m.matches.len() > 0,
        m.prefix == trim(m.input),
    ensures
        ({
            let next = inline_step(m, PromptKey::Tab, history).0;
            &&& next.index == (m.index + 1) % (m.matches.len() as int)
            &&& next.matches == m.matches
            &&& next.input == m.matches[next.index].push(' ')
        }),
{
}

/// Typing a character and then deleting it with Backspace gives back the text
/// and the cursor position, and forgets any completion.
pub proof fn law_inline_backspace_undoes_typing(m: InlineModel, ch: char, history: Seq<Seq<char>>)
    requires
        inline_wf(m, history.len()),
    ensures
        ({
            let typed = inline_step(m, PromptKey::Char(ch), history).0;
            let back = inline_step(typed, PromptKey::Backspace, history).0;
            &&& back.input == m.input
            &&& back.cursor == m.cursor
            &&& back.matches.len() == 0
        }),
{
    assert(m.input.insert(m.cursor, ch).remove(m.cursor) =~= m.input);
}


/// Ctrl+W in the inline editor deletes the word before the cursor and the
/// white space after it, and nothing else: the text keeps everything before
/// the start of that word (see `word_cut`) and everything from the cursor on,
/// and the cursor moves to that start.
pub proof fn law_inline_ctrl_w_deletes_previous_word(m: InlineModel, history: Seq<Seq<char>>)
    requires
        inline_wf(m, history.len()),
    ensures
        ({
            let after = inline_step(m, PromptKey::CtrlW, history).0;
            &&& word_cut(m.input, m.cursor, after.cursor)
            &&& after.input == m.input.take(after.cursor) + m.input.skip(m.cursor)
        }),
{
    lemma_word_start_cut(m.input, m.cursor);
}

} // verus!
