//! Slash commands: the table, the parser, suggestions and help text.
use vstd::prelude::*;

use crate::text::{
    chars_of, eq_str, push_chars, push_str, starts_with, starts_with_exec, starts_with_str,
    string_from_chars, trim, trim_chars,
};

verus! {

/// The help section a command is listed under.
#[derive(Debug, Clone, Copy, PartialEq, Eq, Structural)]
pub enum CommandGroup {
    BuiltIn,
    Session,
    Git,
}

/// One entry of the command table.
#[derive(Clone, Copy)]
pub struct SlashCommand {
    pub command: &'static str,
    pub description: &'static str,
    pub group: CommandGroup,
    pub show_in_suggestions: bool,
}

/// The view of a command entry.
pub struct CommandModel {
    pub command: Seq<char>,
    pub description: Seq<char>,
    pub group: CommandGroup,
    pub show_in_suggestions: bool,
}

impl View for SlashCommand {
    type V = CommandModel;

    open spec fn view(&self) -> CommandModel {
        CommandModel {
            command: self.command@,
            description: self.description@,
            group: self.group,
            show_in_suggestions: self.show_in_suggestions,
        }
    }
}

impl SlashCommand {
    /// A table entry.
    pub fn new(
        command: &'static str,
        description: &'static str,
        group: CommandGroup,
        show_in_suggestions: bool,
    ) -> (r: SlashCommand)
        ensures
            r.command == command,
            r.description == description,
            r.group == group,
            r.show_in_suggestions == show_in_suggestions,
    {
        SlashCommand { command, description, group, show_in_suggestions }
    }
}

/// A command entry from its parts.
pub open spec fn entry(c: Seq<char>, d: Seq<char>, g: CommandGroup, show: bool) -> CommandModel {
    CommandModel { command: c, description: d, group: g, show_in_suggestions: show }
}

/// The command table, in display order.
pub open spec fn commands_spec() -> Seq<CommandModel> {
    seq![
        entry("/help"@, "Show help information"@, CommandGroup::BuiltIn, true),
        entry("/clear"@, "Clear chat history"@, CommandGroup::BuiltIn, true),
        entry("/models"@, "Switch between available models"@, CommandGroup::BuiltIn, true),
        entry("/models <name>"@, "Set model directly"@, CommandGroup::BuiltIn, false),
        entry("/exit"@, "Exit application"@, CommandGroup::BuiltIn, true),
        entry("/save"@, "Save current session (auto name)"@, CommandGroup::Session, true),
        entry("/save <name>"@, "Save session with explicit name"@, CommandGroup::Session, false),
        entry("/load"@, "Load a saved session (requires name)"@, CommandGroup::Session, true),
        entry("/load <name>"@, "Load a saved session by name"@, CommandGroup::Session, false),
        entry("/resume"@, "Pick a saved session to resume"@, CommandGroup::Session, true),
        entry("/sessions"@, "List saved sessions"@, CommandGroup::Session, true),
        entry("/commit-and-push"@, "AI-generated commit and push"@, CommandGroup::Git, true),
    ]
}

/// The command table.
pub fn slash_commands() -> (r: Vec<SlashCommand>)
    ensures
        r@.map_values(|c: SlashCommand| c@) == commands_spec(),
{
    let mut v: Vec<SlashCommand> = Vec::new();
    v.push(SlashCommand::new("/help", "Show help information", CommandGroup::BuiltIn, true));
    v.push(SlashCommand::new("/clear", "Clear chat history", CommandGroup::BuiltIn, true));
    v.push(
        SlashCommand::new("/models", "Switch between available models", CommandGroup::BuiltIn, true),
    );
    v.push(SlashCommand::new("/models <name>", "Set model directly", CommandGroup::BuiltIn, false));
    v.push(SlashCommand::new("/exit", "Exit application", CommandGroup::BuiltIn, true));
    v.push(
        SlashCommand::new("/save", "Save current session (auto name)", CommandGroup::Session, true),
    );
    v.push(
        SlashCommand::new(
            "/save <name>",
            "Save session with explicit name",
            CommandGroup::Session,
            false,
        ),
    );
    v.push(
        SlashCommand::new(
            "/load",
            "Load a saved session (requires name)",
            CommandGroup::Session,
            true,
        ),
    );
    v.push(
        SlashCommand::new("/load <name>", "Load a saved session by name", CommandGroup::Session, false),
    );
    v.push(
        SlashCommand::new("/resume", "Pick a saved session to resume", CommandGroup::Session, true),
    );
    v.push(SlashCommand::new("/sessions", "List saved sessions", CommandGroup::Session, true));
    v.push(
        SlashCommand::new("/commit-and-push", "AI-generated commit and push", CommandGroup::Git, true),
    );
    assert(v@.map_values(|c: SlashCommand| c@) =~= commands_spec());
    v
}

/// A parsed slash command.
pub enum ParsedSlashCommand {
    Help,
    Clear,
    Models,
    SetModel(String),
    Save(Option<String>),
    Load(String),
    Resume,
    Sessions,
    CommitAndPush,
    Exit,
}

/// The parsed form of a command line, as a value over character sequences.
pub enum ParsedModel {
    Help,
    Clear,
    Models,
    SetModel(Seq<char>),
    Save(Option<Seq<char>>),
    Load(Seq<char>),
    Resume,
    Sessions,
    CommitAndPush,
    Exit,
}

impl View for ParsedSlashCommand {
    type V = ParsedModel;

    open spec fn view(&self) -> ParsedModel {
        match self {
            ParsedSlashCommand::Help => ParsedModel::Help,
            ParsedSlashCommand::Clear => ParsedModel::Clear,
            ParsedSlashCommand::Models => ParsedModel::Models,
            ParsedSlashCommand::SetModel(m) => ParsedModel::SetModel(m@),
            ParsedSlashCommand::Save(n) => ParsedModel::Save(
                match n {
                    Some(s) => Some(s@),
                    None => None,
                },
            ),
            ParsedSlashCommand::Load(n) => ParsedModel::Load(n@),
            ParsedSlashCommand::Resume => ParsedModel::Resume,
            ParsedSlashCommand::Sessions => ParsedModel::Sessions,
            ParsedSlashCommand::CommitAndPush => ParsedModel::CommitAndPush,
            ParsedSlashCommand::Exit => ParsedModel::Exit,
        }
    }
}

/// The argument after `prefix` in `t`, trimmed, when `t` starts with `prefix`
/// and the argument is not empty.
pub open spec fn argument_after(t: Seq<char>, prefix: Seq<char>) -> Option<Seq<char>> {
    if starts_with(t, prefix) && trim(t.skip(prefix.len() as int)).len() > 0 {
        Some(trim(t.skip(prefix.len() as int)))
    } else {
        None
    }
}

/// What a command line means: exact names after trimming, or a name followed by
/// a space and a non-empty argument.
pub open spec fn parse_spec(input: Seq<char>) -> Option<ParsedModel> {
    let t = trim(input);
    if t == "/help"@ {
        Some(ParsedModel::Help)
    } else if t == "/clear"@ {
        Some(ParsedModel::Clear)
    } else if t == "/models"@ {
        Some(ParsedModel::Models)
    } else if t == "/save"@ {
        Some(ParsedModel::Save(None))
    } else if t == "/sessions"@ {
        Some(ParsedModel::Sessions)
    } else if t == "/load"@ {
        Some(ParsedModel::Load(Seq::empty()))
    } else if t == "/resume"@ {
        Some(ParsedModel::Resume)
    } else if t == "/commit-and-push"@ {
        Some(ParsedModel::CommitAndPush)
    } else if t == "/exit"@ {
        Some(ParsedModel::Exit)
    } else if argument_after(t, "/models "@) is Some {
        Some(ParsedModel::SetModel(argument_after(t, "/models "@)->0))
    } else if argument_after(t, "/save "@) is Some {
        Some(ParsedModel::Save(argument_after(t, "/save "@)))
    } else if argument_after(t, "/load "@) is Some {
        Some(ParsedModel::Load(argument_after(t, "/load "@)->0))
    } else {
        None
    }
}

/// The trimmed argument after `prefix`, if `t` starts with it and the argument is not empty.
fn argument_after_exec(t: &[char], prefix: &str) -> (r: Option<String>)
    ensures
        match r {
            Some(a) => argument_after(t@, prefix@) == Some(a@),
            None => argument_after(t@, prefix@) is None,
        },
{
    let p = chars_of(prefix);
    if !starts_with_exec(t, p.as_slice()) {
        return None;
    }
    let rest = crate::text::slice_chars(t, p.len(), t.len());
    let arg = trim_chars(rest.as_slice());
    if arg.len() == 0 {
        None
    } else {
        Some(string_from_chars(arg.as_slice()))
    }
}

/// Parses a slash command line; `None` for anything that is not a known command.
pub fn parse_slash_command(input: &str) -> (r: Option<ParsedSlashCommand>)
    ensures
        match r {
            Some(c) => parse_spec(input@) == Some(c@),
            None => parse_spec(input@) is None,
        },
{
    let raw = chars_of(input);
    let t = trim_chars(raw.as_slice());
    let s = t.as_slice();
    if eq_str(s, "/help") {
        Some(ParsedSlashCommand::Help)
    } else if eq_str(s, "/clear") {
        Some(ParsedSlashCommand::Clear)
    } else if eq_str(s, "/models") {
        Some(ParsedSlashCommand::Models)
    } else if eq_str(s, "/save") {
        Some(ParsedSlashCommand::Save(None))
    } else if eq_str(s, "/sessions") {
        Some(ParsedSlashCommand::Sessions)
    } else if eq_str(s, "/load") {
        let e = String::new();
        Some(ParsedSlashCommand::Load(e))
    } else if eq_str(s, "/resume") {
        Some(ParsedSlashCommand::Resume)
    } else if eq_str(s, "/commit-and-push") {
        Some(ParsedSlashCommand::CommitAndPush)
    } else if eq_str(s, "/exit") {
        Some(ParsedSlashCommand::Exit)
    } else {
        match argument_after_exec(s, "/models ") {
            Some(m) => {
                return Some(ParsedSlashCommand::SetModel(m));
            },
            None => {},
        }
        match argument_after_exec(s, "/save ") {
            Some(n) => {
                return Some(ParsedSlashCommand::Save(Some(n)));
            },
            None => {},
        }
        match argument_after_exec(s, "/load ") {
            Some(n) => {
                return Some(ParsedSlashCommand::Load(n));
            },
            None => {},
        }
        None
    }
}

/// The suggestions shown while typing `input`: nothing unless it starts with `/`;
/// otherwise the suggested commands whose name starts with the trimmed input.
pub open spec fn suggestions_spec(input: Seq<char>) -> Seq<CommandModel> {
    if input.len() > 0 && input[0] == '/' {
        commands_spec().filter(
            |c: CommandModel| c.show_in_suggestions && starts_with(c.command, trim(input)),
        )
    } else {
        Seq::empty()
    }
}

/// The commands suggested for the text typed so far.
pub fn filtered_command_suggestions(input: &str) -> (r: Vec<SlashCommand>)
    ensures
        r@.map_values(|c: SlashCommand| c@) == suggestions_spec(input@),
{
    let raw = chars_of(input);
    if raw.len() == 0 || raw[0] != '/' {
        let e: Vec<SlashCommand> = Vec::new();
        assert(e@.map_values(|c: SlashCommand| c@) =~= suggestions_spec(input@));
        return e;
    }
    let prefix = trim_chars(raw.as_slice());
    let all = slash_commands();
    let ghost pred = |c: CommandModel| c.show_in_suggestions && starts_with(c.command, trim(input@));
    let mut out: Vec<SlashCommand> = Vec::new();
    let mut i: usize = 0;
    while i < all.len()
        invariant
            i <= all.len(),
            all@.map_values(|c: SlashCommand| c@) == commands_spec(),
            prefix@ == trim(input@),
            pred == (|c: CommandModel| c.show_in_suggestions && starts_with(c.command, trim(input@))),
            out@.map_values(|c: SlashCommand| c@) == commands_spec().take(i as int).filter(pred),
        decreases all.len() - i,
    {
        let c = all[i];
        let name = chars_of(c.command);
        let keep = c.show_in_suggestions && starts_with_exec(name.as_slice(), prefix.as_slice());
        proof {
            assert(commands_spec().take(i + 1).drop_last() == commands_spec().take(i as int));
            assert(commands_spec()[i as int] == c@);
            reveal_with_fuel(Seq::filter, 1);
        }
        if keep {
            out.push(c);
        }
        proof {
            assert(out@.map_values(|c: SlashCommand| c@) =~= commands_spec().take(i + 1).filter(pred));
        }
        i += 1;
    }
    assert(commands_spec().take(all.len() as int) == commands_spec());
    out
}

/// `s` padded with spaces on the right to at least `width` characters, as `{:<width}` does.
pub open spec fn pad_right(s: Seq<char>, width: nat) -> Seq<char> {
    if s.len() >= width {
        s
    } else {
        s + Seq::new((width - s.len()) as nat, |i: int| ' ')
    }
}

/// The help lines of the commands of `group`, in table order.
pub open spec fn help_lines(cmds: Seq<CommandModel>, group: CommandGroup) -> Seq<char>
    decreases cmds.len(),
{
    if cmds.len() == 0 {
        Seq::empty()
    } else {
        let c = cmds.last();
        help_lines(cmds.drop_last(), group) + if c.group == group {
            "  "@ + pad_right(c.command, 18) + " "@ + c.description + "\n"@
        } else {
            Seq::empty()
        }
    }
}

/// Appends `s` padded on the right with spaces to `width` characters.
pub(crate) fn push_padded(out: &mut Vec<char>, s: &str, width: usize)
    ensures
        final(out)@ == old(out)@ + pad_right(s@, width as nat),
{
    let cs = chars_of(s);
    push_chars(out, cs.as_slice());
    let mut n = cs.len();
    let ghost base = old(out)@ + s@;
    while n < width
        invariant
            cs@ == s@,
            cs.len() <= n <= width || n == cs.len(),
            out@ == base + Seq::new((n - cs.len()) as nat, |i: int| ' '),
        decreases width - n,
    {
        out.push(' ');
        n += 1;
        assert(out@ =~= base + Seq::new((n - cs.len()) as nat, |i: int| ' '));
    }
    assert(out@ =~= old(out)@ + pad_right(s@, width as nat));
}

/// Appends a help section: the title, then one aligned line per command of `group`.
pub fn append_help_section(output: &mut String, title: &str, group: CommandGroup)
    ensures
        final(output)@ == old(output)@ + title@ + ":\n"@ + help_lines(commands_spec(), group),
{
    let mut out = chars_of(output.as_str());
    push_str(&mut out, title);
    push_str(&mut out, ":\n");
    let all = slash_commands();
    let ghost head = out@;
    let mut i: usize = 0;
    while i < all.len()
        invariant
            i <= all.len(),
            all@.map_values(|c: SlashCommand| c@) == commands_spec(),
            out@ == head + help_lines(commands_spec().take(i as int), group),
        decreases all.len() - i,
    {
        let c = all[i];
        proof {
            assert(commands_spec().take(i + 1).drop_last() == commands_spec().take(i as int));
            assert(commands_spec().take(i + 1).last() == c@);
        }
        if c.group == group {
            push_str(&mut out, "  ");
            push_padded(&mut out, c.command, 18);
            push_str(&mut out, " ");
            push_str(&mut out, c.description);
            push_str(&mut out, "\n");
        }
        proof {
            assert(out@ =~= head + help_lines(commands_spec().take(i + 1), group));
        }
        i += 1;
    }
    assert(commands_spec().take(all.len() as int) == commands_spec());
    *output = string_from_chars(out.as_slice());
}

} // verus!
