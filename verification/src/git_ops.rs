//! The commit-and-push flow: check for changes, stage them, have the model
//! write a commit message, commit and push. The flow is a state machine; the
//! caller runs the git commands and the model and hands back what they gave.
use vstd::prelude::*;

use crate::image_input::{strip_lead, strip_lead_exec, strip_trail, strip_trail_exec};
use crate::tools::file_ops::{replace_all, replace_all_chars};
use crate::tools::ToolResult;
use crate::text::{chars_of, contains, contains_str, eq_str, push_chars, push_str, string_from_chars, trim, trim_chars};

verus! {

/// A git step of the flow.
#[derive(Debug, Clone, Copy, PartialEq, Eq, Structural)]
pub enum CommitAndPushStep {
    Add,
    Commit,
    Push,
}

/// What the flow reports as it goes.
#[derive(Debug, Clone)]
pub enum CommitAndPushEvent {
    NoChanges,
    ChangesDetected,
    GeneratedMessage(String),
    ToolResult { step: CommitAndPushStep, command: String, result: ToolResult },
}

/// How the flow ended.
#[derive(Debug, Clone, Copy, PartialEq, Eq, Structural)]
pub enum CommitAndPushOutcome {
    NoChanges,
    Completed,
}

/// The options of the flow: the message used when the model gives none, and
/// whether to stop before pushing.
#[derive(Debug, Clone)]
pub struct CommitAndPushOptions {
    pub default_commit_message: Option<String>,
    pub skip_push: bool,
}

/// Where the flow stands: what it waits for.
#[derive(Debug, Clone, Copy, PartialEq, Eq, Structural)]
pub enum FlowPhase {
    Start,
    Status,
    Add,
    Diff,
    Message,
    Commit,
    Push,
    PushUpstream,
    Done,
}

/// What the caller hands back to the flow.
pub enum FlowInput {
    /// Begin the flow.
    Start,
    /// The result of the git command asked for, or why it could not run.
    Bash(Result<ToolResult, String>),
    /// The message the model wrote, or why it failed.
    Message(Result<String, String>),
}

/// What the caller does next.
#[derive(Debug)]
pub enum FlowAction {
    RunBash(String),
    GenerateMessage(String),
    Finished(Result<CommitAndPushOutcome, String>),
}

/// The commit-and-push flow.
pub struct CommitAndPushFlow {
    pub options: CommitAndPushOptions,
    pub phase: FlowPhase,
    pub status_output: String,
    /// The commit command, once the message is known.
    pub commit_command: String,
}

/// What one step of the flow gives: the events to report and the action.
pub struct FlowStep {
    pub events: Vec<CommitAndPushEvent>,
    pub action: FlowAction,
}

/// The input the flow waits for in a phase.
pub open spec fn input_fits(phase: FlowPhase, input: FlowInput) -> bool {
    match phase {
        FlowPhase::Start => input is Start,
        FlowPhase::Message => input is Message,
        FlowPhase::Done => false,
        _ => input is Bash,
    }
}

/// The text of a command's output that means it printed nothing.
pub open spec fn no_output_text() -> Seq<char> {
    "Command executed successfully (no output)"@
}

/// A command's output, with the no-output note read as empty.
pub open spec fn normalized_output(o: Seq<char>) -> Seq<char> {
    if trim(o) == no_output_text() {
        Seq::empty()
    } else {
        o
    }
}

/// A command's output, with the no-output note read as empty.
pub fn normalize_command_output(output: String) -> (r: String)
    ensures
        r@ == normalized_output(output@),
{
    let cs = chars_of(output.as_str());
    let t = trim_chars(cs.as_slice());
    if eq_str(t.as_slice(), "Command executed successfully (no output)") {
        String::new()
    } else {
        output
    }
}

/// The error of a failed git step: what failed and the command's error.
pub open spec fn failure_text(what: Seq<char>, error: Option<String>) -> Seq<char> {
    what + " failed: "@ + match error {
        Some(e) => e@,
        None => "unknown error"@,
    }
}

/// The error of a failed git step (see `failure_text`).
fn failure_message(what: &str, error: &Option<String>) -> (r: String)
    ensures
        r@ == failure_text(what@, *error),
{
    let mut out = chars_of(what);
    push_str(&mut out, " failed: ");
    match error {
        Some(e) => push_str(&mut out, e.as_str()),
        None => push_str(&mut out, "unknown error"),
    }
    string_from_chars(out.as_slice())
}

/// The request for a commit message, with the status and the staged diff.
pub open spec fn commit_prompt(status: Seq<char>, diff: Seq<char>) -> Seq<char> {
    "Generate a concise conventional commit message under 72 characters.\n\nGit Status:\n"@
        + status + "\n\nGit Diff:\n"@ + diff + "\n\nRespond with only the commit message."@
}

/// The model's message trimmed and without surrounding double quotes.
pub open spec fn cleaned_message(text: Seq<char>) -> Seq<char> {
    strip_trail(strip_lead(trim(text), seq!['"']), seq!['"'])
}

/// The commit command for a message, its double quotes escaped.
pub open spec fn commit_command(message: Seq<char>) -> Seq<char> {
    "git commit -m \""@ + replace_all(message, "\""@, "\\\""@) + "\""@
}

/// The git command the flow runs first.
pub open spec fn status_command() -> Seq<char> {
    "git status --porcelain"@
}

/// Whether a push failed for want of an upstream branch.
pub open spec fn needs_upstream(push: ToolResult) -> bool {
    !push.success && (match push.error {
        Some(e) => contains(e@, "no upstream branch"@),
        None => false,
    })
}

impl CommitAndPushFlow {
    /// A flow that has not started.
    pub fn new(options: CommitAndPushOptions) -> (r: CommitAndPushFlow)
        ensures
            r.phase == FlowPhase::Start,
            r.options == options,
    {
        CommitAndPushFlow {
            options,
            phase: FlowPhase::Start,
            status_output: String::new(),
            commit_command: String::new(),
        }
    }

    /// The message to commit with when the model gave none usable.
    fn fallback(&self, err: String) -> (r: Result<String, String>)
        ensures
            match self.options.default_commit_message {
                Some(d) => r matches Ok(m) && m@ == d@,
                None => r matches Err(e) && e@ == err@,
            },
    {
        match &self.options.default_commit_message {
            Some(d) => Ok(d.clone()),
            None => Err(err),
        }
    }

    /// Advances the flow with what the caller hands back.
    ///
    /// From the start it asks for `git status --porcelain`. A failed status ends
    /// the flow with an error; a blank one (the no-output note counts as blank)
    /// reports no changes and ends; otherwise it reports changes and asks for
    /// `git add .`. The add is reported; if it failed the flow ends with an
    /// error, else it asks for `git diff --cached`. With the diff (empty when the
    /// command could not run) it asks the model for a message. The model's text,
    /// trimmed and unquoted, is the message; when the model failed or gave a
    /// blank text the default message is used, and without one the flow ends
    /// with an error. The message is reported and the commit command asked for.
    /// The commit is reported; a failed one ends the flow with an error. Unless
    /// pushing is skipped (then the flow is complete) it asks for `git push`; a
    /// push that fails for want of an upstream branch is retried once with
    /// `git push -u origin HEAD`. The push is reported, and the flow ends with an
    /// error if it failed, complete otherwise. A command that could not run ends
    /// the flow with its error.
    pub fn step(&mut self, input: FlowInput) -> (r: FlowStep)
        requires
            input_fits(old(self).phase, input),
        ensures
            final(self).options == old(self).options,
            (r.action is Finished) <==> (final(self).phase == FlowPhase::Done),
            old(self).phase == FlowPhase::Start ==> r.events@.len() == 0 && (r.action matches FlowAction::RunBash(c) && c@ == status_command()) && final(self).phase == FlowPhase::Status,
            old(self).phase == FlowPhase::Status ==> match input {
                FlowInput::Bash(Err(e)) => r.events@.len() == 0 && (r.action matches FlowAction::Finished(Err(m)) && m@ == e@),
                FlowInput::Bash(Ok(status)) => if !status.success {
                    r.events@.len() == 0 && (r.action matches FlowAction::Finished(Err(m)) && m@ == failure_text("git status"@, status.error))
                } else if trim(normalized_output(match status.output { Some(o) => o@, None => Seq::empty() })).len() == 0 {
                    r.events@.len() == 1 && r.events@[0] is NoChanges && r.action matches FlowAction::Finished(Ok(CommitAndPushOutcome::NoChanges))
                } else {
                    &&& r.events@.len() == 1 && r.events@[0] is ChangesDetected
                    &&& (r.action matches FlowAction::RunBash(c) && c@ == "git add ."@)
                    &&& final(self).phase == FlowPhase::Add
                    &&& final(self).status_output@ == normalized_output(match status.output { Some(o) => o@, None => Seq::empty() })
                },
                _ => true,
            },
            old(self).phase == FlowPhase::Add ==> match input {
                FlowInput::Bash(Err(e)) => r.events@.len() == 0 && (r.action matches FlowAction::Finished(Err(m)) && m@ == e@),
                FlowInput::Bash(Ok(add)) => {
                    &&& r.events@.len() == 1
                    &&& (r.events@[0] matches CommitAndPushEvent::ToolResult { step, command, result } && step == CommitAndPushStep::Add && command@ == "git add ."@ && result == add)
                    &&& if add.success {
                        (r.action matches FlowAction::RunBash(c) && c@ == "git diff --cached"@) && final(self).phase == FlowPhase::Diff && final(self).status_output == old(self).status_output
                    } else {
                        r.action matches FlowAction::Finished(Err(m)) && m@ == failure_text("git add"@, add.error)
                    }
                },
                _ => true,
            },
            old(self).phase == FlowPhase::Diff ==> {
                &&& r.events@.len() == 0
                &&& final(self).phase == FlowPhase::Message
                &&& r.action matches FlowAction::GenerateMessage(p) && p@ == commit_prompt(old(self).status_output@, match input {
                    FlowInput::Bash(Ok(d)) => match d.output { Some(o) => normalized_output(o@), None => Seq::empty() },
                    _ => Seq::empty(),
                })
            },
            old(self).phase == FlowPhase::Message ==> match input {
                FlowInput::Message(m) => {
                    let generated: Option<Seq<char>> = match m { Ok(t) => Some(cleaned_message(t@)), Err(_) => None };
                    let usable = generated matches Some(g) && trim(g).len() > 0;
                    if !usable && old(self).options.default_commit_message is None {
                        r.events@.len() == 0 && (r.action matches FlowAction::Finished(Err(e)) && e@ == (match m {
                            Ok(_) => "Failed to generate commit message"@,
                            Err(err) => err@,
                        }))
                    } else {
                        let msg: Seq<char> = if usable { generated->0 } else { old(self).options.default_commit_message->0@ };
                        &&& r.events@.len() == 1
                        &&& (r.events@[0] matches CommitAndPushEvent::GeneratedMessage(g) && g@ == msg)
                        &&& (r.action matches FlowAction::RunBash(c) && c@ == commit_command(msg))
                        &&& final(self).commit_command@ == commit_command(msg)
                        &&& final(self).phase == FlowPhase::Commit
                    }
                },
                _ => true,
            },
            old(self).phase == FlowPhase::Commit ==> match input {
                FlowInput::Bash(Err(e)) => r.events@.len() == 0 && (r.action matches FlowAction::Finished(Err(m)) && m@ == e@),
                FlowInput::Bash(Ok(commit)) => {
                    &&& r.events@.len() == 1
                    &&& (r.events@[0] matches CommitAndPushEvent::ToolResult { step, command, result } && step == CommitAndPushStep::Commit && command@ == old(self).commit_command@ && result == commit)
                    &&& if !commit.success {
                        r.action matches FlowAction::Finished(Err(m)) && m@ == failure_text("git commit"@, commit.error)
                    } else if old(self).options.skip_push {
                        r.action matches FlowAction::Finished(Ok(CommitAndPushOutcome::Completed))
                    } else {
                        (r.action matches FlowAction::RunBash(c) && c@ == "git push"@) && final(self).phase == FlowPhase::Push
                    }
                },
                _ => true,
            },
            old(self).phase == FlowPhase::Push || old(self).phase == FlowPhase::PushUpstream ==> match input {
                FlowInput::Bash(Err(e)) => r.events@.len() == 0 && (r.action matches FlowAction::Finished(Err(m)) && m@ == e@),
                FlowInput::Bash(Ok(push)) => if old(self).phase == FlowPhase::Push && needs_upstream(push) {
                    r.events@.len() == 0 && (r.action matches FlowAction::RunBash(c) && c@ == "git push -u origin HEAD"@) && final(self).phase == FlowPhase::PushUpstream
                } else {
                    &&& r.events@.len() == 1
                    &&& (r.events@[0] matches CommitAndPushEvent::ToolResult { step, command, result } && step == CommitAndPushStep::Push && result == push
                        && command@ == (if old(self).phase == FlowPhase::Push { "git push"@ } else { "git push -u origin HEAD"@ }))
                    &&& if push.success {
                        r.action matches FlowAction::Finished(Ok(CommitAndPushOutcome::Completed))
                    } else {
                        r.action matches FlowAction::Finished(Err(m)) && m@ == failure_text("git push"@, push.error)
                    }
                },
                _ => true,
            },
    {
        let mut events: Vec<CommitAndPushEvent> = Vec::new();
        match self.phase {
            FlowPhase::Start => {
                self.phase = FlowPhase::Status;
                FlowStep { events, action: FlowAction::RunBash(String::from_str("git status --porcelain")) }
            },
            FlowPhase::Status => {
                let status = match input {
                    FlowInput::Bash(Ok(s)) => s,
                    FlowInput::Bash(Err(e)) => {
                        self.phase = FlowPhase::Done;
                        return FlowStep { events, action: FlowAction::Finished(Err(e)) };
                    },
                    _ => {
                        assert(false);
                        return FlowStep { events, action: FlowAction::Finished(Err(String::new())) };
                    },
                };
                if !status.success {
                    self.phase = FlowPhase::Done;
                    let msg = failure_message("git status", &status.error);
                    return FlowStep { events, action: FlowAction::Finished(Err(msg)) };
                }
                let raw = match status.output {
                    Some(o) => o,
                    None => String::new(),
                };
                let out = normalize_command_output(raw);
                let cs = chars_of(out.as_str());
                if trim_chars(cs.as_slice()).len() == 0 {
                    events.push(CommitAndPushEvent::NoChanges);
                    self.phase = FlowPhase::Done;
                    return FlowStep {
                        events,
                        action: FlowAction::Finished(Ok(CommitAndPushOutcome::NoChanges)),
                    };
                }
                events.push(CommitAndPushEvent::ChangesDetected);
                self.status_output = out;
                self.phase = FlowPhase::Add;
                FlowStep { events, action: FlowAction::RunBash(String::from_str("git add .")) }
            },
            FlowPhase::Add => {
                let add = match input {
                    FlowInput::Bash(Ok(s)) => s,
                    FlowInput::Bash(Err(e)) => {
                        self.phase = FlowPhase::Done;
                        return FlowStep { events, action: FlowAction::Finished(Err(e)) };
                    },
                    _ => {
                        assert(false);
                        return FlowStep { events, action: FlowAction::Finished(Err(String::new())) };
                    },
                };
                let ok = add.success;
                let failure = if ok {
                    String::new()
                } else {
                    failure_message("git add", &add.error)
                };
                events.push(
                    CommitAndPushEvent::ToolResult {
                        step: CommitAndPushStep::Add,
                        command: String::from_str("git add ."),
                        result: add,
                    },
                );
                if !ok {
                    self.phase = FlowPhase::Done;
                    return FlowStep { events, action: FlowAction::Finished(Err(failure)) };
                }
                self.phase = FlowPhase::Diff;
                FlowStep { events, action: FlowAction::RunBash(String::from_str("git diff --cached")) }
            },
            FlowPhase::Diff => {
                let diff = match input {
                    FlowInput::Bash(Ok(d)) => match d.output {
                        Some(o) => normalize_command_output(o),
                        None => String::new(),
                    },
                    _ => String::new(),
                };
                let mut prompt = chars_of(
                    "Generate a concise conventional commit message under 72 characters.\n\nGit Status:\n",
                );
                push_str(&mut prompt, self.status_output.as_str());
                push_str(&mut prompt, "\n\nGit Diff:\n");
                push_str(&mut prompt, diff.as_str());
                push_str(&mut prompt, "\n\nRespond with only the commit message.");
                self.phase = FlowPhase::Message;
                FlowStep {
                    events,
                    action: FlowAction::GenerateMessage(string_from_chars(prompt.as_slice())),
                }
            },
            FlowPhase::Message => {
                let m = match input {
                    FlowInput::Message(m) => m,
                    _ => {
                        assert(false);
                        return FlowStep { events, action: FlowAction::Finished(Err(String::new())) };
                    },
                };
                let chosen: Result<String, String> = match m {
                    Ok(text) => {
                        let cs = chars_of(text.as_str());
                        let t = trim_chars(cs.as_slice());
                        let mut quote: Vec<char> = Vec::new();
                        quote.push('"');
                        assert(quote@ =~= seq!['"']);
                        let a = strip_lead_exec(t.as_slice(), quote.as_slice());
                        let b = strip_trail_exec(a.as_slice(), quote.as_slice());
                        if trim_chars(b.as_slice()).len() > 0 {
                            Ok(string_from_chars(b.as_slice()))
                        } else {
                            self.fallback(String::from_str("Failed to generate commit message"))
                        }
                    },
                    Err(err) => self.fallback(err),
                };
                let message = match chosen {
                    Ok(msg) => msg,
                    Err(e) => {
                        self.phase = FlowPhase::Done;
                        return FlowStep { events, action: FlowAction::Finished(Err(e)) };
                    },
                };
                let ms = chars_of(message.as_str());
                let q = chars_of("\"");
                let esc = chars_of("\\\"");
                let escaped = replace_all_chars(ms.as_slice(), q.as_slice(), esc.as_slice());
                let mut command = chars_of("git commit -m \"");
                push_chars(&mut command, escaped.as_slice());
                push_str(&mut command, "\"");
                events.push(CommitAndPushEvent::GeneratedMessage(message));
                self.phase = FlowPhase::Commit;
                self.commit_command = string_from_chars(command.as_slice());
                FlowStep { events, action: FlowAction::RunBash(string_from_chars(command.as_slice())) }
            },
            FlowPhase::Commit => {
                let commit = match input {
                    FlowInput::Bash(Ok(s)) => s,
                    FlowInput::Bash(Err(e)) => {
                        self.phase = FlowPhase::Done;
                        return FlowStep { events, action: FlowAction::Finished(Err(e)) };
                    },
                    _ => {
                        assert(false);
                        return FlowStep { events, action: FlowAction::Finished(Err(String::new())) };
                    },
                };
                let ok = commit.success;
                let failure = if ok {
                    String::new()
                } else {
                    failure_message("git commit", &commit.error)
                };
                events.push(
                    CommitAndPushEvent::ToolResult {
                        step: CommitAndPushStep::Commit,
                        command: self.commit_command.clone(),
                        result: commit,
                    },
                );
                if !ok {
                    self.phase = FlowPhase::Done;
                    return FlowStep { events, action: FlowAction::Finished(Err(failure)) };
                }
                if self.options.skip_push {
                    self.phase = FlowPhase::Done;
                    return FlowStep {
                        events,
                        action: FlowAction::Finished(Ok(CommitAndPushOutcome::Completed)),
                    };
                }
                self.phase = FlowPhase::Push;
                FlowStep { events, action: FlowAction::RunBash(String::from_str("git push")) }
            },
            FlowPhase::Push | FlowPhase::PushUpstream => {
                let push = match input {
                    FlowInput::Bash(Ok(s)) => s,
                    FlowInput::Bash(Err(e)) => {
                        self.phase = FlowPhase::Done;
                        return FlowStep { events, action: FlowAction::Finished(Err(e)) };
                    },
                    _ => {
                        assert(false);
                        return FlowStep { events, action: FlowAction::Finished(Err(String::new())) };
                    },
                };
                let first = self.phase == FlowPhase::Push;
                let missing_upstream = !push.success && match &push.error {
                    Some(e) => contains_str(chars_of(e.as_str()).as_slice(), "no upstream branch"),
                    None => false,
                };
                if first && missing_upstream {
                    self.phase = FlowPhase::PushUpstream;
                    return FlowStep {
                        events,
                        action: FlowAction::RunBash(String::from_str("git push -u origin HEAD")),
                    };
                }
                let ok = push.success;
                let failure = if ok {
                    String::new()
                } else {
                    failure_message("git push", &push.error)
                };
                let command = if first {
                    String::from_str("git push")
                } else {
                    String::from_str("git push -u origin HEAD")
                };
                events.push(
                    CommitAndPushEvent::ToolResult { step: CommitAndPushStep::Push, command, result: push },
                );
                self.phase = FlowPhase::Done;
                if !ok {
                    return FlowStep { events, action: FlowAction::Finished(Err(failure)) };
                }
                FlowStep { events, action: FlowAction::Finished(Ok(CommitAndPushOutcome::Completed)) }
            },
            FlowPhase::Done => {
                assert(false);
                FlowStep { events, action: FlowAction::Finished(Err(String::new())) }
            },
        }
    }
}

} // verus!
