//! The agent's conversation and the decisions of one user turn.
//!
//! A turn alternates model completions and tool calls. The caller performs the
//! outside work (streaming a completion, asking the user, running a tool) and
//! reports it back; the turn state says what is needed next and every step
//! returns the events to show.
use vstd::prelude::*;

use crate::agent_policy::{
    capped, chars_tokens, estimate_messages_tokens_capped, estimate_text_tokens, messages_chars,
    search_mode_for, SearchMode,
};
use crate::agent_stream::PartialToolCall;
use crate::confirmation::ConfirmationOperation;
use crate::protocol::{opt_view, owned, ChatImageAttachment, ChatMessage, ChatToolCall, ChatToolCallFunction};
use crate::text::{chars_of, trim, trim_chars};
use crate::tool_catalog::{confirmation_operation_for_tool, confirmation_spec};
use crate::tools::{content_spec, is_err_with, ToolResult};
use crate::tools::todos::{all_valid, models, restored_items, TodoItem, TodoSnapshotError, TodoStore};

verus! {

/// A tool call as shown to the user and executed.
#[derive(Debug, Clone)]
pub struct ToolCallSummary {
    pub id: String,
    pub name: String,
    pub arguments: String,
}

impl ToolCallSummary {
    /// A copy of the call.
    pub fn duplicate(&self) -> (r: ToolCallSummary)
        ensures
            r.id@ == self.id@,
            r.name@ == self.name@,
            r.arguments@ == self.arguments@,
    {
        ToolCallSummary {
            id: self.id.clone(),
            name: self.name.clone(),
            arguments: self.arguments.clone(),
        }
    }
}

/// The user's answer to a confirmation request.
#[derive(Debug, Clone)]
pub enum ConfirmationDecision {
    Approve { tool_call_id: String, remember_for_session: bool },
    Reject { tool_call_id: String, feedback: Option<String> },
}

/// What the agent reports while it works on a turn.
#[derive(Debug, Clone)]
pub enum AgentEvent {
    Content(String),
    TokenCount(usize),
    ConfirmationRequest { tool_call: ToolCallSummary, operation: ConfirmationOperation },
    ToolCalls(Vec<ToolCallSummary>),
    ToolResult { tool_call: ToolCallSummary, result: ToolResult },
    Error(String),
    Done,
}

/// Which operations run without asking.
#[derive(Debug, Clone, Copy, PartialEq, Eq, Structural)]
pub struct SessionPermissions {
    pub auto_edit_enabled: bool,
    pub session_allow_file_ops: bool,
    pub session_allow_bash_ops: bool,
}

/// An operation runs without asking when auto-edit is on or it was allowed for the session.
pub open spec fn auto_approved(p: SessionPermissions, op: ConfirmationOperation) -> bool {
    p.auto_edit_enabled || match op {
        ConfirmationOperation::File => p.session_allow_file_ops,
        ConfirmationOperation::Bash => p.session_allow_bash_ops,
    }
}

impl SessionPermissions {
    /// Nothing allowed yet.
    pub fn new() -> (r: SessionPermissions)
        ensures
            !r.auto_edit_enabled && !r.session_allow_file_ops && !r.session_allow_bash_ops,
    {
        SessionPermissions {
            auto_edit_enabled: false,
            session_allow_file_ops: false,
            session_allow_bash_ops: false,
        }
    }

    /// Whether auto-edit is on.
    pub fn auto_edit_enabled(&self) -> (r: bool)
        ensures
            r == self.auto_edit_enabled,
    {
        self.auto_edit_enabled
    }

    /// Turns auto-edit on or off; both session allowances follow it.
    pub fn set_auto_edit_enabled(&mut self, enabled: bool)
        ensures
            final(self).auto_edit_enabled == enabled,
            final(self).session_allow_file_ops == enabled,
            final(self).session_allow_bash_ops == enabled,
    {
        self.auto_edit_enabled = enabled;
        self.session_allow_file_ops = enabled;
        self.session_allow_bash_ops = enabled;
    }

    /// Whether `operation` runs without asking.
    pub fn is_operation_auto_approved(&self, operation: ConfirmationOperation) -> (r: bool)
        ensures
            r == auto_approved(*self, operation),
    {
        if self.auto_edit_enabled {
            return true;
        }
        match operation {
            ConfirmationOperation::File => self.session_allow_file_ops,
            ConfirmationOperation::Bash => self.session_allow_bash_ops,
        }
    }

    /// Allows `operation` for the rest of the session.
    pub fn remember_operation_for_session(&mut self, operation: ConfirmationOperation)
        ensures
            final(self).auto_edit_enabled == old(self).auto_edit_enabled,
            final(self).session_allow_file_ops == (old(self).session_allow_file_ops || operation
                == ConfirmationOperation::File),
            final(self).session_allow_bash_ops == (old(self).session_allow_bash_ops || operation
                == ConfirmationOperation::Bash),
    {
        match operation {
            ConfirmationOperation::File => self.session_allow_file_ops = true,
            ConfirmationOperation::Bash => self.session_allow_bash_ops = true,
        }
    }
}

/// Remembering an operation makes it run without asking, and leaves the other
/// operation as it was.
pub proof fn law_remembered_operation_is_approved(
    p: SessionPermissions,
    op: ConfirmationOperation,
    other: ConfirmationOperation,
)
    requires
        other != op,
    ensures
        ({
            let q = SessionPermissions {
                session_allow_file_ops: p.session_allow_file_ops || op == ConfirmationOperation::File,
                session_allow_bash_ops: p.session_allow_bash_ops || op == ConfirmationOperation::Bash,
                ..p
            };
            auto_approved(q, op) && auto_approved(q, other) == auto_approved(p, other)
        }),
{
}

/// Turning auto-edit off withdraws every approval; turning it on grants all.
pub proof fn law_auto_edit_toggle(p: SessionPermissions, enabled: bool, op: ConfirmationOperation)
    ensures
        auto_approved(
            SessionPermissions {
                auto_edit_enabled: enabled,
                session_allow_file_ops: enabled,
                session_allow_bash_ops: enabled,
            },
            op,
        ) == enabled,
{
}

/// What a turn waits for next.
#[derive(Debug, Clone, Copy, PartialEq, Eq, Structural)]
pub enum TurnPhase {
    /// A model completion (or a report that the turn was cancelled).
    NeedCompletion,
    /// To start the tool call at this index (or a report that the turn was cancelled).
    AtCall(usize),
    /// The user's answer about the tool call at this index.
    NeedDecision(usize, ConfirmationOperation),
    /// The result of running the tool call at this index.
    NeedToolResult(usize),
    /// Nothing: the turn is over.
    Finished,
}

/// The progress of one user turn.
pub struct TurnState {
    pub phase: TurnPhase,
    /// Completed model rounds.
    pub round: usize,
    pub search_mode: SearchMode,
    /// The tool calls of the current round.
    pub calls: Vec<ToolCallSummary>,
    /// Index of the assistant message that made the calls.
    pub assistant_at: usize,
    pub input_tokens: usize,
    /// Whether the user can be asked to confirm operations.
    pub confirmations: bool,
    /// Whether events report streamed progress (rather than a single answer).
    pub streaming: bool,
    /// The answer of a finished non-streamed turn.
    pub final_content: Option<String>,
}

/// The conversation of an agent and what its user allowed.
pub struct AgentSession {
    pub messages: Vec<ChatMessage>,
    pub system_prompt: String,
    pub max_tool_rounds: usize,
    pub permissions: SessionPermissions,
    pub todos: TodoStore,
}

/// The messages `at+1 ..` answer the first `n` calls, one tool message each, in order.
pub open spec fn answered(msgs: Seq<ChatMessage>, at: int, calls: Seq<ToolCallSummary>, n: int) -> bool {
    &&& msgs.len() == at + 1 + n
    &&& forall|j: int|
        0 <= j < n ==> {
            let m = #[trigger] msgs[at + 1 + j];
            m.role@ == "tool"@ && opt_view(m.tool_call_id) == Some(calls[j].id@)
        }
}

/// A turn state fits the conversation: completions are only asked for while
/// rounds remain, call indices are in range, and the calls before the current
/// one have been answered in order after the assistant message that made them.
pub open spec fn turn_wf(s: AgentSession, t: TurnState) -> bool {
    &&& t.round <= s.max_tool_rounds
    &&& match t.phase {
        TurnPhase::NeedCompletion => t.round < s.max_tool_rounds,
        TurnPhase::AtCall(i) => i < t.calls@.len() && answered(s.messages@, t.assistant_at as int, t.calls@, i as int)
            && t.round < s.max_tool_rounds,
        TurnPhase::NeedDecision(i, op) => i < t.calls@.len() && answered(s.messages@, t.assistant_at as int, t.calls@, i as int)
            && t.round < s.max_tool_rounds && confirmation_spec(t.calls@[i as int].name@) == Some(op),
        TurnPhase::NeedToolResult(i) => i < t.calls@.len() && answered(s.messages@, t.assistant_at as int, t.calls@, i as int)
            && t.round < s.max_tool_rounds,
        TurnPhase::Finished => true,
    }
}

/// The event reporting a token estimate.
pub open spec fn is_token_count(e: AgentEvent, n: usize) -> bool {
    e matches AgentEvent::TokenCount(m) && m == n
}

/// The content event with `text`.
pub open spec fn is_content(e: AgentEvent, text: Seq<char>) -> bool {
    e matches AgentEvent::Content(c) && c@ == text
}

/// The text shown when a streamed turn runs out of tool rounds.
pub open spec fn max_rounds_stream_text() -> Seq<char> {
    "\n\nMaximum tool execution rounds reached. Stopping to prevent infinite loops."@
}

/// The answer of a non-streamed turn that runs out of tool rounds.
pub open spec fn max_rounds_text() -> Seq<char> {
    "Maximum tool execution rounds reached."@
}

/// The text shown when a turn is cancelled.
pub open spec fn cancelled_text() -> Seq<char> {
    "\n\n[Operation cancelled by user]"@
}

/// The closing events of a turn that ran out of rounds: the notice (when
/// streaming) and `Done`.
pub open spec fn round_limit_events(streaming: bool, extra: Seq<AgentEvent>) -> bool {
    if streaming {
        extra.len() == 2 && is_content(extra[0], max_rounds_stream_text()) && extra[1] is Done
    } else {
        extra.len() == 1 && extra[0] is Done
    }
}

/// After the calls before `next` have their answers the turn moves on: to the
/// call at `next` when there is one; else to the next round, or at the round
/// limit to the end of the turn with its closing events (and, without
/// streaming, the round-limit answer). `extra` are the events this adds; what
/// the turn was started with is kept.
pub open spec fn moved_on(max_rounds: nat, before: TurnState, after: TurnState, next: int, extra: Seq<AgentEvent>) -> bool {
    &&& after.calls == before.calls
    &&& after.confirmations == before.confirmations
    &&& after.streaming == before.streaming
    &&& after.search_mode == before.search_mode
    &&& after.assistant_at == before.assistant_at
    &&& if next < before.calls@.len() {
        after.phase == TurnPhase::AtCall(next as usize) && after.round == before.round && extra.len() == 0
    } else {
        &&& after.round == before.round + 1
        &&& if before.round + 1 < max_rounds {
            after.phase == TurnPhase::NeedCompletion && extra.len() == 0
        } else {
            &&& after.phase == TurnPhase::Finished
            &&& round_limit_events(before.streaming, extra)
            &&& (!before.streaming ==> opt_view(after.final_content) == Some(max_rounds_text()))
        }
    }
}

/// `Done` closes the events exactly when the turn is over, and only there.
pub open spec fn closes(events: Seq<AgentEvent>, finished: bool) -> bool {
    &&& (finished <==> (events.len() > 0 && events.last() is Done))
    &&& forall|k: int| 0 <= k < events.len() - 1 ==> !(#[trigger] events[k] is Done)
}

/// The tool calls a streamed completion produced: those with a non-blank name.
pub open spec fn named_calls(ps: Seq<PartialToolCall>) -> Seq<PartialToolCall> {
    ps.filter(|p: PartialToolCall| trim(p.name@).len() > 0)
}

/// The calls of a streamed completion, dropping those without a name.
pub fn calls_from_partials(partials: Vec<PartialToolCall>) -> (r: Vec<ToolCallSummary>)
    ensures
        r@.len() == named_calls(partials@).len(),
        forall|i: int|
            0 <= i < r@.len() ==> (#[trigger] r@[i]).id@ == named_calls(partials@)[i].id@
                && r@[i].name@ == named_calls(partials@)[i].name@ && r@[i].arguments@
                == named_calls(partials@)[i].arguments@,
{
    let ghost f = |p: PartialToolCall| trim(p.name@).len() > 0;
    let mut out: Vec<ToolCallSummary> = Vec::new();
    let mut i: usize = 0;
    while i < partials.len()
        invariant
            i <= partials.len(),
            f == (|p: PartialToolCall| trim(p.name@).len() > 0),
            out@.len() == partials@.take(i as int).filter(f).len(),
            forall|k: int|
                0 <= k < out@.len() ==> (#[trigger] out@[k]).id@ == partials@.take(i as int).filter(f)[k].id@
                    && out@[k].name@ == partials@.take(i as int).filter(f)[k].name@
                    && out@[k].arguments@ == partials@.take(i as int).filter(f)[k].arguments@,
        decreases partials.len() - i,
    {
        let p = &partials[i];
        let n = chars_of(p.name.as_str());
        let t = trim_chars(n.as_slice());
        proof {
            assert(partials@.take(i + 1).drop_last() == partials@.take(i as int));
            reveal_with_fuel(Seq::filter, 1);
        }
        if t.len() > 0 {
            out.push(ToolCallSummary { id: p.id.clone(), name: p.name.clone(), arguments: p.arguments.clone() });
        }
        i += 1;
    }
    assert(partials@.take(partials.len() as int) == partials@);
    out
}

/// The tool calls recorded in the assistant message of a streamed round.
pub fn chat_calls_for(calls: &Vec<ToolCallSummary>) -> (r: Option<Vec<ChatToolCall>>)
    ensures
        calls@.len() == 0 <==> r is None,
        r matches Some(v) ==> v@.len() == calls@.len() && forall|i: int|
            0 <= i < v@.len() ==> (#[trigger] v@[i]).id@ == calls@[i].id@ && v@[i].call_type@
                == "function"@ && v@[i].function.name@ == calls@[i].name@
                && v@[i].function.arguments@ == calls@[i].arguments@,
{
    if calls.len() == 0 {
        return None;
    }
    let mut v: Vec<ChatToolCall> = Vec::new();
    let mut i: usize = 0;
    while i < calls.len()
        invariant
            i <= calls.len(),
            v@.len() == i,
            forall|k: int|
                0 <= k < i ==> (#[trigger] v@[k]).id@ == calls@[k].id@ && v@[k].call_type@
                    == "function"@ && v@[k].function.name@ == calls@[k].name@
                    && v@[k].function.arguments@ == calls@[k].arguments@,
        decreases calls.len() - i,
    {
        let c = &calls[i];
        v.push(
            ChatToolCall {
                id: c.id.clone(),
                call_type: owned("function"),
                function: ChatToolCallFunction { name: c.name.clone(), arguments: c.arguments.clone() },
            },
        );
        i += 1;
    }
    Some(v)
}

/// The calls of a non-streamed completion, as they are executed.
pub fn calls_from_chat(calls: &Option<Vec<ChatToolCall>>) -> (r: Vec<ToolCallSummary>)
    ensures
        calls is None ==> r@.len() == 0,
        calls matches Some(v) ==> r@.len() == v@.len() && forall|i: int|
            0 <= i < r@.len() ==> (#[trigger] r@[i]).id@ == v@[i].id@ && r@[i].name@
                == v@[i].function.name@ && r@[i].arguments@ == v@[i].function.arguments@,
{
    let mut out: Vec<ToolCallSummary> = Vec::new();
    match calls {
        None => out,
        Some(v) => {
            let mut i: usize = 0;
            while i < v.len()
                invariant
                    i <= v.len(),
                    out@.len() == i,
                    forall|k: int|
                        0 <= k < i ==> (#[trigger] out@[k]).id@ == v@[k].id@ && out@[k].name@
                            == v@[k].function.name@ && out@[k].arguments@ == v@[k].function.arguments@,
                decreases v.len() - i,
            {
                let c = &v[i];
                out.push(
                    ToolCallSummary {
                        id: c.id.clone(),
                        name: c.function.name.clone(),
                        arguments: c.function.arguments.clone(),
                    },
                );
                i += 1;
            }
            out
        },
    }
}

impl AgentSession {
    /// A conversation that holds only the system prompt.
    pub fn new(system_prompt: &str, max_tool_rounds: usize) -> (r: AgentSession)
        ensures
            r.messages@.len() == 1,
            r.messages@[0].role@ == "system"@,
            opt_view(r.messages@[0].content) == Some(system_prompt@),
            r.system_prompt@ == system_prompt@,
            r.max_tool_rounds == max_tool_rounds,
            r.permissions == SessionPermissions::new_spec(),
            r.todos.items@.len() == 0,
    {
        let mut messages: Vec<ChatMessage> = Vec::new();
        messages.push(ChatMessage::system(system_prompt));
        AgentSession {
            messages,
            system_prompt: owned(system_prompt),
            max_tool_rounds,
            permissions: SessionPermissions::new(),
            todos: TodoStore::new(),
        }
    }

    /// Forgets the conversation, keeping only the system prompt.
    pub fn reset_conversation(&mut self)
        ensures
            final(self).messages@.len() == 1,
            final(self).messages@[0].role@ == "system"@,
            opt_view(final(self).messages@[0].content) == Some(old(self).system_prompt@),
            final(self).system_prompt == old(self).system_prompt,
            final(self).max_tool_rounds == old(self).max_tool_rounds,
            final(self).permissions == old(self).permissions,
            final(self).todos == old(self).todos,
    {
        let mut messages: Vec<ChatMessage> = Vec::new();
        messages.push(ChatMessage::system(self.system_prompt.as_str()));
        self.messages = messages;
    }

    /// The events and state that end a turn that ran out of rounds.
    fn stop_at_round_limit(&self, st: &mut TurnState, events: &mut Vec<AgentEvent>)
        ensures
            final(st).phase == TurnPhase::Finished,
            final(st).round == old(st).round,
            final(st).calls == old(st).calls,
            final(st).assistant_at == old(st).assistant_at,
            final(st).input_tokens == old(st).input_tokens,
            final(st).streaming == old(st).streaming,
            final(st).confirmations == old(st).confirmations,
            final(st).search_mode == old(st).search_mode,
            round_limit_events(old(st).streaming, final(events)@.skip(old(events)@.len() as int)),
            old(st).streaming ==> final(st).final_content == old(st).final_content && final(events)@
                .len() == old(events)@.len() + 2 && final(events)@.take(old(events)@.len() as int)
                == old(events)@ && is_content(final(events)@[old(events)@.len() as int], max_rounds_stream_text())
                && final(events)@.last() is Done,
            !old(st).streaming ==> opt_view(final(st).final_content) == Some(max_rounds_text())
                && final(events)@.len() == old(events)@.len() + 1 && final(events)@.take(
                old(events)@.len() as int,
            ) == old(events)@ && final(events)@.last() is Done,
    {
        if st.streaming {
            events.push(
                AgentEvent::Content(
                    owned(
                        "\n\nMaximum tool execution rounds reached. Stopping to prevent infinite loops.",
                    ),
                ),
            );
        } else {
            st.final_content = Some(owned("Maximum tool execution rounds reached."));
        }
        events.push(AgentEvent::Done);
        st.phase = TurnPhase::Finished;
    }

    /// Starts a turn: records the user message and asks for the first completion,
    /// unless no tool rounds are allowed at all.
    pub fn begin_turn(
        &mut self,
        user_message: &str,
        attachments: Vec<ChatImageAttachment>,
        confirmations: bool,
        streaming: bool,
    ) -> (r: (TurnState, Vec<AgentEvent>))
        ensures
            final(self).messages@.len() == old(self).messages@.len() + 1,
            final(self).messages@.drop_last() == old(self).messages@,
            final(self).messages@.last().role@ == "user"@,
            opt_view(final(self).messages@.last().content) == Some(user_message@),
            final(self).max_tool_rounds == old(self).max_tool_rounds,
            final(self).permissions == old(self).permissions,
            turn_wf(*final(self), r.0),
            r.0.round == 0,
            r.0.confirmations == confirmations,
            r.0.streaming == streaming,
            r.0.input_tokens == chars_tokens(capped(messages_chars(final(self).messages@) as int) as nat),
            r.1@.len() >= 1,
            is_token_count(r.1@[0], r.0.input_tokens),
            old(self).max_tool_rounds > 0 ==> r.0.phase == TurnPhase::NeedCompletion && r.1@.len() == 1,
            old(self).max_tool_rounds == 0 ==> r.0.phase == TurnPhase::Finished && round_limit_events(streaming, r.1@.skip(1))
                && (!streaming ==> opt_view(r.0.final_content) == Some(max_rounds_text())),
            r.0.phase != TurnPhase::Finished ==> r.0.final_content is None,
            closes(r.1@, r.0.phase is Finished),
    {
        self.messages.push(ChatMessage::user_with_attachments(user_message, attachments));
        let tokens = estimate_messages_tokens_capped(self.messages.as_slice());
        let mut events: Vec<AgentEvent> = Vec::new();
        events.push(AgentEvent::TokenCount(tokens));
        let mut st = TurnState {
            phase: TurnPhase::NeedCompletion,
            round: 0,
            search_mode: search_mode_for(user_message),
            calls: Vec::new(),
            assistant_at: 0,
            input_tokens: tokens,
            confirmations,
            streaming,
            final_content: None,
        };
        if self.max_tool_rounds == 0 {
            let ghost before = events@;
            self.stop_at_round_limit(&mut st, &mut events);
            assert(events@[0] == events@.take(1)[0]);
        }
        (st, events)
    }

    /// Ends a turn the user cancelled before a completion or a tool call.
    pub fn cancel_turn(&mut self, st: &mut TurnState) -> (r: Vec<AgentEvent>)
        requires
            old(st).phase == TurnPhase::NeedCompletion || old(st).phase is AtCall,
        ensures
            *final(self) == *old(self),
            final(st).phase == TurnPhase::Finished,
            r@.len() == 2,
            is_content(r@[0], cancelled_text()),
            r@[1] is Done,
            closes(r@, true),
    {
        let mut events: Vec<AgentEvent> = Vec::new();
        events.push(AgentEvent::Content(owned("\n\n[Operation cancelled by user]")));
        events.push(AgentEvent::Done);
        st.phase = TurnPhase::Finished;
        events
    }

    /// Moves to the call after `next - 1`: the next call, the next round, or the
    /// end of the turn when no rounds remain.
    fn advance_to(&self, st: &mut TurnState, next: usize, events: &mut Vec<AgentEvent>)
        requires
            next <= old(st).calls@.len(),
            old(st).round < self.max_tool_rounds,
            answered(self.messages@, old(st).assistant_at as int, old(st).calls@, next as int),
        ensures
            turn_wf(*self, *final(st)),
            final(st).calls == old(st).calls,
            final(st).streaming == old(st).streaming,
            final(st).confirmations == old(st).confirmations,
            final(st).assistant_at == old(st).assistant_at,
            final(st).input_tokens == old(st).input_tokens,
            final(events)@.take(old(events)@.len() as int) == old(events)@,
            final(events)@.len() >= old(events)@.len(),
            moved_on(self.max_tool_rounds as nat, *old(st), *final(st), next as int, final(events)@.skip(old(events)@.len() as int)),
            next < old(st).calls@.len() ==> final(st).phase == TurnPhase::AtCall(next)
                && final(st).round == old(st).round && final(events)@ == old(events)@,
            next == old(st).calls@.len() ==> final(st).round == old(st).round + 1,
            next == old(st).calls@.len() && old(st).round + 1 < self.max_tool_rounds ==> final(st).phase
                == TurnPhase::NeedCompletion && final(events)@ == old(events)@,
            next == old(st).calls@.len() && old(st).round + 1 == self.max_tool_rounds ==> final(st).phase
                == TurnPhase::Finished && final(events)@.last() is Done && final(events)@.len() > old(events)@.len(),
    {
        if next < st.calls.len() {
            st.phase = TurnPhase::AtCall(next);
        } else {
            st.round = st.round + 1;
            if st.round < self.max_tool_rounds {
                st.phase = TurnPhase::NeedCompletion;
            } else {
                self.stop_at_round_limit(st, events);
            }
        }
    }

    /// Records a completed model round: the assistant message with its tool calls.
    /// Without tool calls the turn ends with the content as its answer; with them,
    /// the calls are announced and the first one is next.
    pub fn complete_round(
        &mut self,
        st: &mut TurnState,
        content: &str,
        calls: Vec<ToolCallSummary>,
        assistant_calls: Option<Vec<ChatToolCall>>,
    ) -> (r: Vec<AgentEvent>)
        requires
            old(st).phase == TurnPhase::NeedCompletion,
            turn_wf(*old(self), *old(st)),
            assistant_calls is None ==> calls@.len() == 0,
            old(self).messages@.len() < usize::MAX,
        ensures
            turn_wf(*final(self), *final(st)),
            final(self).messages@.len() == old(self).messages@.len() + 1,
            final(self).messages@.drop_last() == old(self).messages@,
            final(self).messages@.last().role@ == "assistant"@,
            opt_view(final(self).messages@.last().content) == Some(content@),
            final(self).messages@.last().tool_calls == assistant_calls,
            final(self).max_tool_rounds == old(self).max_tool_rounds,
            final(self).permissions == old(self).permissions,
            final(self).todos == old(self).todos,
            final(self).system_prompt == old(self).system_prompt,
            final(st).confirmations == old(st).confirmations,
            final(st).streaming == old(st).streaming,
            final(st).search_mode == old(st).search_mode,
            r@.len() >= 1,
            r@[0] is TokenCount,
            closes(r@, final(st).phase is Finished),
            assistant_calls is None ==> final(st).phase == TurnPhase::Finished && r@.len() == 2 && r@[1] is Done
                && opt_view(final(st).final_content) == Some(content@) && final(st).round == old(st).round,
            assistant_calls is Some ==> final(st).calls == calls && final(st).assistant_at == old(self).messages@.len(),
            assistant_calls is Some && calls@.len() > 0 ==> final(st).phase == TurnPhase::AtCall(0)
                && r@.len() == 2 && final(st).round == old(st).round
                && (r@[1] matches AgentEvent::ToolCalls(v) && v@.len() == calls@.len() && forall|k: int|
                0 <= k < v@.len() ==> (#[trigger] v@[k]).id@ == calls@[k].id@ && v@[k].name@ == calls@[k].name@
                && v@[k].arguments@ == calls@[k].arguments@),
            assistant_calls is Some && calls@.len() == 0 ==> final(st).round == old(st).round + 1 && (if old(
                st,
            ).round + 1 < old(self).max_tool_rounds {
                final(st).phase == TurnPhase::NeedCompletion && r@.len() == 1
            } else {
                &&& final(st).phase == TurnPhase::Finished
                &&& round_limit_events(old(st).streaming, r@.skip(1))
                &&& (!old(st).streaming ==> opt_view(final(st).final_content) == Some(max_rounds_text()))
            }),
    {
        let mut tokens = st.input_tokens;
        tokens = sat_add_usize(tokens, estimate_text_tokens(content));
        let mut i: usize = 0;
        while i < calls.len()
            invariant
                i <= calls.len(),
            decreases calls.len() - i,
        {
            tokens = sat_add_usize(tokens, estimate_text_tokens(calls[i].arguments.as_str()));
            i += 1;
        }
        let mut events: Vec<AgentEvent> = Vec::new();
        events.push(AgentEvent::TokenCount(tokens));
        let finished = assistant_calls.is_none();
        let at = self.messages.len();
        self.messages.push(ChatMessage::assistant(content, assistant_calls));
        if finished {
            st.final_content = Some(owned(content));
            events.push(AgentEvent::Done);
            st.phase = TurnPhase::Finished;
            return events;
        }
        st.assistant_at = at;
        let mut announced: Vec<ToolCallSummary> = Vec::new();
        let mut k: usize = 0;
        while k < calls.len()
            invariant
                k <= calls.len(),
                announced@.len() == k,
                forall|j: int|
                    0 <= j < k ==> (#[trigger] announced@[j]).id@ == calls@[j].id@ && announced@[j].name@
                        == calls@[j].name@ && announced@[j].arguments@ == calls@[j].arguments@,
            decreases calls.len() - k,
        {
            announced.push(calls[k].duplicate());
            k += 1;
        }
        st.calls = calls;
        if st.calls.len() > 0 {
            events.push(AgentEvent::ToolCalls(announced));
        }
        assert(answered(self.messages@, st.assistant_at as int, st.calls@, 0));
        let ghost before = events@;
        self.advance_to(st, 0, &mut events);
        assert(events@[0] == events@.take(before.len() as int)[0]);
        proof {
            if before.len() == 2 {
                assert(events@[1] == events@.take(before.len() as int)[1]);
            }
        }
        events
    }

    /// Starts the current tool call: asks for confirmation when the tool needs one,
    /// it is not approved for the session and the user can be asked; otherwise the
    /// tool is to be run.
    pub fn start_call(&mut self, st: &mut TurnState) -> (r: Vec<AgentEvent>)
        requires
            old(st).phase is AtCall,
            turn_wf(*old(self), *old(st)),
        ensures
            *final(self) == *old(self),
            turn_wf(*final(self), *final(st)),
            final(st).calls == old(st).calls,
            ({
                let i = old(st).phase->AtCall_0;
                let op = confirmation_spec(old(st).calls@[i as int].name@);
                if op is Some && !auto_approved(old(self).permissions, op->0) && old(st).confirmations {
                    final(st).phase == TurnPhase::NeedDecision(i, op->0) && r@.len() == 1 && (r@[0] matches AgentEvent::ConfirmationRequest { tool_call, operation } && tool_call.id@ == old(st).calls@[i as int].id@ && operation == op->0)
                } else {
                    final(st).phase == TurnPhase::NeedToolResult(i) && r@.len() == 0
                }
            }),
            *final(st) == (TurnState { phase: final(st).phase, ..*old(st) }),
            closes(r@, false),
    {
        let i = match st.phase {
            TurnPhase::AtCall(i) => i,
            _ => 0,
        };
        let mut events: Vec<AgentEvent> = Vec::new();
        let op = confirmation_operation_for_tool(st.calls[i].name.as_str());
        match op {
            Some(op) => {
                if !self.permissions.is_operation_auto_approved(op) && st.confirmations {
                    events.push(AgentEvent::ConfirmationRequest { tool_call: st.calls[i].duplicate(), operation: op });
                    st.phase = TurnPhase::NeedDecision(i, op);
                    return events;
                }
            },
            None => {},
        }
        st.phase = TurnPhase::NeedToolResult(i);
        events
    }

    /// Records the result of the tool call at `i` and moves on.
    fn record_result(&mut self, st: &mut TurnState, i: usize, result: ToolResult) -> (r: Vec<AgentEvent>)
        requires
            i < old(st).calls@.len(),
            old(st).round < old(self).max_tool_rounds,
            answered(old(self).messages@, old(st).assistant_at as int, old(st).calls@, i as int),
        ensures
            turn_wf(*final(self), *final(st)),
            final(self).messages@.len() == old(self).messages@.len() + 1,
            final(self).messages@.drop_last() == old(self).messages@,
            final(self).messages@.last().role@ == "tool"@,
            opt_view(final(self).messages@.last().tool_call_id) == Some(old(st).calls@[i as int].id@),
            opt_view(final(self).messages@.last().content) == Some(content_spec(result)),
            final(self).max_tool_rounds == old(self).max_tool_rounds,
            final(self).permissions == old(self).permissions,
            final(st).calls == old(st).calls,
            r@.len() >= 2,
            r@[0] is TokenCount,
            r@[1] matches AgentEvent::ToolResult { tool_call, result: res } && tool_call.id@ == old(st).calls@[i as int].id@ && res == result,
            i + 1 < old(st).calls@.len() ==> final(st).phase == TurnPhase::AtCall((i + 1) as usize) && r@.len() == 2,
            i + 1 == old(st).calls@.len() ==> final(st).round == old(st).round + 1
                && answered(final(self).messages@, old(st).assistant_at as int, old(st).calls@, old(st).calls@.len() as int),
            final(st).assistant_at == old(st).assistant_at,
            moved_on(old(self).max_tool_rounds as nat, *old(st), *final(st), i + 1, r@.skip(2)),
            final(self).todos == old(self).todos,
            final(self).system_prompt == old(self).system_prompt,
    {
        let content = result.content_for_model();
        let id = st.calls[i].id.clone();
        self.messages.push(ChatMessage::tool(id.as_str(), content.as_str()));
        let tokens = estimate_messages_tokens_capped(self.messages.as_slice());
        st.input_tokens = tokens;
        let mut events: Vec<AgentEvent> = Vec::new();
        events.push(AgentEvent::TokenCount(tokens));
        events.push(AgentEvent::ToolResult { tool_call: st.calls[i].duplicate(), result });
        proof {
            let msgs = self.messages@;
            let at = st.assistant_at as int;
            assert forall|j: int| 0 <= j < i + 1 implies ({
                let m = #[trigger] msgs[at + 1 + j];
                m.role@ == "tool"@ && opt_view(m.tool_call_id) == Some(st.calls@[j].id@)
            }) by {
                if j < i {
                    assert(msgs[at + 1 + j] == old(self).messages@[at + 1 + j]);
                }
            }
        }
        assert(i < st.calls.len());
        let ghost before = events@;
        self.advance_to(st, i + 1, &mut events);
        assert(events@[0] == events@.take(before.len() as int)[0]);
        assert(events@[1] == events@.take(before.len() as int)[1]);
        assert(before.len() == 2);
        events
    }

    /// Records the result of running the current tool.
    pub fn finish_tool(&mut self, st: &mut TurnState, result: ToolResult) -> (r: Vec<AgentEvent>)
        requires
            old(st).phase is NeedToolResult,
            turn_wf(*old(self), *old(st)),
        ensures
            turn_wf(*final(self), *final(st)),
            final(self).messages@.len() == old(self).messages@.len() + 1,
            final(self).messages@.drop_last() == old(self).messages@,
            final(self).messages@.last().role@ == "tool"@,
            opt_view(final(self).messages@.last().tool_call_id) == Some(old(st).calls@[old(st).phase->NeedToolResult_0 as int].id@),
            opt_view(final(self).messages@.last().content) == Some(content_spec(result)),
            final(self).permissions == old(self).permissions,
            final(self).max_tool_rounds == old(self).max_tool_rounds,
            final(self).todos == old(self).todos,
            r@.len() >= 2,
            r@[0] is TokenCount,
            r@[1] matches AgentEvent::ToolResult { tool_call, result: res } && res == result
                && tool_call.id@ == old(st).calls@[old(st).phase->NeedToolResult_0 as int].id@,
            moved_on(
                old(self).max_tool_rounds as nat,
                *old(st),
                *final(st),
                old(st).phase->NeedToolResult_0 + 1,
                r@.skip(2),
            ),
            closes(r@, final(st).phase is Finished),
    {
        let i = match st.phase {
            TurnPhase::NeedToolResult(i) => i,
            _ => 0,
        };
        self.record_result(st, i, result)
    }

    /// Handles the user's answer (or its absence) about the current tool call.
    /// Approval of this call runs it (and remembers the operation when asked);
    /// rejection, cancellation or a closed channel answers the call with an error
    /// and skips it; answers about other calls are ignored.
    pub fn decide(&mut self, st: &mut TurnState, input: DecisionInput) -> (r: Vec<AgentEvent>)
        requires
            old(st).phase is NeedDecision,
            turn_wf(*old(self), *old(st)),
        ensures
            turn_wf(*final(self), *final(st)),
            ({
                let i = old(st).phase->NeedDecision_0;
                let op = old(st).phase->NeedDecision_1;
                let id = old(st).calls@[i as int].id@;
                match input {
                    DecisionInput::Decision(ConfirmationDecision::Approve { tool_call_id, remember_for_session }) => if tool_call_id@ == id {
                        *final(st) == (TurnState { phase: TurnPhase::NeedToolResult(i), ..*old(st) }) && r@.len() == 0
                            && *final(self) == (AgentSession {
                                permissions: if remember_for_session {
                                    remembered(old(self).permissions, op)
                                } else {
                                    old(self).permissions
                                },
                                ..*old(self)
                            })
                    } else {
                        final(st).phase == old(st).phase && r@.len() == 0 && *final(self) == *old(self)
                    },
                    DecisionInput::Decision(ConfirmationDecision::Reject { tool_call_id, feedback }) => if tool_call_id@ == id {
                        rejected(*old(self), *final(self), *old(st), *final(st), r@, match feedback {
                            Some(f) => f@,
                            None => "Operation cancelled by user"@,
                        })
                    } else {
                        final(st).phase == old(st).phase && r@.len() == 0 && *final(self) == *old(self)
                    },
                    DecisionInput::Cancelled => rejected(*old(self), *final(self), *old(st), *final(st), r@, "Operation cancelled by user"@),
                    DecisionInput::ChannelClosed => rejected(*old(self), *final(self), *old(st), *final(st), r@, "Operation cancelled: confirmation channel closed"@),
                }
            }),
            closes(r@, final(st).phase is Finished),
    {
        let i = match st.phase {
            TurnPhase::NeedDecision(i, _) => i,
            _ => 0,
        };
        let op = match st.phase {
            TurnPhase::NeedDecision(_, op) => op,
            _ => ConfirmationOperation::File,
        };
        let id = chars_of(st.calls[i].id.as_str());
        match input {
            DecisionInput::Decision(ConfirmationDecision::Approve { tool_call_id, remember_for_session }) => {
                let given = chars_of(tool_call_id.as_str());
                if crate::text::chars_eq(given.as_slice(), id.as_slice()) {
                    if remember_for_session {
                        self.permissions.remember_operation_for_session(op);
                    }
                    st.phase = TurnPhase::NeedToolResult(i);
                }
                Vec::new()
            },
            DecisionInput::Decision(ConfirmationDecision::Reject { tool_call_id, feedback }) => {
                let given = chars_of(tool_call_id.as_str());
                if crate::text::chars_eq(given.as_slice(), id.as_slice()) {
                    let message = match feedback {
                        Some(f) => f,
                        None => owned("Operation cancelled by user"),
                    };
                    self.record_result(st, i, ToolResult::err(message.as_str()))
                } else {
                    Vec::new()
                }
            },
            DecisionInput::Cancelled => {
                self.record_result(st, i, ToolResult::err("Operation cancelled by user"))
            },
            DecisionInput::ChannelClosed => {
                self.record_result(st, i, ToolResult::err("Operation cancelled: confirmation channel closed"))
            },
        }
    }
}

/// A saved conversation: what `AgentSession::snapshot` records and restoring reads.
pub struct AgentSessionSnapshot {
    /// The model the conversation was held with.
    pub model: String,
    /// The tools' working directory.
    pub current_dir: String,
    pub messages: Vec<ChatMessage>,
    pub todos: Vec<TodoItem>,
    pub auto_edit_enabled: bool,
    pub session_allow_file_ops: bool,
    pub session_allow_bash_ops: bool,
}

impl AgentSession {
    /// Records the model in use, the tools' working directory, the
    /// conversation, the todo list and the permissions.
    pub fn snapshot(&self, model: &str, current_dir: &str) -> (r: AgentSessionSnapshot)
        ensures
            r.model@ == model@,
            r.current_dir@ == current_dir@,
            messages_model(r.messages@) == messages_model(self.messages@),
            models(r.todos@) == models(self.todos.items@),
            r.auto_edit_enabled == self.permissions.auto_edit_enabled,
            r.session_allow_file_ops == self.permissions.session_allow_file_ops,
            r.session_allow_bash_ops == self.permissions.session_allow_bash_ops,
    {
        let mut messages: Vec<ChatMessage> = Vec::new();
        let mut i: usize = 0;
        while i < self.messages.len()
            invariant
                i <= self.messages.len(),
                messages_model(messages@) == messages_model(self.messages@.take(i as int)),
            decreases self.messages.len() - i,
        {
            let c = clone_message(&self.messages[i]);
            let ghost prev = messages@;
            messages.push(c);
            assert(messages_model(messages@) =~= messages_model(prev).push(message_model(c)));
            i += 1;
            assert(messages_model(messages@) =~= messages_model(self.messages@.take(i as int)));
        }
        assert(self.messages@.take(self.messages.len() as int) == self.messages@);
        AgentSessionSnapshot {
            model: owned(model),
            current_dir: owned(current_dir),
            messages,
            todos: self.todos.snapshot_items(),
            auto_edit_enabled: self.permissions.auto_edit_enabled,
            session_allow_file_ops: self.permissions.session_allow_file_ops,
            session_allow_bash_ops: self.permissions.session_allow_bash_ops,
        }
    }

    /// Replaces the conversation with saved messages; an empty saved conversation
    /// becomes one holding only the system prompt.
    pub fn restore_messages(&mut self, messages: Vec<ChatMessage>)
        ensures
            messages@.len() > 0 ==> final(self).messages@ == messages@,
            messages@.len() == 0 ==> final(self).messages@.len() == 1 && final(self).messages@[0].role@ == "system"@
                && opt_view(final(self).messages@[0].content) == Some(old(self).system_prompt@),
            final(self).system_prompt == old(self).system_prompt,
            final(self).max_tool_rounds == old(self).max_tool_rounds,
            final(self).permissions == old(self).permissions,
            final(self).todos == old(self).todos,
    {
        if messages.len() == 0 {
            self.reset_conversation();
        } else {
            self.messages = messages;
        }
    }

    /// Restores the saved todo list, then the saved permissions. A saved list with
    /// an invalid item is refused and the permissions are then left as they were.
    pub fn restore_todos_and_permissions(&mut self, snapshot: AgentSessionSnapshot) -> (r: Result<(), TodoSnapshotError>)
        ensures
            r is Ok <==> all_valid(models(snapshot.todos@)),
            models(final(self).todos.items@) == restored_items(models(old(self).todos.items@), models(snapshot.todos@)),
            r is Ok ==> final(self).permissions == (SessionPermissions {
                auto_edit_enabled: snapshot.auto_edit_enabled,
                session_allow_file_ops: snapshot.session_allow_file_ops,
                session_allow_bash_ops: snapshot.session_allow_bash_ops,
            }),
            r is Err ==> final(self).permissions == old(self).permissions,
            final(self).messages == old(self).messages,
    {
        self.todos.restore_value(snapshot.todos)?;
        self.permissions = SessionPermissions {
            auto_edit_enabled: snapshot.auto_edit_enabled,
            session_allow_file_ops: snapshot.session_allow_file_ops,
            session_allow_bash_ops: snapshot.session_allow_bash_ops,
        };
        Ok(())
    }
}

/// The fields of a message, with its lists taken by their contents.
pub open spec fn message_model(m: ChatMessage) -> (
    String,
    Option<String>,
    Option<Seq<ChatImageAttachment>>,
    Option<Seq<ChatToolCall>>,
    Option<String>,
) {
    (
        m.role,
        m.content,
        match m.attachments {
            Some(a) => Some(a@),
            None => None,
        },
        match m.tool_calls {
            Some(c) => Some(c@),
            None => None,
        },
        m.tool_call_id,
    )
}

/// The models of a list of messages.
pub open spec fn messages_model(ms: Seq<ChatMessage>) -> Seq<(
    String,
    Option<String>,
    Option<Seq<ChatImageAttachment>>,
    Option<Seq<ChatToolCall>>,
    Option<String>,
)> {
    ms.map_values(|m: ChatMessage| message_model(m))
}

/// A copy of a message.
pub fn clone_message(m: &ChatMessage) -> (r: ChatMessage)
    ensures
        message_model(r) == message_model(*m),
{
    ChatMessage {
        role: m.role.clone(),
        content: clone_opt_string(&m.content),
        attachments: match &m.attachments {
            Some(a) => Some(clone_attachments(a)),
            None => None,
        },
        tool_calls: match &m.tool_calls {
            Some(c) => Some(clone_calls(c)),
            None => None,
        },
        tool_call_id: clone_opt_string(&m.tool_call_id),
    }
}

pub(crate) fn clone_opt_string(s: &Option<String>) -> (r: Option<String>)
    ensures
        r == *s,
{
    match s {
        Some(v) => Some(v.clone()),
        None => None,
    }
}

fn clone_attachments(a: &Vec<ChatImageAttachment>) -> (r: Vec<ChatImageAttachment>)
    ensures
        r@ == a@,
{
    let mut out: Vec<ChatImageAttachment> = Vec::new();
    let mut i: usize = 0;
    while i < a.len()
        invariant
            i <= a.len(),
            out@ == a@.take(i as int),
        decreases a.len() - i,
    {
        let x = &a[i];
        out.push(ChatImageAttachment { filename: x.filename.clone(), mime_type: x.mime_type.clone(), data_url: x.data_url.clone() });
        i += 1;
        assert(out@ =~= a@.take(i as int));
    }
    assert(a@.take(a.len() as int) == a@);
    out
}

pub(crate) fn clone_calls(c: &Vec<ChatToolCall>) -> (r: Vec<ChatToolCall>)
    ensures
        r@ == c@,
{
    let mut out: Vec<ChatToolCall> = Vec::new();
    let mut i: usize = 0;
    while i < c.len()
        invariant
            i <= c.len(),
            out@ == c@.take(i as int),
        decreases c.len() - i,
    {
        let x = &c[i];
        out.push(ChatToolCall {
            id: x.id.clone(),
            call_type: x.call_type.clone(),
            function: ChatToolCallFunction { name: x.function.name.clone(), arguments: x.function.arguments.clone() },
        });
        i += 1;
        assert(out@ =~= c@.take(i as int));
    }
    assert(c@.take(c.len() as int) == c@);
    out
}

/// Saving a session and restoring it gives back its conversation, its todo list
/// and its permissions, when the conversation is not empty and the todo list is
/// valid.
pub proof fn law_snapshot_restore_round_trip(
    messages: Seq<ChatMessage>,
    todos: Seq<crate::tools::todos::TodoModel>,
    other_todos: Seq<crate::tools::todos::TodoModel>,
)
    requires
        messages.len() > 0,
        all_valid(todos),
    ensures
        restored_items(other_todos, todos) == todos,
{
}

/// The events of a turn, step after step.
pub open spec fn turn_events(steps: Seq<Seq<AgentEvent>>) -> Seq<AgentEvent>
    decreases steps.len(),
{
    if steps.len() == 0 {
        Seq::empty()
    } else {
        turn_events(steps.drop_last()) + steps.last()
    }
}

/// Steps that report no `Done` report none together.
proof fn lemma_no_done(steps: Seq<Seq<AgentEvent>>)
    requires
        forall|k: int, j: int| 0 <= k < steps.len() && 0 <= j < steps[k].len() ==> !(#[trigger] steps[k][j] is Done),
    ensures
        forall|j: int| 0 <= j < turn_events(steps).len() ==> !(#[trigger] turn_events(steps)[j] is Done),
    decreases steps.len(),
{
    if steps.len() > 0 {
        let prefix = steps.drop_last();
        assert forall|k: int, j: int| 0 <= k < prefix.len() && 0 <= j < prefix[k].len() implies !(
        #[trigger] prefix[k][j] is Done) by {
            assert(prefix[k] == steps[k]);
        }
        lemma_no_done(prefix);
        let all = turn_events(steps);
        assert forall|j: int| 0 <= j < all.len() implies !(#[trigger] all[j] is Done) by {
            if j >= turn_events(prefix).len() {
                assert(all[j] == steps[steps.len() - 1][j - turn_events(prefix).len()]);
            } else {
                assert(all[j] == turn_events(prefix)[j]);
            }
        }
    }
}

/// The events of a turn start with those of its first step.
proof fn lemma_turn_starts_with_first_step(steps: Seq<Seq<AgentEvent>>)
    requires
        steps.len() > 0,
    ensures
        turn_events(steps).len() >= steps[0].len(),
        forall|j: int| 0 <= j < steps[0].len() ==> turn_events(steps)[j] == #[trigger] steps[0][j],
    decreases steps.len(),
{
    let prefix = steps.drop_last();
    if steps.len() == 1 {
        assert(turn_events(prefix) == Seq::<AgentEvent>::empty());
        assert(turn_events(steps) =~= steps[0]);
    } else {
        lemma_turn_starts_with_first_step(prefix);
        assert(prefix[0] == steps[0]);
        assert forall|j: int| 0 <= j < steps[0].len() implies turn_events(steps)[j] == #[trigger] steps[0][j] by {
            assert(turn_events(steps)[j] == turn_events(prefix)[j]);
        }
    }
}

/// A turn that stops before any step finishes it (as when the completion
/// fails and the error is returned) reports no `Done` at all.
pub proof fn law_unfinished_turn_reports_no_done(steps: Seq<Seq<AgentEvent>>, finished: Seq<bool>)
    requires
        steps.len() == finished.len(),
        forall|k: int| 0 <= k < steps.len() ==> closes(#[trigger] steps[k], finished[k]),
        forall|k: int| 0 <= k < steps.len() ==> !(#[trigger] finished[k]),
    ensures
        forall|j: int| 0 <= j < turn_events(steps).len() ==> !(#[trigger] turn_events(steps)[j] is Done),
{
    assert forall|k: int, j: int| 0 <= k < steps.len() && 0 <= j < steps[k].len() implies !(
    #[trigger] steps[k][j] is Done) by {
        assert(closes(steps[k], finished[k]));
        assert(!finished[k]);
        if j == steps[k].len() - 1 {
            assert(steps[k].last() == steps[k][j]);
        }
    }
    lemma_no_done(steps);
}

/// A turn that is stepped until a step finishes it (each step's events closing
/// as the step functions state: `Done` last and only when the turn is over)
/// reports `Done` exactly once, as its last event; its first event is the
/// first event of its first step (for `begin_turn`, the token count).
pub proof fn law_one_done_per_turn(steps: Seq<Seq<AgentEvent>>, finished: Seq<bool>)
    requires
        steps.len() == finished.len(),
        steps.len() > 0,
        forall|k: int| 0 <= k < steps.len() ==> closes(#[trigger] steps[k], finished[k]),
        forall|k: int| 0 <= k < steps.len() - 1 ==> !(#[trigger] finished[k]),
        finished.last(),
    ensures
        closes(turn_events(steps), true),
        steps[0].len() > 0 ==> turn_events(steps)[0] == steps[0][0],
{
    lemma_turn_starts_with_first_step(steps);
    let prefix = steps.drop_last();
    assert forall|k: int, j: int| 0 <= k < prefix.len() && 0 <= j < prefix[k].len() implies !(
    #[trigger] prefix[k][j] is Done) by {
        assert(prefix[k] == steps[k]);
        assert(closes(steps[k], finished[k]));
        assert(!finished[k]);
    }
    lemma_no_done(prefix);
    let last = steps[steps.len() - 1];
    assert(closes(last, finished[steps.len() - 1]));
    let all = turn_events(steps);
    let n = turn_events(prefix).len();
    assert(all == turn_events(prefix) + last);
    assert(all.last() == last.last());
    assert forall|j: int| 0 <= j < all.len() - 1 implies !(#[trigger] all[j] is Done) by {
        if j >= n {
            assert(all[j] == last[j - n]);
        } else {
            assert(all[j] == turn_events(prefix)[j]);
        }
    }
}

/// A turn never asks for more completions than its round limit allows.
pub proof fn law_completions_bounded(s: AgentSession, t: TurnState)
    requires
        turn_wf(s, t),
    ensures
        t.phase == TurnPhase::NeedCompletion ==> t.round < s.max_tool_rounds,
        t.round <= s.max_tool_rounds,
{
}

/// While a round's tool calls are handled, the conversation ends with the
/// assistant message that made them followed by exactly one answer per handled
/// call, in call order.
pub proof fn law_calls_answered_in_order(s: AgentSession, t: TurnState)
    requires
        turn_wf(s, t),
        t.phase is AtCall || t.phase is NeedDecision || t.phase is NeedToolResult,
    ensures
        ({
            let i: int = match t.phase {
                TurnPhase::AtCall(i) => i as int,
                TurnPhase::NeedDecision(i, _) => i as int,
                TurnPhase::NeedToolResult(i) => i as int,
                _ => 0,
            };
            &&& s.messages@.len() == t.assistant_at + 1 + i
            &&& forall|j: int| 0 <= j < i ==> (#[trigger] s.messages@[t.assistant_at + 1 + j]).role@ == "tool"@
                && opt_view(s.messages@[t.assistant_at + 1 + j].tool_call_id) == Some(t.calls@[j].id@)
        }),
{
}

/// What happened while waiting for a confirmation.
pub enum DecisionInput {
    Decision(ConfirmationDecision),
    Cancelled,
    ChannelClosed,
}

/// The permissions after allowing `op` for the session: the other operation and
/// auto-edit stay as they were.
pub open spec fn remembered(p: SessionPermissions, op: ConfirmationOperation) -> SessionPermissions {
    SessionPermissions {
        session_allow_file_ops: p.session_allow_file_ops || op == ConfirmationOperation::File,
        session_allow_bash_ops: p.session_allow_bash_ops || op == ConfirmationOperation::Bash,
        ..p
    }
}

/// The current call was answered with the error `message` and skipped: one tool
/// message with that error, a token count and the failed result reported, and
/// the turn moved on past the call.
pub open spec fn rejected(
    before: AgentSession,
    after: AgentSession,
    st: TurnState,
    st_after: TurnState,
    events: Seq<AgentEvent>,
    message: Seq<char>,
) -> bool {
    let i = st.phase->NeedDecision_0;
    &&& after.todos == before.todos
    &&& after.max_tool_rounds == before.max_tool_rounds
    &&& events[0] is TokenCount
    &&& moved_on(before.max_tool_rounds as nat, st, st_after, i + 1, events.skip(2))
    &&& after.messages@.len() == before.messages@.len() + 1
    &&& after.messages@.drop_last() == before.messages@
    &&& after.messages@.last().role@ == "tool"@
    &&& opt_view(after.messages@.last().tool_call_id) == Some(st.calls@[i as int].id@)
    &&& opt_view(after.messages@.last().content) == Some(message)
    &&& after.permissions == before.permissions
    &&& events.len() >= 2
    &&& events[1] matches AgentEvent::ToolResult { tool_call, result } && tool_call.id@
        == st.calls@[i as int].id@ && is_err_with(result, message)
}

/// Adds two counts, stopping at `usize::MAX`.
fn sat_add_usize(a: usize, b: usize) -> (r: usize)
    ensures
        r == capped(a + b),
{
    if a > usize::MAX - b {
        usize::MAX
    } else {
        a + b
    }
}

impl SessionPermissions {
    /// The permissions of a new session.
    pub open spec fn new_spec() -> SessionPermissions {
        SessionPermissions {
            auto_edit_enabled: false,
            session_allow_file_ops: false,
            session_allow_bash_ops: false,
        }
    }
}

} // verus!
