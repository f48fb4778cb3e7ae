use grok_build::tools::arguments::{search_args, todos_args, updates_args};
use grok_build::tools::search_tool::match_file;
use grok_build::inline_ui::{classify_input, InlineCommand};
use grok_build::agent::SessionPermissions;
use grok_build::confirmation::ConfirmationOperation;
use grok_build::inline_ui::direct_command_needs_confirmation;
use grok_build::inline_ui::decide_direct_command;
use grok_build::agent::{ConfirmationDecision, DecisionInput};
use grok_build::responses_adapter::Json;
use grok_build::tools::arguments::bash_args;
use grok_build::tools::arguments::create_file_args;
use grok_build::tools::arguments::edit_args;
use grok_build::tools::arguments::tool_arguments;
use grok_build::tools::arguments::view_file_args;
use grok_build::agent::{AgentEvent, ToolCallSummary};
use grok_build::inline_prompt::{build_command_hint, slash_matches, InlineEditor};
use grok_build::inline_ui::{DisplayOp, TurnDisplay};
use grok_build::tools::{tool_for_name, ToolKind, ToolResult};
use grok_build::tui::{
    centered_rect, direct_command_entry, footer_text, scroll_offset, split_prefixed_lines, transcript_lines, App,
    Area, Entry, EntryKind, Tone, TuiAction, TuiCommitFlow, TuiFlowRequest, TuiKey, UiEvent,
};
use grok_build::ui::prompt::{PromptAction, PromptEditor, PromptKey};

fn call(id: &str, name: &str, arguments: &str) -> ToolCallSummary {
    ToolCallSummary { id: id.to_string(), name: name.to_string(), arguments: arguments.to_string() }
}

fn type_text(app: &mut App, text: &str) {
    for c in text.chars() {
        app.on_key(TuiKey::Char(c));
    }
}

fn texts_of(lines: &[grok_build::tui::TuiLine]) -> Vec<String> {
    lines.iter().map(|l| l.text.clone()).collect()
}

#[test]
fn execute_tool_returns_unknown_tool_error() {
    let result = tool_for_name("not_a_real_tool").err().expect("unknown tool");
    assert!(!result.success);
    assert_eq!(result.error.as_deref(), Some("Unknown tool: not_a_real_tool"));
    assert!(matches!(tool_for_name("bash"), Ok(ToolKind::Bash)));
    assert!(matches!(tool_for_name("update_todo_list"), Ok(ToolKind::UpdateTodoList)));
}

#[test]
fn prompt_editor_backspace_undoes_typing() {
    let mut editor = PromptEditor::new(false);
    let history: Vec<String> = Vec::new();
    for c in "hi".chars() {
        editor.handle_key(PromptKey::Char(c), &history);
    }
    editor.handle_key(PromptKey::Char('!'), &history);
    editor.handle_key(PromptKey::Backspace, &history);
    assert_eq!(editor.text(), "hi");
    assert_eq!(editor.cursor, 2);
    match editor.handle_key(PromptKey::Enter, &history) {
        PromptAction::Submit(line) => assert_eq!(line, "hi"),
        _ => panic!("expected the line to be submitted"),
    }
}

#[test]
fn prompt_editor_double_ctrl_c_exits() {
    let mut editor = PromptEditor::new(false);
    let history: Vec<String> = Vec::new();
    assert!(matches!(editor.handle_key(PromptKey::CtrlC, &history), PromptAction::ExitHint));
    assert!(matches!(editor.handle_key(PromptKey::CtrlC, &history), PromptAction::Cancel));
}

#[test]
fn inline_editor_completes_and_hints_slash_commands() {
    assert_eq!(slash_matches("/c"), vec!["/clear".to_string(), "/commit-and-push".to_string()]);
    assert_eq!(build_command_hint("hello", "", &[], 0), None);
    assert_eq!(build_command_hint("/zzz", "", &[], 0).as_deref(), Some("commands: (no matches)"));
    assert_eq!(build_command_hint("/c", "", &[], 0).as_deref(), Some("commands: /clear  /commit-and-push"));
    let matches = vec!["/clear".to_string(), "/commit-and-push".to_string()];
    assert_eq!(
        build_command_hint("/c", "/c", &matches, 1).as_deref(),
        Some("commands: /clear  [/commit-and-push]")
    );
    assert_eq!(
        build_command_hint("/", "", &[], 0).as_deref(),
        Some("commands: /help  /clear  /models  /commit-and-push  /exit")
    );

    let mut editor = InlineEditor::new();
    let history: Vec<String> = Vec::new();
    editor.handle_key(PromptKey::Char('/'), &history);
    editor.handle_key(PromptKey::Char('m'), &history);
    editor.handle_key(PromptKey::Tab, &history);
    assert_eq!(editor.text(), "/models ");
    assert_eq!(editor.cursor, 8);
}

#[test]
fn inline_editor_tab_cycles_on_an_exact_command() {
    let mut editor = InlineEditor::new();
    let history: Vec<String> = Vec::new();
    for c in "/exit".chars() {
        editor.handle_key(PromptKey::Char(c), &history);
    }
    editor.handle_key(PromptKey::Tab, &history);
    assert_eq!(editor.text(), "/exit ");
    assert_eq!(editor.completion_index, 0);
    editor.handle_key(PromptKey::Tab, &history);
    assert_eq!(editor.text(), "/exit ");
    assert_eq!(editor.completion_index, 0);
    editor.handle_key(PromptKey::Backspace, &history);
    assert!(editor.completion_matches.is_empty());
}

#[test]
fn inline_editor_walks_the_history() {
    let mut editor = InlineEditor::new();
    let history = vec!["first".to_string(), "second".to_string()];
    editor.handle_key(PromptKey::Up, &history);
    assert_eq!(editor.text(), "second");
    editor.handle_key(PromptKey::Up, &history);
    assert_eq!(editor.text(), "first");
    editor.handle_key(PromptKey::Down, &history);
    assert_eq!(editor.text(), "second");
    editor.handle_key(PromptKey::Down, &history);
    assert_eq!(editor.text(), "");
    assert!(matches!(editor.handle_key(PromptKey::CtrlD, &history), PromptAction::Cancel));
}

#[test]
fn turn_display_reports_tools_and_timing() {
    let mut display = TurnDisplay::new();
    assert_eq!(display.tick(3).as_deref(), Some("- thinking... 3s"));
    let ops = display.on_content("Hello".to_string());
    assert!(matches!(ops.as_slice(), [DisplayOp::ClearStatus, DisplayOp::BeginContent, DisplayOp::Markdown(t)] if t == "Hello"));
    assert_eq!(display.tick(4), None);
    let ops = display.on_tool_calls(vec![call("c1", "view_file", r#"{"path":"a.rs"}"#)], 1_000);
    assert!(matches!(ops.last(), Some(DisplayOp::ToolStart(l)) if l == "Read(a.rs)"));
    assert_eq!(display.tick(5).as_deref(), Some("\\ running tools (0/1)... 5s"));
    let ops = display.on_tool_result(call("c1", "view_file", r#"{"path":"a.rs"}"#), ToolResult::ok("x"), 3_500);
    assert!(matches!(&ops[ops.len() - 2], DisplayOp::ToolDone { label, elapsed, success: true } if label == "Read(a.rs)" && elapsed == "2.5s"));
    let again = display.on_tool_result(call("c1", "view_file", "{}"), ToolResult::err("no"), 4_000);
    assert!(matches!(&again[again.len() - 2], DisplayOp::ToolDone { elapsed, success: false, .. } if elapsed == "n/a"));
    let done = display.on_done(7, 250);
    assert!(matches!(done.last(), Some(DisplayOp::Note(t)) if t == "\u{25cf} completed in 7.2s"));
    assert!(done.iter().any(|op| matches!(op, DisplayOp::Note(t) if t == "\u{25e6} tools summary: 1 total, 1 succeeded, 1 failed")));
}

#[test]
fn tui_prefixed_lines_indent_continuations() {
    let lines = split_prefixed_lines("> ", "one\r\ntwo", Tone::Plain);
    assert_eq!(texts_of(&lines), vec!["> one".to_string(), "  two".to_string()]);
    let empty = split_prefixed_lines("o ", "", Tone::Red);
    assert_eq!(texts_of(&empty), vec!["o ".to_string()]);
    assert_eq!(empty[0].tone, Tone::Red);
}

#[test]
fn tui_submit_handles_commands_and_messages() {
    let mut app = App::new("grok-code-fast-1".to_string(), vec!["grok-code-fast-1".to_string(), "grok-4".to_string()]);
    assert_eq!(app.build_history_lines().len(), 6);
    assert_eq!(app.history_line_count(), 6);
    assert!(matches!(app.submit("   ".to_string()), TuiAction::Nothing));
    assert!(matches!(app.submit("/models grok-4".to_string()), TuiAction::SwitchModel(m) if m == "grok-4"));
    app.model_switched("grok-4".to_string());
    assert_eq!(app.current_model, "grok-4");
    assert!(matches!(app.submit("/models nope".to_string()), TuiAction::Nothing));
    assert_eq!(
        app.entries.last().map(|e| e.content.clone()).as_deref(),
        Some("Invalid model: nope\nAvailable models: grok-code-fast-1, grok-4")
    );
    assert!(matches!(app.submit("ls -la".to_string()), TuiAction::RunDirectCommand(c) if c == "ls -la"));
    assert!(app.processing);
    app.on_ui_event(UiEvent::Done);
    assert!(!app.processing);
    assert!(matches!(app.submit("explain this".to_string()), TuiAction::SendToAgent(m) if m == "explain this"));
    assert!(matches!(app.submit("/clear".to_string()), TuiAction::Nothing));
    assert!(app.entries.is_empty());
    assert!(matches!(app.submit("quit".to_string()), TuiAction::Nothing));
    assert!(app.quit);
}

#[test]
fn tui_keys_edit_suggest_and_cancel() {
    let mut app = App::new("m".to_string(), vec!["m".to_string()]);
    type_text(&mut app, "/c");
    assert!(app.show_suggestions);
    assert_eq!(app.filtered_suggestions().len(), 2);
    app.on_key(TuiKey::Down);
    assert_eq!(app.suggestion_idx, 1);
    app.on_key(TuiKey::Tab);
    assert_eq!(app.input.iter().collect::<String>(), "/commit-and-push ");
    assert!(!app.show_suggestions);
    app.on_key(TuiKey::CtrlChar('u'));
    assert!(app.input.is_empty());
    type_text(&mut app, "hey");
    app.on_key(TuiKey::Backspace);
    assert_eq!(app.input.iter().collect::<String>(), "he");
    assert!(matches!(app.on_key(TuiKey::Enter), TuiAction::SendToAgent(m) if m == "he"));
    assert!(matches!(app.on_key(TuiKey::Esc), TuiAction::CancelTurn));
    assert!(!app.processing);
    app.on_key(TuiKey::Up);
    assert_eq!(app.input.iter().collect::<String>(), "he");
    app.on_key(TuiKey::CtrlC);
    assert!(app.input.is_empty() && !app.quit);
    app.on_key(TuiKey::CtrlC);
    assert!(app.quit);
}

#[test]
fn tui_agent_events_stream_and_replace_tool_entries() {
    let mut app = App::new("m".to_string(), Vec::new());
    app.on_ui_event(UiEvent::Agent(AgentEvent::Content("Hel".to_string())));
    app.on_ui_event(UiEvent::Agent(AgentEvent::Content("lo".to_string())));
    assert_eq!(app.entries.len(), 1);
    assert_eq!(app.entries[0].content, "Hello");
    assert!(app.entries[0].streaming);
    assert_eq!(texts_of(&app.build_history_lines()), vec!["o Hello".to_string(), "|".to_string()]);
    app.on_ui_event(UiEvent::Agent(AgentEvent::ToolCalls(vec![call("t1", "bash", r#"{"command":"pwd"}"#)])));
    assert!(!app.entries[0].streaming);
    assert_eq!(app.entries[1].kind, EntryKind::ToolCall);
    app.on_ui_event(UiEvent::Agent(AgentEvent::ToolResult {
        tool_call: call("t1", "bash", r#"{"command":"pwd"}"#),
        result: ToolResult::ok("/tmp\n/x"),
    }));
    assert_eq!(app.entries.len(), 2);
    assert_eq!(app.entries[1].kind, EntryKind::ToolResult);
    let lines = app.build_history_lines();
    assert_eq!(
        texts_of(&lines),
        vec!["o Hello".to_string(), "o Bash(pwd)".to_string(), "  -> /tmp".to_string(), "     /x".to_string()]
    );
    assert_eq!(lines[2].tone, Tone::Gray);
    assert_eq!(app.history_line_count(), 4);
    app.on_ui_event(UiEvent::Agent(AgentEvent::Error("boom".to_string())));
    assert_eq!(app.entries.last().map(|e| e.content.clone()).as_deref(), Some("Error: boom"));
    let transcript = transcript_lines(&app.entries);
    assert_eq!(transcript[1], "Session transcript:");
    assert!(transcript.contains(&"o Bash(pwd)".to_string()));
    assert!(transcript.contains(&"  -> /x".to_string()));
}

#[test]
fn tui_scrolling_follows_the_end() {
    let mut app = App::new("m".to_string(), Vec::new());
    for i in 0..30 {
        app.entries.push(Entry::user(format!("line {i}")));
    }
    app.on_key(TuiKey::PageUp);
    assert!(!app.follow_tail);
    assert_eq!(app.chat_scroll, 19);
    app.scroll_up();
    assert_eq!(app.chat_scroll, 16);
    app.on_key(TuiKey::PageDown);
    assert_eq!(app.chat_scroll, 26);
    app.on_key(TuiKey::PageDown);
    assert!(app.follow_tail);
    assert_eq!(scroll_offset(true, 0, 30, 10), 20);
    assert_eq!(scroll_offset(false, 25, 30, 10), 20);
    assert_eq!(scroll_offset(false, 3, 30, 10), 3);
}

#[test]
fn tui_draw_helpers() {
    assert_eq!(footer_text(true, "grok-4", false, 0), "on auto-edit: enabled (shift + tab)   ~= grok-4");
    assert_eq!(
        footer_text(false, "m", true, 12),
        "off auto-edit: disabled (shift + tab)   ~= m   processing: 12s"
    );
    let r = centered_rect(70, 12, Area { x: 0, y: 0, width: 100, height: 40 });
    assert_eq!((r.x, r.y, r.width, r.height), (15, 14, 70, 12));
    let entry = direct_command_entry("echo \"hi\"", Ok(ToolResult::ok("hi")), 42);
    let tool = entry.tool.expect("tool");
    assert_eq!(tool.id, "bash_42");
    assert_eq!(tool.arguments, r#"{"command":"echo \"hi\""}"#);
    let failed = direct_command_entry("ls", Err("spawn failed".to_string()), 1);
    assert_eq!(failed.content, "Error executing command: spawn failed");
}

#[test]
fn tui_commit_flow_runs_the_git_steps() {
    let mut flow = TuiCommitFlow::new();
    assert!(matches!(flow.start(), TuiFlowRequest::RunBash(c) if c == "git status --porcelain"));
    let step = flow.on_bash(Ok(ToolResult::ok(" M src/lib.rs")), 1);
    assert!(matches!(step.next, TuiFlowRequest::RunBash(c) if c == "git add ."));
    let step = flow.on_bash(Ok(ToolResult::ok("")), 2);
    assert_eq!(step.entries.len(), 1);
    assert!(matches!(step.next, TuiFlowRequest::RunBash(c) if c == "git diff --cached"));
    let step = flow.on_bash(Ok(ToolResult::ok("diff")), 3);
    match step.next {
        TuiFlowRequest::Generate(p) => {
            assert!(p.contains("Git Status:\n M src/lib.rs"));
            assert!(p.contains("Git Diff:\ndiff"));
        }
        _ => panic!("expected a prompt"),
    }
    let step = flow.on_message(Ok("  \"fix \"x\" now\"  ".to_string()));
    assert_eq!(step.entries[0].content, "Generated commit message: \"fix \"x\" now\"");
    assert!(matches!(step.next, TuiFlowRequest::RunBash(ref c) if c == "git commit -m \"fix \\\"x\\\" now\""));
    let step = flow.on_bash(Ok(ToolResult::ok("committed")), 4);
    assert!(matches!(step.next, TuiFlowRequest::RunBash(c) if c == "git push"));
    let step = flow.on_bash(
        Ok(ToolResult { success: false, output: None, error: Some("fatal: no upstream branch".to_string()) }),
        5,
    );
    assert!(step.entries.is_empty());
    assert!(matches!(step.next, TuiFlowRequest::RunBash(c) if c == "git push -u origin HEAD"));
    let step = flow.on_bash(Ok(ToolResult::ok("pushed")), 6);
    assert!(matches!(step.next, TuiFlowRequest::Finished));
    assert_eq!(step.entries[0].tool.as_ref().map(|t| t.id.clone()).as_deref(), Some("git_push_6"));
}

#[test]
fn tui_commit_flow_stops_without_changes() {
    let mut flow = TuiCommitFlow::new();
    let step = flow.on_bash(Ok(ToolResult::ok("   ")), 1);
    assert!(matches!(step.next, TuiFlowRequest::Finished));
    assert_eq!(step.entries[0].content, "No changes to commit.");
    let mut flow = TuiCommitFlow::new();
    let step = flow.on_bash(Err("no git".to_string()), 1);
    assert_eq!(step.entries[0].content, "git status failed: no git");
    let mut flow = TuiCommitFlow::new();
    flow.on_bash(Ok(ToolResult::ok("x")), 1);
    flow.on_bash(Err("add failed".to_string()), 2);
    flow.on_bash(Ok(ToolResult::ok("")), 3);
    let step = flow.on_message(Err("offline".to_string()));
    assert_eq!(step.entries[0].content, "Generated commit message: \"chore: update project files\"");
}

#[test]
fn turn_display_closes_with_tool_summary_then_time() {
    let mut display = TurnDisplay::new();
    display.on_content("partial".to_string());
    display.on_tool_calls(vec![call("c1", "bash", r#"{"command":"ls"}"#)], 0);
    display.on_tool_result(call("c1", "bash", r#"{"command":"ls"}"#), ToolResult::ok("done"), 1200);
    display.on_content("answer".to_string());
    let ops = display.on_done(2, 340);
    assert_eq!(ops.len(), 4);
    assert!(matches!(ops[0], DisplayOp::ClearStatus));
    assert!(matches!(ops[1], DisplayOp::EndContent));
    match &ops[2] {
        DisplayOp::Note(t) => assert_eq!(t, "\u{25e6} tools summary: 1 total, 1 succeeded, 0 failed"),
        other => panic!("unexpected {other:?}"),
    }
    match &ops[3] {
        DisplayOp::Note(t) => assert_eq!(t, "\u{25cf} completed in 2.3s"),
        other => panic!("unexpected {other:?}"),
    }
    assert!(!display.started_content);
}

#[test]
fn direct_commands_are_confirmed_unless_bash_is_approved() {
    let mut permissions = SessionPermissions::new();
    assert!(direct_command_needs_confirmation(&permissions));
    permissions.remember_operation_for_session(ConfirmationOperation::File);
    assert!(direct_command_needs_confirmation(&permissions));
    permissions.remember_operation_for_session(ConfirmationOperation::Bash);
    assert!(!direct_command_needs_confirmation(&permissions));
}

#[test]
fn tool_arguments_are_read_with_defaults_and_errors() {
    let view = view_file_args(&tool_arguments(r#"{"path":"a.rs","start_line":3}"#)).expect("view args");
    assert_eq!(view.path, "a.rs");
    assert_eq!(view.start_line, Some(3));
    assert_eq!(view.end_line, None);
    let edit = edit_args(&tool_arguments(r#"{"path":"a","old_str":"x","new_str":"y"}"#)).expect("edit args");
    assert!(!edit.replace_all);
    assert_eq!(
        edit_args(&tool_arguments(r#"{"path":"a","new_str":"y"}"#)).err().as_deref(),
        Some("Missing 'old_str' argument")
    );
    assert_eq!(
        create_file_args(&tool_arguments("not json")).err().as_deref(),
        Some("Missing 'path' argument")
    );
    assert_eq!(bash_args(&tool_arguments(r#"{"command":"ls"}"#)).ok().as_deref(), Some("ls"));
    assert!(matches!(tool_arguments("[1, 2]"), Json::Array(_)));
}

#[test]
fn resume_is_a_known_inline_command() {
    assert!(matches!(classify_input("/resume"), InlineCommand::Resume));
    assert!(matches!(classify_input("/resumes"), InlineCommand::UnknownSlash));
}

#[test]
fn search_and_todo_arguments_are_read_with_their_kinds() {
    let args = search_args(&tool_arguments(r#"{"query":"fn main","max_results":5,"regex":true,"file_types":["rs"]}"#))
        .expect("search args");
    assert_eq!(args.query, "fn main");
    assert_eq!(args.max_results, Some(5));
    assert_eq!(args.regex, Some(true));
    assert_eq!(args.whole_word, None);
    assert_eq!(args.file_types, Some(vec!["rs".to_string()]));
    assert_eq!(
        search_args(&tool_arguments(r#"{"query":"x","max_results":"5"}"#)).err().as_deref(),
        Some("Invalid search arguments")
    );
    let todos = todos_args(&tool_arguments(
        r#"{"todos":[{"id":"1","content":"write","status":"pending","priority":"high"}]}"#,
    ))
    .expect("todos");
    assert_eq!(todos[0].content, "write");
    assert_eq!(todos_args(&tool_arguments("{}")).err().as_deref(), Some("Missing 'todos' argument"));
    assert_eq!(
        todos_args(&tool_arguments(r#"{"todos":[{"id":"1"}]}"#)).err().as_deref(),
        Some("Invalid 'todos' argument")
    );
    let updates = updates_args(&tool_arguments(r#"{"updates":[{"id":"1","status":"completed"}]}"#)).expect("updates");
    assert_eq!(updates[0].status.as_deref(), Some("completed"));
    assert_eq!(updates[0].content, None);
}

#[test]
fn ripgrep_match_lines_give_their_file() {
    assert_eq!(
        match_file(r#"{"type":"match","data":{"path":{"text":"src/main.rs"},"lines":{"text":"fn main"}}}"#).as_deref(),
        Some("src/main.rs")
    );
    assert_eq!(match_file(r#"{"type":"begin","data":{"path":{"text":"src/main.rs"}}}"#), None);
    assert_eq!(match_file("garbage"), None);
}

#[test]
fn direct_command_answers_settle_the_run() {
    let fresh = SessionPermissions { auto_edit_enabled: false, session_allow_file_ops: false, session_allow_bash_ops: false };
    let mut p = fresh.clone();
    let approve = DecisionInput::Decision(ConfirmationDecision::Approve {
        tool_call_id: "bash_inline".to_string(),
        remember_for_session: true,
    });
    assert_eq!(decide_direct_command(&mut p, approve), None);
    assert!(p.session_allow_bash_ops);
    assert!(!p.session_allow_file_ops);
    assert!(!direct_command_needs_confirmation(&p));

    let mut q = fresh.clone();
    let once = DecisionInput::Decision(ConfirmationDecision::Approve {
        tool_call_id: "bash_inline".to_string(),
        remember_for_session: false,
    });
    assert_eq!(decide_direct_command(&mut q, once), None);
    assert!(!q.session_allow_bash_ops);

    let refuse = DecisionInput::Decision(ConfirmationDecision::Reject {
        tool_call_id: "bash_inline".to_string(),
        feedback: Some("not now".to_string()),
    });
    assert_eq!(decide_direct_command(&mut q, refuse).as_deref(), Some("not now"));
    let bare = DecisionInput::Decision(ConfirmationDecision::Reject { tool_call_id: "bash_inline".to_string(), feedback: None });
    assert_eq!(decide_direct_command(&mut q, bare).as_deref(), Some("Operation cancelled by user"));
    assert_eq!(decide_direct_command(&mut q, DecisionInput::Cancelled).as_deref(), Some("Operation cancelled by user"));
    assert_eq!(decide_direct_command(&mut q, DecisionInput::ChannelClosed).as_deref(), Some("Operation cancelled by user"));
    assert!(!q.session_allow_bash_ops);
}
