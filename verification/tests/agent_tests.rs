use grok_build::agent::AgentEvent;
use grok_build::agent::AgentSession;
use grok_build::agent::ConfirmationDecision;
use grok_build::agent::DecisionInput;
use grok_build::agent::TurnPhase;
use grok_build::tools::tool_for_name;
use grok_build::agent::SessionPermissions;
use grok_build::agent_policy::{search_mode_for, SearchMode};
use grok_build::agent_stream::{append_with_overlap, merge_stream_field, merge_stream_text};
use grok_build::app_context::{autosave_session_name, default_session_name};
use grok_build::confirmation::ConfirmationOperation;
use grok_build::tools::todos::{execute_create_todo_list, execute_update_todo_list, TodoItem, TodoStore, TodoUpdate};
use grok_build::custom_instructions::choose_custom_instructions;
use grok_build::settings::{migrate_user_settings, needs_migration, ApiKeyEnv, ApiKeySaveLocation, ApiKeyStorageMode, UserSettings};

fn item(id: &str, content: &str, status: &str, priority: &str) -> TodoItem {
    TodoItem {
        id: id.to_string(),
        content: content.to_string(),
        status: status.to_string(),
        priority: priority.to_string(),
    }
}

#[test]
fn search_mode_is_auto_for_recency_keywords() {
    assert!(matches!(search_mode_for("what is the latest grok release"), SearchMode::Auto));
    assert!(matches!(search_mode_for("check current ai news"), SearchMode::Auto));
}

#[test]
fn search_mode_is_off_for_regular_code_prompt() {
    assert!(matches!(search_mode_for("refactor src/agent.rs"), SearchMode::Off));
}

#[test]
fn append_with_overlap_handles_suffix_overlap() {
    let mut target = "abcdef".to_string();
    let appended = append_with_overlap(&mut target, "defghi");
    assert_eq!(appended, "ghi");
    assert_eq!(target, "abcdefghi");
}

#[test]
fn merge_stream_text_ignores_duplicate_full_snapshot() {
    let mut target = String::new();
    assert_eq!(merge_stream_text(&mut target, "hello"), Some("hello".to_string()));
    assert_eq!(merge_stream_text(&mut target, "hello"), None);
    assert_eq!(target, "hello");
}

#[test]
fn merge_stream_text_emits_only_new_suffix_for_snapshots() {
    let mut target = String::new();
    assert_eq!(merge_stream_text(&mut target, "hello"), Some("hello".to_string()));
    assert_eq!(merge_stream_text(&mut target, "hello world"), Some(" world".to_string()));
    assert_eq!(target, "hello world");
}

#[test]
fn merge_stream_field_handles_replayed_and_incremental_values() {
    let mut target = String::new();
    merge_stream_field(&mut target, "str_replace_editor");
    assert_eq!(target, "str_replace_editor");
    merge_stream_field(&mut target, "str_replace_editor");
    assert_eq!(target, "str_replace_editor");
    merge_stream_field(&mut target, "_v2");
    assert_eq!(target, "str_replace_editor_v2");
}

#[test]
fn default_session_name_has_expected_prefix() {
    let name = default_session_name(1_700_000_000_123);
    assert!(name.starts_with("auto-"));
    assert!(name["auto-".len()..].chars().all(|ch| ch.is_ascii_digit()));
    assert_eq!(name, "auto-1700000000123");
}

#[test]
fn autosave_reuses_the_active_session_name() {
    let mut active = None;
    let first = autosave_session_name(&mut active, 42);
    let second = autosave_session_name(&mut active, 99);
    assert_eq!(first, "auto-42");
    assert_eq!(first, second);
}

#[test]
fn operations_are_distinct_and_debuggable() {
    assert_ne!(format!("{:?}", ConfirmationOperation::File), format!("{:?}", ConfirmationOperation::Bash));
    assert_eq!(format!("{:?}", ConfirmationOperation::File), "File");
    assert_eq!(format!("{:?}", ConfirmationOperation::Bash), "Bash");
}

#[test]
fn auto_edit_and_session_permissions_control_auto_approval() {
    let mut agent = SessionPermissions::new();
    assert!(!agent.is_operation_auto_approved(ConfirmationOperation::File));
    assert!(!agent.is_operation_auto_approved(ConfirmationOperation::Bash));

    agent.remember_operation_for_session(ConfirmationOperation::Bash);
    assert!(agent.is_operation_auto_approved(ConfirmationOperation::Bash));
    assert!(!agent.is_operation_auto_approved(ConfirmationOperation::File));

    agent.set_auto_edit_enabled(true);
    assert!(agent.is_operation_auto_approved(ConfirmationOperation::File));
    assert!(agent.is_operation_auto_approved(ConfirmationOperation::Bash));

    agent.set_auto_edit_enabled(false);
    assert!(!agent.is_operation_auto_approved(ConfirmationOperation::File));
    assert!(!agent.is_operation_auto_approved(ConfirmationOperation::Bash));
}

#[test]
fn create_todo_list_rejects_invalid_status_or_priority() {
    let mut store = TodoStore::new();
    let result = execute_create_todo_list(vec![item("1", "task", "queued", "medium")], &mut store);
    assert!(!result.success);
    let message = result.error.expect("error should exist");
    assert!(message.contains("Each todo must include"));
}

#[test]
fn create_todo_list_accepts_valid_items_and_formats_output() {
    let mut store = TodoStore::new();
    let result = execute_create_todo_list(
        vec![
            item("1", "plan release", "pending", "high"),
            item("2", "run tests", "completed", "medium"),
        ],
        &mut store,
    );
    assert!(result.success);
    let output = result.output.expect("output should exist");
    assert!(output.contains("○ plan release"));
    assert!(output.contains("● run tests"));
}

#[test]
fn update_todo_list_updates_existing_item() {
    let mut store = TodoStore::new();
    execute_create_todo_list(vec![item("1", "task", "pending", "low")], &mut store);
    let result = execute_update_todo_list(
        vec![TodoUpdate {
            id: "1".to_string(),
            status: Some("in_progress".to_string()),
            content: None,
            priority: Some("high".to_string()),
        }],
        &mut store,
    );
    assert!(result.success);
    let output = result.output.expect("output should exist");
    assert!(output.contains("◐ task"));
}

#[test]
fn update_todo_list_reports_missing_todo_id() {
    let mut store = TodoStore::new();
    let result = execute_update_todo_list(
        vec![TodoUpdate {
            id: "missing".to_string(),
            status: Some("completed".to_string()),
            content: None,
            priority: None,
        }],
        &mut store,
    );
    assert!(!result.success);
    assert_eq!(result.error.as_deref(), Some("Todo with id 'missing' not found"));
}

#[test]
fn restore_snapshot_rejects_invalid_item_shape() {
    let mut store = TodoStore::new();
    let err = store
        .restore_value(vec![item("1", "task", "pending", "urgent")])
        .expect_err("invalid priority should fail");
    assert!(err.message().contains("invalid item"));
}

#[test]
fn prefers_project_instructions_and_trims_whitespace() {
    let loaded = choose_custom_instructions(Some("\n\n  Keep responses short and actionable. \n"), Some("global"));
    assert_eq!(loaded.as_deref(), Some("Keep responses short and actionable."));
}

#[test]
fn project_instructions_override_global_home_instructions() {
    assert_eq!(
        choose_custom_instructions(Some("project instructions"), Some("global instructions")).as_deref(),
        Some("project instructions")
    );
    assert_eq!(choose_custom_instructions(Some("   "), Some(" global ")).as_deref(), Some("global"));
    assert_eq!(choose_custom_instructions(None, Some("  ")), None);
}

fn manager(user: grok_build::settings::UserSettings) -> grok_build::settings::SettingsManager {
    grok_build::settings::SettingsManager::from_parts(
        "user.json".to_string(),
        "project.json".to_string(),
        user,
        grok_build::settings::ProjectSettings::empty(),
    )
}

fn env(grok: Option<&str>, xai: Option<&str>, openai: Option<&str>) -> ApiKeyEnv {
    ApiKeyEnv {
        grok: grok.map(str::to_string),
        xai: xai.map(str::to_string),
        openai: openai.map(str::to_string),
    }
}

const XAI_URL: &str = "https://api.x.ai/v1";
const OPENAI_URL: &str = "https://api.openai.com/v1";

#[test]
fn plaintext_key_is_kept_in_the_file_and_read_back() {
    let mut user = UserSettings::empty();
    user.api_key_storage = Some(ApiKeyStorageMode::Plaintext);
    let mut settings = manager(user);
    assert!(matches!(settings.record_api_key("sk-123", false), ApiKeySaveLocation::Plaintext));
    let none = env(None, None, None);
    assert_eq!(settings.choose_api_key(XAI_URL, &none, Some("from-keychain".to_string())).as_deref(), Some("sk-123"));
    assert_eq!(settings.choose_api_key(XAI_URL, &env(Some("env-key"), None, None), None).as_deref(), Some("env-key"));
    assert_eq!(settings.choose_api_key(XAI_URL, &env(Some("   "), None, None), None).as_deref(), Some("sk-123"));
}

#[test]
fn keychain_key_leaves_the_file_and_wins_over_it() {
    let mut settings = manager(UserSettings::empty());
    let none = env(None, None, None);
    assert!(matches!(settings.record_api_key("sk-1", true), ApiKeySaveLocation::Keychain));
    assert!(settings.user_settings.api_key.is_none());
    assert_eq!(settings.choose_api_key(XAI_URL, &none, Some("sk-1".to_string())).as_deref(), Some("sk-1"));
    assert_eq!(settings.choose_api_key(XAI_URL, &none, None), None);
}

#[test]
fn refused_keychain_key_stays_in_memory_only() {
    let mut settings = manager(UserSettings::empty());
    let none = env(None, None, None);
    assert!(matches!(settings.record_api_key("sk-2", false), ApiKeySaveLocation::SessionOnly));
    assert!(settings.user_settings.api_key.is_none());
    assert_eq!(settings.session_api_key.as_deref(), Some("sk-2"));
    assert_eq!(settings.choose_api_key(XAI_URL, &none, Some("old".to_string())).as_deref(), Some("sk-2"));
}

#[test]
fn keychain_mode_never_reads_the_file_key() {
    let mut user = UserSettings::empty();
    user.api_key = Some("file-key".to_string());
    let settings = manager(user);
    assert_eq!(settings.choose_api_key(XAI_URL, &env(None, None, None), None), None);
}

#[test]
fn environment_key_order_depends_on_the_provider() {
    let settings = manager(UserSettings::empty());
    let both = env(None, Some("xai-key"), Some("openai-key"));
    assert_eq!(settings.choose_api_key(XAI_URL, &both, None).as_deref(), Some("xai-key"));
    assert_eq!(settings.choose_api_key(OPENAI_URL, &both, None).as_deref(), Some("openai-key"));
    let all = env(Some("grok-key"), Some("xai-key"), Some("openai-key"));
    assert_eq!(settings.choose_api_key(OPENAI_URL, &all, None).as_deref(), Some("grok-key"));
    let blank_xai = env(None, Some("  "), Some("openai-key"));
    assert_eq!(settings.choose_api_key(XAI_URL, &blank_xai, None).as_deref(), Some("openai-key"));
}

#[test]
fn migration_fills_defaults_once() {
    let mut user = UserSettings::empty();
    user.base_url = Some("https://example.com/v1".to_string());
    assert!(needs_migration(&user));
    migrate_user_settings(&mut user);
    assert!(!needs_migration(&user));
    assert_eq!(user.base_url.as_deref(), Some("https://example.com/v1"));
    assert!(user.default_model.is_some());
    assert!(matches!(user.api_key_storage, Some(ApiKeyStorageMode::Keychain)));
    let models = user.models.clone();
    migrate_user_settings(&mut user);
    assert_eq!(user.models, models);
    let settings = manager(user);
    assert!(!settings.get_available_models().is_empty());
    assert_eq!(settings.get_base_url(Some("https://env.example/v1")), "https://env.example/v1");
}

fn session_call(id: &str, name: &str, arguments: &str) -> grok_build::agent::ToolCallSummary {
    grok_build::agent::ToolCallSummary { id: id.to_string(), name: name.to_string(), arguments: arguments.to_string() }
}

fn assistant_calls(calls: &Vec<grok_build::agent::ToolCallSummary>) -> Option<Vec<grok_build::protocol::ChatToolCall>> {
    grok_build::agent::chat_calls_for(calls)
}

#[test]
fn streamed_turn_asks_then_rejects_then_finishes() {
    let mut session = AgentSession::new("system", 4);
    let (mut st, events) = session.begin_turn("run echo", Vec::new(), true, true);
    assert!(matches!(events.as_slice(), [AgentEvent::TokenCount(_)]));
    let calls = vec![session_call("call_1", "bash", r#"{"command":"echo hi"}"#)];
    let assistant = assistant_calls(&calls);
    let events = session.complete_round(&mut st, "", calls, assistant);
    assert!(matches!(events.last(), Some(AgentEvent::ToolCalls(_))));
    assert_eq!(st.phase, TurnPhase::AtCall(0));
    let events = session.start_call(&mut st);
    assert!(matches!(events.as_slice(), [AgentEvent::ConfirmationRequest { .. }]));
    let reject = ConfirmationDecision::Reject { tool_call_id: "call_1".to_string(), feedback: None };
    let events = session.decide(&mut st, DecisionInput::Decision(reject));
    match &events[1] {
        AgentEvent::ToolResult { result, .. } => {
            assert_eq!(result.error.as_deref(), Some("Operation cancelled by user"))
        }
        other => panic!("unexpected event {other:?}"),
    }
    assert_eq!(st.phase, TurnPhase::NeedCompletion);
    let events = session.complete_round(&mut st, "final answer", Vec::new(), None);
    assert!(matches!(events.last(), Some(AgentEvent::Done)));
    assert_eq!(st.phase, TurnPhase::Finished);
    assert_eq!(session.messages[3].role, "tool");
}

#[test]
fn unknown_tool_result_leads_to_another_round() {
    let mut session = AgentSession::new("system", 3);
    let (mut st, _) = session.begin_turn("run", Vec::new(), false, false);
    let calls = vec![session_call("call_1", "not_a_real_tool", r#"{"x":1}"#)];
    let assistant = assistant_calls(&calls);
    session.complete_round(&mut st, "", calls, assistant);
    session.start_call(&mut st);
    assert_eq!(st.phase, TurnPhase::NeedToolResult(0));
    let result = tool_for_name("not_a_real_tool").err().expect("unknown tool");
    session.finish_tool(&mut st, result);
    assert_eq!(st.phase, TurnPhase::NeedCompletion);
    session.complete_round(&mut st, "done", Vec::new(), None);
    assert_eq!(st.final_content.as_deref(), Some("done"));
    assert_eq!(session.messages.len(), 5);
    assert_eq!(session.messages[3].role, "tool");
    assert_eq!(session.messages[3].content.as_deref(), Some("Unknown tool: not_a_real_tool"));
}

#[test]
fn round_limit_ends_the_turn_with_its_answer() {
    let mut session = AgentSession::new("system", 1);
    let (mut st, _) = session.begin_turn("loop", Vec::new(), false, false);
    let calls = vec![session_call("call_1", "not_a_real_tool", "{}")];
    let assistant = assistant_calls(&calls);
    session.complete_round(&mut st, "", calls, assistant);
    session.start_call(&mut st);
    let events = session.finish_tool(&mut st, tool_for_name("not_a_real_tool").err().expect("unknown"));
    assert_eq!(st.phase, TurnPhase::Finished);
    assert!(matches!(events.last(), Some(AgentEvent::Done)));
    assert_eq!(st.final_content.as_deref(), Some("Maximum tool execution rounds reached."));
}

#[test]
fn remembered_approval_keeps_the_other_operation() {
    let mut session = AgentSession::new("system", 2);
    let (mut st, _) = session.begin_turn("go", Vec::new(), true, true);
    let calls = vec![session_call("call_approve", "bash", r#"{"command":"echo hi"}"#)];
    let assistant = assistant_calls(&calls);
    session.complete_round(&mut st, "", calls, assistant);
    session.start_call(&mut st);
    let approve = ConfirmationDecision::Approve { tool_call_id: "call_approve".to_string(), remember_for_session: true };
    let events = session.decide(&mut st, DecisionInput::Decision(approve));
    assert!(events.is_empty());
    assert_eq!(st.phase, TurnPhase::NeedToolResult(0));
    assert!(session.permissions.is_operation_auto_approved(ConfirmationOperation::Bash));
    assert!(!session.permissions.is_operation_auto_approved(ConfirmationOperation::File));
    assert!(!session.permissions.auto_edit_enabled());
}

#[test]
fn snapshot_keeps_model_directory_and_flags() {
    let mut session = AgentSession::new("system", 2);
    session.permissions.set_auto_edit_enabled(true);
    let snapshot = session.snapshot("model-a", "/tmp/project");
    assert_eq!(snapshot.model, "model-a");
    assert_eq!(snapshot.current_dir, "/tmp/project");
    assert!(snapshot.auto_edit_enabled);
    let mut restored = AgentSession::new("system", 2);
    restored.restore_messages(snapshot.messages.clone());
    assert!(restored.restore_todos_and_permissions(snapshot).is_ok());
    assert!(restored.permissions.auto_edit_enabled());
}
