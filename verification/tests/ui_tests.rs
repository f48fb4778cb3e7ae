use grok_build::confirmation::ConfirmationOperation;
use grok_build::image_input::{extract_markdown_image_candidates, maybe_decode_file_url, percent_decode};
use grok_build::onboarding::{parse_provider_choice, prompt_with_default_answer, prompt_with_default_text, ProviderType};
use grok_build::session_store::{check_session_version, normalize_session_name, session_name_for_load, SessionLoadError};
use grok_build::slash_commands::{append_help_section, parse_slash_command, CommandGroup, ParsedSlashCommand};
use grok_build::tool_catalog::{
    confirmation_operation_for_tool, default_tools, tool_display_name, TOOL_BASH, TOOL_CREATE_FILE,
    TOOL_CREATE_TODO_LIST, TOOL_SEARCH, TOOL_STR_REPLACE_EDITOR, TOOL_UPDATE_TODO_LIST, TOOL_VIEW_FILE,
};
use grok_build::tools::file_ops::{execute_create_file, execute_str_replace_editor, execute_view_file};
use grok_build::tools::search_tool::{
    calculate_file_score, format_search_results, normalize_file_path, plan_search, FileSearchResult, SearchTextResult,
};
use grok_build::tools::{tool_result_from_error, ToolResult};
use grok_build::ui::markdown::{code_comment_prefix, is_comment_start, is_heading_line, is_lang_keyword, split_list_prefix};
use std::collections::HashSet;
use grok_build::responses_adapter::Json;
use grok_build::tools::search_tool::rank_file_results;

fn triple(a: &str, b: &str, c: &str) -> Option<(String, String, String)> {
    Some((a.to_string(), b.to_string(), c.to_string()))
}

#[test]
fn heading_detection_requires_hash_space_prefix() {
    assert!(is_heading_line("# Title"));
    assert!(is_heading_line("### Subtitle"));
    assert!(!is_heading_line("####### Too deep"));
    assert!(!is_heading_line("#NoSpace"));
    assert!(!is_heading_line("plain text"));
}

#[test]
fn split_list_prefix_handles_bullets_and_numbered_lists() {
    assert_eq!(split_list_prefix("  - item"), triple("  ", "- ", "item"));
    assert_eq!(split_list_prefix("* another"), triple("", "* ", "another"));
    assert_eq!(split_list_prefix("12. numbered"), triple("", "12. ", "numbered"));
    assert_eq!(split_list_prefix("1) not-supported"), None);
    assert_eq!(split_list_prefix("no list"), None);
}

#[test]
fn comment_prefix_matches_language_family() {
    assert_eq!(code_comment_prefix("python"), "#");
    assert_eq!(code_comment_prefix("sql"), "--");
    assert_eq!(code_comment_prefix("rust"), "//");
}

#[test]
fn comment_start_detection_uses_selected_prefix() {
    assert!(is_comment_start('#', None, "#"));
    assert!(is_comment_start('-', Some('-'), "--"));
    assert!(is_comment_start('/', Some('/'), "//"));
    assert!(!is_comment_start('-', Some('x'), "--"));
    assert!(!is_comment_start('/', Some('*'), "//"));
}

#[test]
fn language_keyword_detection_is_language_specific() {
    assert!(is_lang_keyword("rust", "fn"));
    assert!(!is_lang_keyword("rust", "function"));
    assert!(is_lang_keyword("typescript", "function"));
    assert!(is_lang_keyword("python", "lambda"));
    assert!(!is_lang_keyword("unknown", "fn"));
}

#[test]
fn parses_models_set_command() {
    match parse_slash_command("/models grok-4-latest") {
        Some(ParsedSlashCommand::SetModel(model)) => assert_eq!(model, "grok-4-latest"),
        _ => panic!("expected SetModel"),
    }
}

#[test]
fn ignores_unknown_slash_commands() {
    assert!(parse_slash_command("/not-real").is_none());
}

#[test]
fn parses_session_commands() {
    assert!(matches!(parse_slash_command("/save"), Some(ParsedSlashCommand::Save(None))));
    assert!(matches!(
        parse_slash_command("/save my-session"),
        Some(ParsedSlashCommand::Save(Some(name))) if name == "my-session"
    ));
    assert!(matches!(
        parse_slash_command("/load resume-1"),
        Some(ParsedSlashCommand::Load(name)) if name == "resume-1"
    ));
    assert!(matches!(parse_slash_command("/sessions"), Some(ParsedSlashCommand::Sessions)));
}

#[test]
fn slash_command_parser_and_help_are_consistent() {
    assert!(matches!(parse_slash_command("/help"), Some(ParsedSlashCommand::Help)));
    assert!(matches!(parse_slash_command("/clear"), Some(ParsedSlashCommand::Clear)));
    assert!(matches!(parse_slash_command("/models"), Some(ParsedSlashCommand::Models)));
    assert!(matches!(
        parse_slash_command("/models grok-4-latest"),
        Some(ParsedSlashCommand::SetModel(model)) if model == "grok-4-latest"
    ));
    assert!(matches!(parse_slash_command("/resume"), Some(ParsedSlashCommand::Resume)));
    assert!(matches!(parse_slash_command("/commit-and-push"), Some(ParsedSlashCommand::CommitAndPush)));
    assert!(matches!(parse_slash_command("/exit"), Some(ParsedSlashCommand::Exit)));

    let mut built_in = String::new();
    append_help_section(&mut built_in, "Built-in Commands", CommandGroup::BuiltIn);
    assert!(built_in.contains("/help"));
    assert!(built_in.contains("/clear"));
    assert!(built_in.contains("/models"));
    assert!(built_in.contains("/exit"));

    let mut git = String::new();
    append_help_section(&mut git, "Git Commands", CommandGroup::Git);
    assert!(git.contains("/commit-and-push"));
}

#[test]
fn parse_provider_choice_accepts_known_options() {
    assert!(matches!(parse_provider_choice("1"), Some(ProviderType::Xai)));
    assert!(matches!(parse_provider_choice(" 2 "), Some(ProviderType::OpenAiCompatible)));
    assert!(parse_provider_choice("x").is_none());
}

#[test]
fn prompt_with_default_uses_default_for_blank_input() {
    let value = prompt_with_default_answer("Base URL", "https://api.x.ai/v1", "\n").expect("prompt value");
    assert_eq!(value, "https://api.x.ai/v1");
    let rendered = prompt_with_default_text("Base URL", "https://api.x.ai/v1");
    assert!(rendered.contains("Base URL [https://api.x.ai/v1]: "));
}

#[test]
fn prompt_with_default_returns_trimmed_input_when_provided() {
    let value = prompt_with_default_answer("Provider id", "xai", "  custom-value  \n").expect("value");
    assert_eq!(value, "custom-value");
}

#[test]
fn prompt_with_default_errors_when_both_input_and_default_are_empty() {
    let err = prompt_with_default_answer("Provider id", "", "\n").expect_err("expected empty default error");
    assert!(err.contains("cannot be empty"));
}

#[test]
fn parses_markdown_image_paths() {
    let text = "Review this ![shot](./screens/error.png) please";
    let paths = extract_markdown_image_candidates(text);
    assert_eq!(paths, vec!["./screens/error.png"]);
}

#[test]
fn decodes_file_url() {
    assert_eq!(maybe_decode_file_url("file:///C:/tmp/test%20image.png").as_deref(), Some("C:/tmp/test image.png"));
}

#[test]
fn percent_decode_keeps_plain_text() {
    assert_eq!(percent_decode("hello_world"), "hello_world");
}

#[test]
fn normalize_session_name_sanitizes_and_rejects_empty_values() {
    assert_eq!(normalize_session_name(Some("  my/session:name  ")), Some("my-session-name".to_string()));
    assert_eq!(normalize_session_name(Some("keep_me-123")), Some("keep_me-123".to_string()));
    assert_eq!(normalize_session_name(Some("   ")), None);
    assert_eq!(normalize_session_name(Some("---")), None);
    assert_eq!(normalize_session_name(None), None);
}

#[test]
fn load_session_fails_for_missing_session() {
    let name = session_name_for_load("does-not-exist").expect("name");
    let err = SessionLoadError::NotFound(name);
    assert!(err.message().contains("Session not found"));
}

#[test]
fn load_session_rejects_unsupported_version() {
    let err = check_session_version(99, "bad").expect_err("must fail");
    assert!(err.message().contains("Unsupported session file version"));
    assert!(check_session_version(1, "good").is_ok());
    assert_eq!(session_name_for_load("  "), Err(SessionLoadError::EmptyName));
}

#[test]
fn default_tools_have_unique_names() {
    let tools = default_tools();
    let mut seen = HashSet::new();
    for tool in tools {
        assert!(seen.insert(tool.function.name.clone()), "duplicate tool name: {}", tool.function.name);
    }
}

fn member<'a>(j: &'a Json, key: &str) -> Option<&'a Json> {
    match j {
        Json::Object(fields) => fields.iter().find(|(k, _)| k == key).map(|(_, v)| v),
        _ => None,
    }
}

fn text(j: Option<&Json>) -> Option<&str> {
    match j {
        Some(Json::Str(s)) => Some(s.as_str()),
        _ => None,
    }
}

#[test]
fn tool_schemas_describe_each_argument() {
    let tools = default_tools();
    let view = &tools[0].function.parameters;
    let props = member(view, "properties").unwrap();
    assert_eq!(text(member(member(props, "start_line").unwrap(), "type")), Some("number"));
    assert_eq!(text(member(member(props, "path").unwrap(), "description")), Some("Path to file or directory"));
    let edit = member(&tools[2].function.parameters, "properties").unwrap();
    assert_eq!(text(member(member(edit, "replace_all").unwrap(), "type")), Some("boolean"));
    let search = member(&tools[4].function.parameters, "properties").unwrap();
    let mode = member(search, "search_type").unwrap();
    match member(mode, "enum") {
        Some(Json::Array(values)) => {
            let names: Vec<&str> = values.iter().filter_map(|v| text(Some(v))).collect();
            assert_eq!(names, vec!["text", "files", "both"]);
        }
        _ => panic!("search_type has no enum"),
    }
    let file_types = member(search, "file_types").unwrap();
    assert_eq!(text(member(member(file_types, "items").unwrap(), "type")), Some("string"));
    let todos = member(member(&tools[5].function.parameters, "properties").unwrap(), "todos").unwrap();
    let item = member(todos, "items").unwrap();
    let status = member(member(item, "properties").unwrap(), "status").unwrap();
    assert_eq!(text(member(status, "type")), Some("string"));
}

#[test]
fn confirmation_mapping_matches_expected_tools() {
    assert_eq!(confirmation_operation_for_tool(TOOL_CREATE_FILE), Some(ConfirmationOperation::File));
    assert_eq!(confirmation_operation_for_tool(TOOL_STR_REPLACE_EDITOR), Some(ConfirmationOperation::File));
    assert_eq!(confirmation_operation_for_tool(TOOL_BASH), Some(ConfirmationOperation::Bash));
    assert_eq!(confirmation_operation_for_tool(TOOL_VIEW_FILE), None);
}

#[test]
fn display_names_defined_for_core_tools() {
    assert_eq!(tool_display_name(TOOL_VIEW_FILE), "Read");
    assert_eq!(tool_display_name(TOOL_CREATE_FILE), "Create");
    assert_eq!(tool_display_name(TOOL_STR_REPLACE_EDITOR), "Update");
    assert_eq!(tool_display_name(TOOL_BASH), "Bash");
    assert_eq!(tool_display_name(TOOL_SEARCH), "Search");
    assert_eq!(tool_display_name(TOOL_CREATE_TODO_LIST), "TodoCreate");
    assert_eq!(tool_display_name(TOOL_UPDATE_TODO_LIST), "TodoUpdate");
}

#[test]
fn content_for_model_prefers_output_for_success() {
    let result = ToolResult::ok("all good");
    assert_eq!(result.content_for_model(), "all good");
}

#[test]
fn content_for_model_prefers_error_for_failure() {
    let result = ToolResult::err("failed");
    assert_eq!(result.content_for_model(), "failed");
}

#[test]
fn tool_result_from_error_uses_display_chain() {
    let result = tool_result_from_error("top-level failure");
    assert!(!result.success);
    let message = result.error.expect("error should exist");
    assert!(message.contains("top-level failure"));
}

#[test]
fn normalize_file_path_trims_leading_dot_slash() {
    assert_eq!(normalize_file_path("./src/main.rs"), "src/main.rs");
    assert_eq!(normalize_file_path("src/lib.rs"), "src/lib.rs");
}

#[test]
fn calculate_file_score_prioritizes_exact_and_substring_matches() {
    assert!(calculate_file_score("main.rs", "src/main.rs", "main.rs") >= 100);
    assert!(
        calculate_file_score("search_tool.rs", "src/tools/search_tool.rs", "search")
            > calculate_file_score("tooling.rs", "src/tooling.rs", "search")
    );
}

#[test]
fn format_search_results_deduplicates_and_limits_output() {
    let text_results = vec![
        SearchTextResult { file: "src/a.rs".to_string() },
        SearchTextResult { file: "src/a.rs".to_string() },
        SearchTextResult { file: "src/b.rs".to_string() },
    ];
    let file_results = vec![
        FileSearchResult { path: "src/c.rs".to_string(), score: 10 },
        FileSearchResult { path: "src/a.rs".to_string(), score: 10 },
    ];
    let output = format_search_results("abc", &text_results, &file_results);
    assert!(output.contains("Search results for \"abc\":"));
    assert!(output.contains("src/a.rs (2 matches)"));
    assert!(output.contains("src/b.rs (1 matches)"));
    assert!(output.contains("src/c.rs"));
}

#[test]
fn execute_search_rejects_empty_query() {
    let result = plan_search("   ", None, None).err().expect("blank query is refused");
    assert!(!result.success);
    assert_eq!(result.error.as_deref(), Some("Missing or empty 'query' argument"));
}

#[test]
fn execute_search_rejects_invalid_search_type() {
    let result = plan_search("hello", Some("unsupported"), None).err().expect("unknown type is refused");
    assert!(!result.success);
    assert!(result.error.as_deref().is_some_and(|msg| msg.contains("Invalid search_type")));
    let plan = plan_search(" hello ", Some("TEXT"), Some(500)).ok().expect("valid plan");
    assert_eq!(plan.query, "hello");
    assert!(plan.search_text && !plan.search_files);
    assert_eq!(plan.max_results, 200);
}

#[test]
fn view_file_returns_limited_preview_with_line_numbers() {
    let content = (1..=12).map(|n| format!("line-{n}")).collect::<Vec<_>>().join("\n");
    let result = execute_view_file("notes.txt", &content, None, None);
    assert!(result.success);
    let output = result.output.expect("output");
    assert!(output.contains("Contents of notes.txt:"));
    assert!(output.contains("1: line-1"));
    assert!(output.contains("10: line-10"));
    assert!(output.contains("... +2 lines"));
}

#[test]
fn view_file_rejects_invalid_line_ranges() {
    let result = execute_view_file("notes.txt", "a\nb\nc", Some(0), Some(1));
    assert!(!result.success);
    assert_eq!(result.error.as_deref(), Some("Invalid line range"));
}

#[test]
fn create_file_writes_content_and_returns_diff() {
    let result = execute_create_file("src/new.txt", "hello\nworld\n");
    assert!(result.success);
    let output = result.output.expect("output");
    assert!(output.contains("Created src/new.txt"));
    assert!(output.contains("+++ b/src/new.txt"));
    assert!(output.contains("+hello"));
}

#[test]
fn str_replace_editor_replaces_first_or_all_matches() {
    let first = execute_str_replace_editor("doc.txt", "foo foo foo", "foo", "bar", false);
    assert!(first.result.success);
    let after_first = first.updated.expect("first replaced");
    assert_eq!(after_first, "bar foo foo");
    let all = execute_str_replace_editor("doc.txt", &after_first, "foo", "baz", true);
    assert!(all.result.success);
    assert_eq!(all.updated.as_deref(), Some("bar baz baz"));
    let output = all.result.output.expect("diff");
    assert!(output.contains("-bar foo foo"));
    assert!(output.contains("+bar baz baz"));
}

#[test]
fn str_replace_editor_errors_when_old_string_missing() {
    let result = execute_str_replace_editor("doc.txt", "hello", "missing", "x", false);
    assert!(result.updated.is_none());
    assert!(!result.result.success);
    assert!(result.result.error.as_deref().is_some_and(|msg| msg.contains("String not found in file")));
}

#[test]
fn search_files_ranks_by_score_then_path_and_limits() {
    let candidates = vec![
        ("search_tool.rs".to_string(), "src/tools/search_tool.rs".to_string()),
        ("main.rs".to_string(), "src/main.rs".to_string()),
        ("search.rs".to_string(), "b/search.rs".to_string()),
        ("search.rs".to_string(), "a/search.rs".to_string()),
        ("zzz.txt".to_string(), "docs/zzz.txt".to_string()),
    ];
    let ranked = rank_file_results(candidates.clone(), "search.rs", 10);
    let paths: Vec<&str> = ranked.iter().map(|r| r.path.as_str()).collect();
    assert_eq!(paths, vec!["a/search.rs", "b/search.rs", "src/tools/search_tool.rs"]);
    assert_eq!(ranked[0].score, 100);
    let top = rank_file_results(candidates, "search.rs", 1);
    assert_eq!(top.len(), 1);
    assert_eq!(top[0].path, "a/search.rs");
}
