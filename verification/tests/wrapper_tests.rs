use grok_build::tools::bash_tool::bash_preflight;
use grok_build::agent::ToolCallSummary;
use grok_build::agent_policy::{search_mode_for, should_use_search_for, SearchMode};
use grok_build::image_input::{is_supported_image_path, prepare_attachment};
use grok_build::inline_feedback::{tool_label, tool_target};
use grok_build::tool_context::ToolContext;
use grok_build::ui::markdown::{render_code_line, MarkdownStreamRenderer, Span, SpanStyle};

fn call(name: &str, arguments: &str) -> ToolCallSummary {
    ToolCallSummary { id: "call_1".to_string(), name: name.to_string(), arguments: arguments.to_string() }
}

fn views(spans: &[Span]) -> Vec<(SpanStyle, String)> {
    spans.iter().map(|s| (s.style, s.text.clone())).collect()
}

#[test]
fn recency_words_are_found_in_any_case() {
    assert!(should_use_search_for("Show me the LATEST release"));
    assert!(should_use_search_for("TODAY"));
    assert!(!should_use_search_for("Refactor the parser"));
    assert!(matches!(search_mode_for("Any Trending repos?"), SearchMode::Auto));
}

#[test]
fn image_attachment_carries_a_base64_data_url() {
    let attachment = prepare_attachment("shot.PNG", b"hi").expect("small image");
    assert_eq!(attachment.display_path, "shot.PNG");
    assert_eq!(attachment.size_bytes, 2);
    assert_eq!(attachment.chat_attachment.mime_type, "image/png");
    assert_eq!(attachment.chat_attachment.data_url, "data:image/png;base64,aGk=");

    let other = prepare_attachment("notes.bin", b"abc").expect("small file");
    assert_eq!(other.chat_attachment.data_url, "data:application/octet-stream;base64,YWJj");
}

#[test]
fn oversized_image_is_refused_with_a_warning() {
    let bytes = vec![0u8; 5 * 1024 * 1024 + 1];
    assert_eq!(
        prepare_attachment("big.png", &bytes).err().as_deref(),
        Some("Skipping image 'big.png': file is larger than 5 MB")
    );
    assert!(prepare_attachment("edge.png", &bytes[..5 * 1024 * 1024]).is_ok());
}

#[test]
fn image_paths_are_recognised_by_extension() {
    assert!(is_supported_image_path("/tmp/photo.jpeg"));
    assert!(is_supported_image_path("diagram.WEBP"));
    assert!(!is_supported_image_path("notes.txt"));
    assert!(!is_supported_image_path("README"));
}

#[test]
fn tool_label_shows_path_or_command() {
    assert_eq!(tool_label(&call("view_file", r#"{"path":"src/main.rs"}"#)), "Read(src/main.rs)");
    assert_eq!(tool_label(&call("bash", r#"{"command":"ls -la"}"#)), "Bash(ls -la)");
    assert_eq!(tool_target(&call("create_file", r#"{"path":"a.txt","command":"x"}"#)), "a.txt");
    assert_eq!(tool_label(&call("mystery", "not json")), "Tool()");
}

#[test]
fn code_line_words_include_non_ascii_letters() {
    let line: Vec<char> = "let éa = 42;".chars().collect();
    let mut out = Vec::new();
    render_code_line(&line, "rust", &mut out);
    let expected: Vec<(SpanStyle, String)> = vec![
        (SpanStyle::CyanBold, "let".to_string()),
        (SpanStyle::DarkCyan, " ".to_string()),
        (SpanStyle::DarkCyan, "éa".to_string()),
        (SpanStyle::DarkCyan, " ".to_string()),
        (SpanStyle::DarkCyan, "=".to_string()),
        (SpanStyle::DarkCyan, " ".to_string()),
        (SpanStyle::DarkYellow, "42".to_string()),
        (SpanStyle::DarkCyan, ";".to_string()),
    ];
    assert_eq!(views(&out), expected);
}

#[test]
fn code_fence_language_is_matched_in_any_case() {
    let mut renderer = MarkdownStreamRenderer::new();
    let spans = renderer.stream_markdown_chunk("```RUST\nfn main\n");
    assert!(spans.iter().any(|s| s.text == "fn" && s.style == SpanStyle::CyanBold));
}

#[test]
fn relative_paths_resolve_under_the_current_directory() {
    let mut context = ToolContext::new();
    assert_eq!(context.resolve_path("a.txt").err().as_deref(), Some("Tool context not initialized"));
    context.initialize("/tmp/project".to_string());
    assert_eq!(context.resolve_path("src/a.rs").ok().as_deref(), Some("/tmp/project/src/a.rs"));
    assert_eq!(context.resolve_path("/tmp/project/docs").ok().as_deref(), Some("/tmp/project/docs"));
    assert_eq!(
        context.resolve_path("/etc/hosts").err().as_deref(),
        Some("Path is outside the project root: /etc/hosts")
    );
    assert_eq!(
        context.resolve_path("../other/x").err().as_deref(),
        Some("Path is outside the project root: /tmp/other/x")
    );
    assert!(context.resolve_path("/tmp/project-other/a").is_err());
}

#[test]
fn paths_are_resolved_before_the_root_check() {
    let mut context = ToolContext::new();
    context.initialize("/tmp/project".to_string());
    assert_eq!(context.resolve_path("sub/../a.txt").ok().as_deref(), Some("/tmp/project/a.txt"));
    assert_eq!(context.resolve_path("./src//b.rs").ok().as_deref(), Some("/tmp/project/src/b.rs"));
    assert_eq!(context.resolve_path("../project/c.rs").ok().as_deref(), Some("/tmp/project/c.rs"));
    assert_eq!(
        context.resolve_path("..").err().as_deref(),
        Some("Path is outside the project root: /tmp")
    );
    assert_eq!(
        context.resolve_path("/tmp/project/../../etc/passwd").err().as_deref(),
        Some("Path is outside the project root: /etc/passwd")
    );
    assert_eq!(context.candidate_dir("..").ok().as_deref(), Some("/tmp"));
    assert_eq!(context.candidate_dir("src/").ok().as_deref(), Some("/tmp/project/src"));
}

#[test]
fn drive_paths_keep_their_separator() {
    let mut context = ToolContext::new();
    context.initialize("C:\\proj".to_string());
    assert_eq!(context.resolve_path("src\\a.rs").ok().as_deref(), Some("C:\\proj\\src\\a.rs"));
    assert_eq!(context.resolve_path("C:\\proj\\b.rs").ok().as_deref(), Some("C:\\proj\\b.rs"));
    assert!(context.resolve_path("D:\\other").is_err());
}

#[test]
fn working_directory_stays_inside_the_root() {
    let mut context = ToolContext::new();
    context.initialize("/tmp/project".to_string());
    assert_eq!(context.candidate_dir("/").ok().as_deref(), Some("/"));
    assert_eq!(
        context.enter_dir("/".to_string()).err().as_deref(),
        Some("Path is outside the project root: /")
    );
    assert_eq!(context.current_dir().ok().as_deref(), Some("/tmp/project"));
    assert!(context.enter_dir("/tmp/project/src".to_string()).is_ok());
    assert_eq!(context.current_dir().ok().as_deref(), Some("/tmp/project/src"));
    assert!(context.confine("/tmp/project").is_ok());
}

#[test]
fn shell_preflight_keeps_paths_inside_the_root() {
    let root = "/tmp/project";
    assert!(bash_preflight(root, "ls -la src").is_ok());
    assert!(bash_preflight(root, "cat /tmp/project/README.md").is_ok());
    assert!(bash_preflight(root, r#"git commit -m "fix: parser""#).is_ok());
    assert_eq!(
        bash_preflight(root, "cat /etc/passwd").err().as_deref(),
        Some("Command blocked: path is outside the project root (/etc/passwd)")
    );
    assert_eq!(
        bash_preflight(root, "echo hi >/tmp/out.txt").err().as_deref(),
        Some("Command blocked: path is outside the project root (>/tmp/out.txt)")
    );
    assert_eq!(
        bash_preflight(root, "ls ../other").err().as_deref(),
        Some("Command blocked: path is outside the project root (../other)")
    );
    assert_eq!(
        bash_preflight(root, "cat ~/.ssh/id_rsa").err().as_deref(),
        Some("Command blocked: dynamic path expansion is not allowed (~/.ssh/id_rsa)")
    );
    assert!(bash_preflight(root, "ls $HOME/x").is_err());
    assert!(bash_preflight(root, "echo $(pwd)").is_err());
    assert!(bash_preflight(root, "echo `pwd`").is_err());
    assert!(bash_preflight(root, r"type %USERPROFILE%\secret").is_err());
    assert!(bash_preflight(root, "echo $HOME").is_ok());
}
