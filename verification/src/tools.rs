//! Results of tool calls and the pure parts of the built-in tools.
use vstd::prelude::*;

use crate::protocol::owned;

pub mod arguments;
pub mod bash_tool;
pub mod file_ops;
pub mod search_tool;
pub mod todos;

verus! {

/// The outcome of one tool call.
#[derive(Debug, Clone)]
pub struct ToolResult {
    pub success: bool,
    pub output: Option<String>,
    pub error: Option<String>,
}

/// The text a result reports to the model: the output of a success (or
/// `Success`), the error of a failure (or `Error`).
pub open spec fn content_spec(r: ToolResult) -> Seq<char> {
    if r.success {
        match r.output {
            Some(o) => o@,
            None => "Success"@,
        }
    } else {
        match r.error {
            Some(e) => e@,
            None => "Error"@,
        }
    }
}

/// `r` is a success carrying `out`.
pub open spec fn is_ok_with(r: ToolResult, out: Seq<char>) -> bool {
    r.success && r.error is None && (match r.output {
        Some(o) => o@ == out,
        None => false,
    })
}

/// `r` is a failure carrying `err`.
pub open spec fn is_err_with(r: ToolResult, err: Seq<char>) -> bool {
    !r.success && r.output is None && (match r.error {
        Some(e) => e@ == err,
        None => false,
    })
}

impl ToolResult {
    /// A success with the given output.
    pub fn ok(output: &str) -> (r: ToolResult)
        ensures
            is_ok_with(r, output@),
    {
        ToolResult { success: true, output: Some(owned(output)), error: None }
    }

    /// A failure with the given error message.
    pub fn err(error: &str) -> (r: ToolResult)
        ensures
            is_err_with(r, error@),
    {
        ToolResult { success: false, output: None, error: Some(owned(error)) }
    }

    /// The text reported to the model for this result.
    pub fn content_for_model(&self) -> (r: String)
        ensures
            r@ == content_spec(*self),
    {
        if self.success {
            match &self.output {
                Some(o) => o.clone(),
                None => owned("Success"),
            }
        } else {
            match &self.error {
                Some(e) => e.clone(),
                None => owned("Error"),
            }
        }
    }
}

/// A failed result carrying an error's message (with its chain of causes, as the
/// caller rendered it).
pub fn tool_result_from_error(message: &str) -> (r: ToolResult)
    ensures
        is_err_with(r, message@),
{
    ToolResult::err(message)
}


/// The built-in tools.
#[derive(Debug, Clone, Copy, PartialEq, Eq, Structural)]
pub enum ToolKind {
    ViewFile,
    CreateFile,
    StrReplaceEditor,
    Bash,
    Search,
    CreateTodoList,
    UpdateTodoList,
}

/// The tool a name calls, if it is a built-in one.
pub open spec fn tool_kind_spec(name: Seq<char>) -> Option<ToolKind> {
    if name == "view_file"@ {
        Some(ToolKind::ViewFile)
    } else if name == "create_file"@ {
        Some(ToolKind::CreateFile)
    } else if name == "str_replace_editor"@ {
        Some(ToolKind::StrReplaceEditor)
    } else if name == "bash"@ {
        Some(ToolKind::Bash)
    } else if name == "search"@ {
        Some(ToolKind::Search)
    } else if name == "create_todo_list"@ {
        Some(ToolKind::CreateTodoList)
    } else if name == "update_todo_list"@ {
        Some(ToolKind::UpdateTodoList)
    } else {
        None
    }
}

/// The tool a call names (see `tool_kind_spec`), or the failed result of an
/// unknown tool: `Unknown tool: <name>`.
pub fn tool_for_name(name: &str) -> (r: Result<ToolKind, ToolResult>)
    ensures
        match tool_kind_spec(name@) {
            Some(k) => r == Ok::<ToolKind, ToolResult>(k),
            None => r matches Err(e) && is_err_with(e, "Unknown tool: "@ + name@),
        },
{
    let n = crate::text::chars_of(name);
    let kind = if crate::text::eq_str(n.as_slice(), "view_file") {
        Some(ToolKind::ViewFile)
    } else if crate::text::eq_str(n.as_slice(), "create_file") {
        Some(ToolKind::CreateFile)
    } else if crate::text::eq_str(n.as_slice(), "str_replace_editor") {
        Some(ToolKind::StrReplaceEditor)
    } else if crate::text::eq_str(n.as_slice(), "bash") {
        Some(ToolKind::Bash)
    } else if crate::text::eq_str(n.as_slice(), "search") {
        Some(ToolKind::Search)
    } else if crate::text::eq_str(n.as_slice(), "create_todo_list") {
        Some(ToolKind::CreateTodoList)
    } else if crate::text::eq_str(n.as_slice(), "update_todo_list") {
        Some(ToolKind::UpdateTodoList)
    } else {
        None
    };
    match kind {
        Some(k) => Ok(k),
        None => {
            let mut t = crate::text::chars_of("Unknown tool: ");
            crate::text::push_str(&mut t, name);
            Err(ToolResult::err(crate::text::string_from_chars(t.as_slice()).as_str()))
        },
    }
}

} // verus!
