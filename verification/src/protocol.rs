//! Chat messages and the shapes of model responses.
use vstd::prelude::*;

use crate::text::{chars_of, string_from_chars};

verus! {

/// The function part of a tool call made by the model.
#[derive(Debug, Clone)]
pub struct ChatToolCallFunction {
    pub name: String,
    pub arguments: String,
}

/// A tool call made by the model.
#[derive(Debug, Clone)]
pub struct ChatToolCall {
    pub id: String,
    pub call_type: String,
    pub function: ChatToolCallFunction,
}

/// An image sent along with a user message.
#[derive(Debug, Clone)]
pub struct ChatImageAttachment {
    pub filename: String,
    pub mime_type: String,
    pub data_url: String,
}

/// One message of a conversation.
#[derive(Debug, Clone)]
pub struct ChatMessage {
    pub role: String,
    pub content: Option<String>,
    pub attachments: Option<Vec<ChatImageAttachment>>,
    pub tool_calls: Option<Vec<ChatToolCall>>,
    pub tool_call_id: Option<String>,
}

/// The view of an optional string.
pub open spec fn opt_view(s: Option<String>) -> Option<Seq<char>> {
    match s {
        Some(v) => Some(v@),
        None => None,
    }
}

/// A copy of `s` as an owned string.
pub fn owned(s: &str) -> (r: String)
    ensures
        r@ == s@,
{
    let cs = chars_of(s);
    string_from_chars(cs.as_slice())
}

impl ChatMessage {
    /// A system message with the given content.
    pub fn system(content: &str) -> (m: ChatMessage)
        ensures
            m.role@ == "system"@,
            opt_view(m.content) == Some(content@),
            m.attachments is None,
            m.tool_calls is None,
            m.tool_call_id is None,
    {
        ChatMessage {
            role: owned("system"),
            content: Some(owned(content)),
            attachments: None,
            tool_calls: None,
            tool_call_id: None,
        }
    }

    /// A user message with the given content.
    pub fn user(content: &str) -> (m: ChatMessage)
        ensures
            m.role@ == "user"@,
            opt_view(m.content) == Some(content@),
            m.attachments is None,
            m.tool_calls is None,
            m.tool_call_id is None,
    {
        ChatMessage {
            role: owned("user"),
            content: Some(owned(content)),
            attachments: None,
            tool_calls: None,
            tool_call_id: None,
        }
    }

    /// A user message with images; an empty image list is left out.
    pub fn user_with_attachments(content: &str, attachments: Vec<ChatImageAttachment>) -> (m:
        ChatMessage)
        ensures
            m.role@ == "user"@,
            opt_view(m.content) == Some(content@),
            attachments@.len() == 0 ==> m.attachments is None,
            attachments@.len() > 0 ==> m.attachments == Some(attachments),
            m.tool_calls is None,
            m.tool_call_id is None,
    {
        ChatMessage {
            role: owned("user"),
            content: Some(owned(content)),
            attachments: if attachments.len() == 0 {
                None
            } else {
                Some(attachments)
            },
            tool_calls: None,
            tool_call_id: None,
        }
    }

    /// An assistant message, with the tool calls it made if any.
    pub fn assistant(content: &str, tool_calls: Option<Vec<ChatToolCall>>) -> (m: ChatMessage)
        ensures
            m.role@ == "assistant"@,
            opt_view(m.content) == Some(content@),
            m.attachments is None,
            m.tool_calls == tool_calls,
            m.tool_call_id is None,
    {
        ChatMessage {
            role: owned("assistant"),
            content: Some(owned(content)),
            attachments: None,
            tool_calls,
            tool_call_id: None,
        }
    }

    /// The result of a tool call, answering the call with id `tool_call_id`.
    pub fn tool(tool_call_id: &str, content: &str) -> (m: ChatMessage)
        ensures
            m.role@ == "tool"@,
            opt_view(m.content) == Some(content@),
            m.attachments is None,
            m.tool_calls is None,
            opt_view(m.tool_call_id) == Some(tool_call_id@),
    {
        ChatMessage {
            role: owned("tool"),
            content: Some(owned(content)),
            attachments: None,
            tool_calls: None,
            tool_call_id: Some(owned(tool_call_id)),
        }
    }
}

/// The message of a non-streamed completion.
#[derive(Debug, Clone)]
pub struct ChatCompletionMessage {
    pub content: Option<String>,
    pub tool_calls: Option<Vec<ChatToolCall>>,
}

/// One choice of a non-streamed completion.
#[derive(Debug, Clone)]
pub struct ChatChoice {
    pub message: ChatCompletionMessage,
}

/// A non-streamed completion.
#[derive(Debug, Clone)]
pub struct ChatCompletionResponse {
    pub choices: Vec<ChatChoice>,
}

/// A streamed fragment of a tool call's function.
#[derive(Debug, Clone)]
pub struct ChatCompletionToolCallFunctionDelta {
    pub name: Option<String>,
    pub arguments: Option<String>,
}

/// A streamed fragment of one tool call, addressed by its index.
#[derive(Debug, Clone)]
pub struct ChatCompletionToolCallDelta {
    pub index: usize,
    pub id: Option<String>,
    pub _type: Option<String>,
    pub function: Option<ChatCompletionToolCallFunctionDelta>,
}

/// The delta of one streamed choice.
#[derive(Debug, Clone)]
pub struct ChatCompletionStreamDelta {
    pub content: Option<String>,
    pub tool_calls: Option<Vec<ChatCompletionToolCallDelta>>,
}

/// One streamed choice.
#[derive(Debug, Clone)]
pub struct ChatCompletionStreamChoice {
    pub delta: ChatCompletionStreamDelta,
}

/// One streamed chunk of a completion.
#[derive(Debug, Clone)]
pub struct ChatCompletionStreamChunk {
    pub choices: Vec<ChatCompletionStreamChoice>,
}

/// The function a tool offers: its name, what it does and the JSON schema of
/// its arguments.
#[derive(Debug)]
pub struct ChatToolFunction {
    pub name: String,
    pub description: String,
    pub parameters: crate::responses_adapter::Json,
}

/// A tool offered to the model (its type is `function`).
#[derive(Debug)]
pub struct ChatTool {
    pub tool_type: String,
    pub function: ChatToolFunction,
}

} // verus!
