//! The terminal interface: the line editor of the prompt and the Markdown
//! renderer, as state machines and pure formatting; the terminal itself is the
//! caller's part.
pub mod markdown;
pub mod prompt;
