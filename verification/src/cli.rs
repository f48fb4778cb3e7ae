//! The command line: its options and subcommands as plain values, and how the
//! start-up settings are chosen from them. Parsing the arguments is the
//! caller's part.
use vstd::prelude::*;

use crate::protocol::{opt_view, owned};
use crate::settings::{ApiKeySaveLocation, ApiKeyStorageMode};
use crate::text::{chars_of, push_str, string_from_chars};

verus! {

/// The command line's options.
#[derive(Debug)]
pub struct Cli {
    pub directory: Option<String>,
    pub api_key: Option<String>,
    pub api_key_storage: Option<ApiKeyStorageArg>,
    pub base_url: Option<String>,
    pub model: Option<String>,
    pub prompt: Option<String>,
    pub max_tool_rounds: usize,
    pub command: Option<Commands>,
    pub message: Vec<String>,
}

/// The subcommands.
#[derive(Debug)]
pub enum Commands {
    Git { command: GitCommands },
}

/// The git subcommands.
#[derive(Debug, Clone, Copy, PartialEq, Eq, Structural)]
pub enum GitCommands {
    CommitAndPush,
}

/// The values of `--api-key-storage`.
#[derive(Debug, Clone, Copy, PartialEq, Eq, Structural)]
pub enum ApiKeyStorageArg {
    Keychain,
    Plaintext,
}

/// The number of tool rounds allowed unless `--max-tool-rounds` says otherwise.
pub const DEFAULT_MAX_TOOL_ROUNDS: usize = 400;

/// The storage mode an `--api-key-storage` value asks for.
pub fn storage_mode_for(arg: ApiKeyStorageArg) -> (r: ApiKeyStorageMode)
    ensures
        r == (match arg {
            ApiKeyStorageArg::Keychain => ApiKeyStorageMode::Keychain,
            ApiKeyStorageArg::Plaintext => ApiKeyStorageMode::Plaintext,
        }),
{
    match arg {
        ApiKeyStorageArg::Keychain => ApiKeyStorageMode::Keychain,
        ApiKeyStorageArg::Plaintext => ApiKeyStorageMode::Plaintext,
    }
}

/// What the user is told about where a new API key was saved.
pub fn save_location_message(location: ApiKeySaveLocation) -> (r: &'static str)
    ensures
        r@ == (match location {
            ApiKeySaveLocation::Keychain => "Saved API key to secure OS keychain."@,
            ApiKeySaveLocation::SessionOnly => "Keychain unavailable: API key kept in memory for this session only; it will be asked for again next launch."@,
            ApiKeySaveLocation::Plaintext => "Saved API key to ~/.grok/user-settings.json (plaintext mode)."@,
        }),
{
    match location {
        ApiKeySaveLocation::Keychain => "Saved API key to secure OS keychain.",
        ApiKeySaveLocation::SessionOnly => "Keychain unavailable: API key kept in memory for this session only; it will be asked for again next launch.",
        ApiKeySaveLocation::Plaintext => "Saved API key to ~/.grok/user-settings.json (plaintext mode).",
    }
}

/// The error when no API key is found anywhere.
pub open spec fn missing_api_key_message() -> Seq<char> {
    "API key required. Set GROK_API_KEY/XAI_API_KEY/OPENAI_API_KEY, use --api-key, or configure settings/keychain."@
}

/// The API key to start with: the one given on the command line, else the
/// configured one; an error when there is neither.
pub fn startup_api_key(cli_key: Option<String>, settings_key: Option<String>) -> (r: Result<String, String>)
    ensures
        match cli_key {
            Some(k) => r == Ok::<String, String>(k),
            None => match settings_key {
                Some(k) => r == Ok::<String, String>(k),
                None => r matches Err(e) && e@ == missing_api_key_message(),
            },
        },
{
    match cli_key {
        Some(k) => Ok(k),
        None => match settings_key {
            Some(k) => Ok(k),
            None => Err(owned("API key required. Set GROK_API_KEY/XAI_API_KEY/OPENAI_API_KEY, use --api-key, or configure settings/keychain.")),
        },
    }
}

/// The model to start with: the command line's, else `GROK_MODEL`, else the
/// configured one.
pub fn startup_model(cli_model: Option<String>, env_model: Option<String>, settings_model: String) -> (r: String)
    ensures
        r == (match cli_model {
            Some(m) => m,
            None => match env_model {
                Some(m) => m,
                None => settings_model,
            },
        }),
{
    match cli_model {
        Some(m) => m,
        None => match env_model {
            Some(m) => m,
            None => settings_model,
        },
    }
}

/// The first message of an interactive session: the words given on the
/// command line joined by spaces, or none.
pub open spec fn joined_words(words: Seq<Seq<char>>) -> Seq<char>
    decreases words.len(),
{
    if words.len() == 0 {
        Seq::empty()
    } else if words.len() == 1 {
        words[0]
    } else {
        joined_words(words.drop_last()) + seq![' '] + words.last()
    }
}

/// The first message of an interactive session (see `joined_words`).
pub fn initial_message(message: &Vec<String>) -> (r: Option<String>)
    ensures
        message@.len() == 0 ==> r is None,
        message@.len() > 0 ==> opt_view(r) == Some(joined_words(crate::order::texts(message@))),
{
    if message.len() == 0 {
        return None;
    }
    let ghost ws = crate::order::texts(message@);
    let mut out = chars_of(message[0].as_str());
    let mut i: usize = 1;
    assert(ws.take(1) =~= seq![ws[0]]);
    while i < message.len()
        invariant
            1 <= i <= message.len(),
            ws == crate::order::texts(message@),
            out@ == joined_words(ws.take(i as int)),
        decreases message.len() - i,
    {
        out.push(' ');
        push_str(&mut out, message[i].as_str());
        assert(ws.take(i + 1).drop_last() =~= ws.take(i as int));
        i += 1;
    }
    assert(ws.take(message.len() as int) =~= ws);
    Some(string_from_chars(out.as_slice()))
}

/// The first line of a text as `str::lines` gives it (empty when it has none).
pub open spec fn first_line_spec(text: Seq<char>) -> Seq<char> {
    let ls = crate::tools::file_ops::lines_of(text);
    if ls.len() == 0 {
        Seq::empty()
    } else {
        ls[0]
    }
}

/// The first line of a command's output (empty when there is none).
pub fn first_line(text: &str) -> (r: String)
    ensures
        r@ == first_line_spec(text@),
{
    let lines = crate::tools::file_ops::split_lines(text);
    if lines.len() == 0 {
        String::new()
    } else {
        lines[0].clone()
    }
}

} // verus!
