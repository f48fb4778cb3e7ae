//! First-run setup: the questions asked, how an answer is read, and the
//! defaults offered for each kind of provider. The terminal is the caller's part.
use vstd::prelude::*;

use crate::protocol::owned;
use crate::text::{chars_of, eq_str, push_str, string_from_chars, trim, trim_chars};

verus! {

/// The kind of provider being set up.
#[derive(Debug, Clone, Copy, PartialEq, Eq, Structural)]
pub enum ProviderType {
    Xai,
    OpenAiCompatible,
}

/// The provider kind chosen by a menu answer: `1` for xAI, `2` for an
/// OpenAI-compatible provider, white space around them ignored.
pub fn parse_provider_choice(selection: &str) -> (r: Option<ProviderType>)
    ensures
        r == (if trim(selection@) == "1"@ {
            Some(ProviderType::Xai)
        } else if trim(selection@) == "2"@ {
            Some(ProviderType::OpenAiCompatible)
        } else {
            None
        }),
{
    let cs = chars_of(selection);
    let t = trim_chars(cs.as_slice());
    if eq_str(t.as_slice(), "1") {
        Some(ProviderType::Xai)
    } else if eq_str(t.as_slice(), "2") {
        Some(ProviderType::OpenAiCompatible)
    } else {
        None
    }
}

/// The question shown for a value with a default: `{prompt} [{default}]: `.
pub fn prompt_with_default_text(prompt: &str, default: &str) -> (r: String)
    ensures
        r@ == prompt@ + " ["@ + default@ + "]: "@,
{
    let mut out = chars_of(prompt);
    push_str(&mut out, " [");
    push_str(&mut out, default);
    push_str(&mut out, "]: ");
    string_from_chars(out.as_slice())
}

/// The value an answer gives: the trimmed answer, or the default when the
/// answer is blank; an error naming the prompt when both are blank.
pub open spec fn answer_spec(prompt: Seq<char>, default: Seq<char>, raw: Seq<char>) -> Result<
    Seq<char>,
    Seq<char>,
> {
    if trim(raw).len() > 0 {
        Ok(trim(raw))
    } else if trim(default).len() == 0 {
        Err(prompt + " cannot be empty"@)
    } else {
        Ok(default)
    }
}

/// The value an answer line gives (see `answer_spec`).
pub fn prompt_with_default_answer(prompt: &str, default: &str, raw: &str) -> (r: Result<String, String>)
    ensures
        match r {
            Ok(v) => answer_spec(prompt@, default@, raw@) == Ok::<Seq<char>, Seq<char>>(v@),
            Err(e) => answer_spec(prompt@, default@, raw@) == Err::<Seq<char>, Seq<char>>(e@),
        },
{
    let cs = chars_of(raw);
    let value = trim_chars(cs.as_slice());
    if value.len() > 0 {
        return Ok(string_from_chars(value.as_slice()));
    }
    let ds = chars_of(default);
    let d = trim_chars(ds.as_slice());
    if d.len() == 0 {
        let mut msg = chars_of(prompt);
        push_str(&mut msg, " cannot be empty");
        return Err(string_from_chars(msg.as_slice()));
    }
    Ok(owned(default))
}

/// The provider id offered for a kind of provider.
pub fn default_provider_id(kind: ProviderType) -> (r: &'static str)
    ensures
        r@ == (match kind {
            ProviderType::Xai => "xai"@,
            ProviderType::OpenAiCompatible => "openai"@,
        }),
{
    match kind {
        ProviderType::Xai => "xai",
        ProviderType::OpenAiCompatible => "openai",
    }
}

/// The base URL offered for a kind of provider.
pub fn default_base_url_for(kind: ProviderType) -> (r: &'static str)
    ensures
        r@ == (match kind {
            ProviderType::Xai => crate::provider::XAI_DEFAULT_BASE_URL@,
            ProviderType::OpenAiCompatible => "https://api.openai.com/v1"@,
        }),
{
    match kind {
        ProviderType::Xai => crate::provider::XAI_DEFAULT_BASE_URL,
        ProviderType::OpenAiCompatible => "https://api.openai.com/v1",
    }
}

/// Whether an entered API key is accepted: it must not be blank.
pub fn api_key_entry_accepted(value: &str) -> (r: bool)
    ensures
        r == (trim(value@).len() > 0),
{
    let cs = chars_of(value);
    trim_chars(cs.as_slice()).len() > 0
}

} // verus!
