//! Provider detection from the configured base URL, and per-provider defaults.
use vstd::prelude::*;

use crate::text::{
    ascii_lower, chars_of, contains, contains_str, ends_with, eq_str, find_sub, find_sub_exec,
    index_of_any, index_of_any_exec, last_index_of, last_index_of_exec, lemma_find_sub,
    lemma_index_of_any, lemma_last_index_of, slice_chars, string_from_chars, to_ascii_lowercase,
    trim, trim_chars, ends_with_exec,
};

verus! {

/// The API family behind a base URL.
#[derive(Debug, Clone, Copy, PartialEq, Eq, Structural)]
pub enum ProviderKind {
    Xai,
    OpenAi,
    Compatible,
}

pub const XAI_DEFAULT_BASE_URL: &'static str = "https://api.x.ai/v1";

pub const XAI_DEFAULT_MODEL: &'static str = "grok-code-fast-1";

/// The host of a URL: the authority after an optional `scheme://`, cut at the
/// first `/`, `?` or `#`, without user info (up to the last `@`) and port,
/// trimmed and in ASCII lower case; `None` when any of these steps leaves nothing.
pub open spec fn host_of(url: Seq<char>) -> Option<Seq<char>> {
    let t = trim(url);
    if t.len() == 0 {
        None
    } else {
        let k = find_sub(t, "://"@);
        let no_scheme = if k >= 0 {
            t.skip(k + 3)
        } else {
            t
        };
        let authority = trim(no_scheme.take(index_of_any(no_scheme, seq!['/', '?', '#'])));
        if authority.len() == 0 {
            None
        } else {
            let without_auth = trim(authority.skip(last_index_of(authority, '@') + 1));
            let host = ascii_lower(trim(without_auth.take(index_of_any(without_auth, seq![':']))));
            if host.len() == 0 {
                None
            } else {
                Some(host)
            }
        }
    }
}

/// `host` is `name` or one of its subdomains (`*.suffix`).
pub open spec fn host_is(host: Seq<char>, name: Seq<char>, suffix: Seq<char>) -> bool {
    host == name || ends_with(host, suffix)
}

/// The provider a base URL belongs to: by host first, then by a plain
/// substring test on the lower-cased URL.
pub open spec fn provider_of(url: Seq<char>) -> ProviderKind {
    let by_host = match host_of(url) {
        Some(h) => if host_is(h, "api.x.ai"@, ".x.ai"@) {
            Some(ProviderKind::Xai)
        } else if host_is(h, "api.openai.com"@, ".openai.com"@) {
            Some(ProviderKind::OpenAi)
        } else {
            None
        },
        None => None,
    };
    match by_host {
        Some(p) => p,
        None => {
            let lowered = ascii_lower(trim(url));
            if contains(lowered, "api.x.ai"@) {
                ProviderKind::Xai
            } else if contains(lowered, "api.openai.com"@) {
                ProviderKind::OpenAi
            } else {
                ProviderKind::Compatible
            }
        },
    }
}

/// Extracts the host of a base URL (see `host_of`).
pub fn extract_host(base_url: &str) -> (r: Option<String>)
    ensures
        match r {
            Some(h) => host_of(base_url@) == Some(h@),
            None => host_of(base_url@) is None,
        },
{
    let raw = chars_of(base_url);
    let t = trim_chars(raw.as_slice());
    if t.len() == 0 {
        return None;
    }
    let sep = chars_of("://");
    proof {
        reveal_strlit("://");
        lemma_find_sub(t@, sep@);
    }
    let k = find_sub_exec(t.as_slice(), sep.as_slice());
    let no_scheme = match k {
        Some(k) => slice_chars(t.as_slice(), k + 3, t.len()),
        None => t,
    };
    let stops = chars_of("/?#");
    proof {
        reveal_strlit("/?#");
        assert(stops@ =~= seq!['/', '?', '#']);
        lemma_index_of_any(no_scheme@, stops@);
    }
    let cut = index_of_any_exec(no_scheme.as_slice(), stops.as_slice());
    let head = slice_chars(no_scheme.as_slice(), 0, cut);
    let authority = trim_chars(head.as_slice());
    if authority.len() == 0 {
        return None;
    }
    proof {
        lemma_last_index_of(authority@, '@');
    }
    let at = last_index_of_exec(authority.as_slice(), '@');
    let from = match at {
        Some(i) => i + 1,
        None => 0,
    };
    let after_at = slice_chars(authority.as_slice(), from, authority.len());
    let without_auth = trim_chars(after_at.as_slice());
    let colon = chars_of(":");
    proof {
        reveal_strlit(":");
        assert(colon@ =~= seq![':']);
        lemma_index_of_any(without_auth@, colon@);
    }
    let port = index_of_any_exec(without_auth.as_slice(), colon.as_slice());
    let host_part = slice_chars(without_auth.as_slice(), 0, port);
    let host_trimmed = trim_chars(host_part.as_slice());
    let host = to_ascii_lowercase(host_trimmed.as_slice());
    if host.len() == 0 {
        None
    } else {
        Some(string_from_chars(host.as_slice()))
    }
}

/// Whether `host` is `name` or ends with `suffix`.
fn host_matches(host: &[char], name: &str, suffix: &str) -> (r: bool)
    ensures
        r == host_is(host@, name@, suffix@),
{
    if eq_str(host, name) {
        return true;
    }
    let s = chars_of(suffix);
    ends_with_exec(host, s.as_slice())
}

/// Detects the provider behind a base URL (see `provider_of`).
pub fn detect_provider(base_url: &str) -> (r: ProviderKind)
    ensures
        r == provider_of(base_url@),
{
    match extract_host(base_url) {
        Some(host) => {
            let h = chars_of(host.as_str());
            if host_matches(h.as_slice(), "api.x.ai", ".x.ai") {
                return ProviderKind::Xai;
            }
            if host_matches(h.as_slice(), "api.openai.com", ".openai.com") {
                return ProviderKind::OpenAi;
            }
        },
        None => {},
    }
    let raw = chars_of(base_url);
    let t = trim_chars(raw.as_slice());
    let lowered = to_ascii_lowercase(t.as_slice());
    if contains_str(lowered.as_slice(), "api.x.ai") {
        return ProviderKind::Xai;
    }
    if contains_str(lowered.as_slice(), "api.openai.com") {
        return ProviderKind::OpenAi;
    }
    ProviderKind::Compatible
}

/// The model used when none is configured for a provider.
pub open spec fn default_model_spec(provider: ProviderKind) -> Seq<char> {
    match provider {
        ProviderKind::Xai => "grok-code-fast-1"@,
        ProviderKind::OpenAi => "gpt-4.1"@,
        ProviderKind::Compatible => "gpt-4.1-mini"@,
    }
}

/// The default model of a provider.
pub fn default_model_for(provider: ProviderKind) -> (r: &'static str)
    ensures
        r@ == default_model_spec(provider),
{
    match provider {
        ProviderKind::Xai => "grok-code-fast-1",
        ProviderKind::OpenAi => "gpt-4.1",
        ProviderKind::Compatible => "gpt-4.1-mini",
    }
}

/// The models offered for a provider, in menu order.
pub open spec fn default_models_spec(provider: ProviderKind) -> Seq<Seq<char>> {
    match provider {
        ProviderKind::Xai => seq![
            "grok-4-1-fast-reasoning"@,
            "grok-4-1-fast-non-reasoning"@,
            "grok-4-fast-reasoning"@,
            "grok-4-fast-non-reasoning"@,
            "grok-4"@,
            "grok-4-latest"@,
            "grok-code-fast-1"@,
            "grok-3"@,
            "grok-3-latest"@,
            "grok-3-fast"@,
            "grok-3-mini"@,
            "grok-3-mini-fast"@,
        ],
        _ => seq!["gpt-4.1"@, "gpt-4.1-mini"@, "gpt-4o"@, "gpt-4o-mini"@, "o3"@, "o4-mini"@],
    }
}

/// The views of a list of strings.
pub open spec fn views(v: Seq<String>) -> Seq<Seq<char>> {
    v.map_values(|s: String| s@)
}

/// Builds a `Vec<String>` from literals.
pub fn strings_of(lits: &[&str]) -> (r: Vec<String>)
    ensures
        views(r@) == lits@.map_values(|s: &str| s@),
{
    let mut out: Vec<String> = Vec::new();
    let mut i: usize = 0;
    while i < lits.len()
        invariant
            i <= lits.len(),
            views(out@) == lits@.take(i as int).map_values(|s: &str| s@),
        decreases lits.len() - i,
    {
        let c = chars_of(lits[i]);
        out.push(string_from_chars(c.as_slice()));
        i += 1;
        assert(lits@.take(i as int).map_values(|s: &str| s@) =~= lits@.take((i - 1) as int).map_values(
            |s: &str| s@,
        ).push(lits@[i - 1]@));
        assert(views(out@) =~= views(out@.drop_last()).push(out@.last()@));
    }
    assert(lits@.take(lits.len() as int) == lits@);
    out
}

/// The model menu of a provider.
pub fn default_models_for(provider: ProviderKind) -> (r: Vec<String>)
    ensures
        views(r@) == default_models_spec(provider),
{
    match provider {
        ProviderKind::Xai => {
            let lits = [
                "grok-4-1-fast-reasoning",
                "grok-4-1-fast-non-reasoning",
                "grok-4-fast-reasoning",
                "grok-4-fast-non-reasoning",
                "grok-4",
                "grok-4-latest",
                "grok-code-fast-1",
                "grok-3",
                "grok-3-latest",
                "grok-3-fast",
                "grok-3-mini",
                "grok-3-mini-fast",
            ];
            let r = strings_of(&lits);
            assert(lits@.map_values(|s: &str| s@) =~= default_models_spec(provider));
            r
        },
        _ => {
            let lits = ["gpt-4.1", "gpt-4.1-mini", "gpt-4o", "gpt-4o-mini", "o3", "o4-mini"];
            let r = strings_of(&lits);
            assert(lits@.map_values(|s: &str| s@) =~= default_models_spec(provider));
            r
        },
    }
}

/// The environment variables consulted for an API key, in order of preference.
pub open spec fn api_key_env_spec(provider: ProviderKind) -> Seq<Seq<char>> {
    match provider {
        ProviderKind::Xai => seq!["GROK_API_KEY"@, "XAI_API_KEY"@, "OPENAI_API_KEY"@],
        _ => seq!["GROK_API_KEY"@, "OPENAI_API_KEY"@, "XAI_API_KEY"@],
    }
}

/// The environment variables that may hold a provider's API key, in order.
pub fn api_key_env_candidates(provider: ProviderKind) -> (r: Vec<&'static str>)
    ensures
        r@.map_values(|s: &str| s@) == api_key_env_spec(provider),
{
    let mut v: Vec<&'static str> = Vec::new();
    match provider {
        ProviderKind::Xai => {
            v.push("GROK_API_KEY");
            v.push("XAI_API_KEY");
            v.push("OPENAI_API_KEY");
        },
        _ => {
            v.push("GROK_API_KEY");
            v.push("OPENAI_API_KEY");
            v.push("XAI_API_KEY");
        },
    }
    assert(v@.map_values(|s: &str| s@) =~= api_key_env_spec(provider));
    v
}


/// The default model of a provider is among the models offered for it.
pub proof fn law_default_model_is_offered(provider: ProviderKind)
    ensures
        default_models_spec(provider).contains(default_model_spec(provider)),
{
    match provider {
        ProviderKind::Xai => assert(default_models_spec(provider)[6] == default_model_spec(provider)),
        ProviderKind::OpenAi => assert(default_models_spec(provider)[0] == default_model_spec(provider)),
        ProviderKind::Compatible => assert(default_models_spec(provider)[1] == default_model_spec(provider)),
    }
}

} // verus!
