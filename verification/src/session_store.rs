//! Saved sessions: how a session name is cleaned up, the file it lives in, the
//! checks made when one is loaded, and the order sessions are listed in. The
//! files themselves are the caller's part.
use vstd::prelude::*;
use vstd::relations::sorted_by;

use crate::image_input::{strip_lead, strip_lead_exec, strip_trail, strip_trail_exec};
use crate::order::{lex_le, lex_le_exec, lemma_lex_total, lemma_lex_trans, texts};
use crate::text::{
    chars_of, decimal, is_ascii_alnum, push_chars, push_decimal, push_str, string_from_chars,
    trim, trim_chars,
};

verus! {

broadcast use vstd::seq_lib::to_multiset_insert;

/// The directory, under the working directory, that holds saved sessions.
pub const SESSIONS_DIR: &'static str = ".grok/sessions";

/// The extension of session files.
pub const SESSION_FILE_EXTENSION: &'static str = "json";

/// The session file format this code reads and writes.
pub const SESSION_FILE_VERSION: u32 = 1;

/// A character of a session name: ASCII letters, digits, `-` and `_` stay,
/// anything else becomes `-`.
pub open spec fn session_char(c: char) -> char {
    if is_ascii_alnum(c) || c == '-' || c == '_' {
        c
    } else {
        '-'
    }
}

/// A requested session name cleaned up: trimmed, every other character turned
/// into `-`, the `-` at both ends removed; nothing when that leaves it empty.
pub open spec fn normalized_name(requested: Option<Seq<char>>) -> Option<Seq<char>> {
    match requested {
        None => None,
        Some(r) => {
            let t = trim(r);
            let n = strip_trail(
                strip_lead(t.map_values(|c: char| session_char(c)), seq!['-']),
                seq!['-'],
            );
            if t.len() == 0 || n.len() == 0 {
                None
            } else {
                Some(n)
            }
        },
    }
}

/// Cleans up a requested session name (see `normalized_name`).
pub fn normalize_session_name(requested_name: Option<&str>) -> (r: Option<String>)
    ensures
        crate::image_input::opt_string(r) == normalized_name(crate::text::opt_text(requested_name)),
{
    let raw = match requested_name {
        Some(r) => r,
        None => return None,
    };
    let cs = chars_of(raw);
    let t = trim_chars(cs.as_slice());
    if t.len() == 0 {
        return None;
    }
    let mut mapped: Vec<char> = Vec::new();
    let mut i: usize = 0;
    while i < t.len()
        invariant
            i <= t.len(),
            mapped@ == t@.take(i as int).map_values(|c: char| session_char(c)),
        decreases t.len() - i,
    {
        let c = t[i];
        let kept = if (('0' <= c && c <= '9') || ('a' <= c && c <= 'z') || ('A' <= c && c <= 'Z'))
            || c == '-' || c == '_' {
            c
        } else {
            '-'
        };
        mapped.push(kept);
        assert(mapped@ =~= t@.take(i + 1).map_values(|c: char| session_char(c)));
        i += 1;
    }
    assert(t@.take(t.len() as int) =~= t@);
    let mut dash: Vec<char> = Vec::new();
    dash.push('-');
    assert(dash@ =~= seq!['-']);
    let a = strip_lead_exec(mapped.as_slice(), dash.as_slice());
    let b = strip_trail_exec(a.as_slice(), dash.as_slice());
    if b.len() == 0 {
        None
    } else {
        Some(string_from_chars(b.as_slice()))
    }
}

/// The file name of a session: its name and the `json` extension.
pub fn session_file_name(session_name: &str) -> (r: String)
    ensures
        r@ == session_name@ + "."@ + SESSION_FILE_EXTENSION@,
{
    let mut out = chars_of(session_name);
    push_str(&mut out, ".");
    push_str(&mut out, SESSION_FILE_EXTENSION);
    string_from_chars(out.as_slice())
}

/// The name a session is saved under: the cleaned-up requested name, else
/// `session-` and the time in milliseconds.
pub fn session_name_for_save(requested_name: Option<&str>, epoch_millis: u128) -> (r: String)
    ensures
        r@ == (match normalized_name(crate::text::opt_text(requested_name)) {
            Some(n) => n,
            None => "session-"@ + decimal(epoch_millis as nat),
        }),
{
    match normalize_session_name(requested_name) {
        Some(n) => n,
        None => {
            let mut out = chars_of("session-");
            let digits = crate::text::decimal_chars_u128(epoch_millis);
            push_chars(&mut out, digits.as_slice());
            string_from_chars(out.as_slice())
        },
    }
}

/// Why a session cannot be loaded.
#[derive(Debug, Clone, PartialEq, Eq)]
pub enum SessionLoadError {
    /// The requested name is empty once cleaned up.
    EmptyName,
    /// No file for the session.
    NotFound(String),
    /// The file has another format version.
    UnsupportedVersion { version: u32, name: String },
}

impl SessionLoadError {
    /// The message of the error.
    pub fn message(&self) -> (r: String)
        ensures
            r@ == (match self {
                SessionLoadError::EmptyName => "Session name cannot be empty"@,
                SessionLoadError::NotFound(n) => "Session not found: "@ + n@,
                SessionLoadError::UnsupportedVersion { version, name } => "Unsupported session file version "@
                    + decimal(*version as nat) + " for "@ + name@,
            }),
    {
        match self {
            SessionLoadError::EmptyName => String::from_str("Session name cannot be empty"),
            SessionLoadError::NotFound(n) => {
                let mut out = chars_of("Session not found: ");
                push_str(&mut out, n.as_str());
                string_from_chars(out.as_slice())
            },
            SessionLoadError::UnsupportedVersion { version, name } => {
                let mut out = chars_of("Unsupported session file version ");
                push_decimal(&mut out, *version as usize);
                push_str(&mut out, " for ");
                push_str(&mut out, name.as_str());
                string_from_chars(out.as_slice())
            },
        }
    }
}

/// The name of the session to load: the cleaned-up requested name, or an error
/// when it is empty.
pub fn session_name_for_load(requested_name: &str) -> (r: Result<String, SessionLoadError>)
    ensures
        match normalized_name(Some(requested_name@)) {
            Some(n) => r matches Ok(s) && s@ == n,
            None => r matches Err(SessionLoadError::EmptyName),
        },
{
    match normalize_session_name(Some(requested_name)) {
        Some(n) => Ok(n),
        None => Err(SessionLoadError::EmptyName),
    }
}

/// The checks made on a session file that was found and read: its version must
/// be the current one.
pub fn check_session_version(version: u32, session_name: &str) -> (r: Result<(), SessionLoadError>)
    ensures
        version == SESSION_FILE_VERSION <==> r is Ok,
        r matches Err(e) ==> e matches SessionLoadError::UnsupportedVersion { version: v, name }
            && v == version && name@ == session_name@,
{
    if version != SESSION_FILE_VERSION {
        return Err(
            SessionLoadError::UnsupportedVersion {
                version,
                name: crate::protocol::owned(session_name),
            },
        );
    }
    Ok(())
}

/// The listing order of sessions: the most recently modified first, ties by name.
pub open spec fn listed_before(a: (Seq<char>, u128), b: (Seq<char>, u128)) -> bool {
    a.1 > b.1 || (a.1 == b.1 && lex_le(a.0, b.0))
}

/// The listing order as a relation.
pub open spec fn listing_order() -> spec_fn((Seq<char>, u128), (Seq<char>, u128)) -> bool {
    |a: (Seq<char>, u128), b: (Seq<char>, u128)| listed_before(a, b)
}

/// The view of listed sessions: each name with its modification time.
pub open spec fn entry_views(v: Seq<(String, u128)>) -> Seq<(Seq<char>, u128)> {
    v.map_values(|e: (String, u128)| (e.0@, e.1))
}

/// Orders saved sessions for listing (the most recent first, ties by name) and
/// gives their names. Each entry is a session's name and its modification time.
pub fn order_sessions(entries: Vec<(String, u128)>) -> (r: Vec<String>)
    ensures
        exists|sorted: Seq<(Seq<char>, u128)>|
            {
                &&& sorted_by(sorted, listing_order())
                &&& sorted.to_multiset() == entry_views(entries@).to_multiset()
                &&& texts(r@) == sorted.map_values(|e: (Seq<char>, u128)| e.0)
                &&& forall|i: int, j: int|
                    0 <= i < j < sorted.len() ==> (#[trigger] sorted[i]).1 >= (#[trigger] sorted[j]).1
            },
{
    let mut out: Vec<(String, u128)> = Vec::new();
    let mut i: usize = 0;
    assert(entry_views(out@) =~= entry_views(entries@.take(0)));
    while i < entries.len()
        invariant
            i <= entries.len(),
            sorted_by(entry_views(out@), listing_order()),
            entry_views(out@).to_multiset() == entry_views(entries@.take(i as int)).to_multiset(),
        decreases entries.len() - i,
    {
        let name = chars_of(entries[i].0.as_str());
        let time = entries[i].1;
        let ghost x = (name@, time);
        let mut p: usize = 0;
        while p < out.len() && (out[p].1 > time || (out[p].1 == time && lex_le_exec(
            chars_of(out[p].0.as_str()).as_slice(),
            name.as_slice(),
        )))
            invariant
                p <= out.len(),
                x == (name@, time),
                forall|k: int| 0 <= k < p ==> listed_before(#[trigger] entry_views(out@)[k], x),
            decreases out.len() - p,
        {
            p += 1;
        }
        let ghost before = entry_views(out@);
        proof {
            if p < out.len() {
                lemma_lex_total(before[p as int].0, x.0);
            }
            assert forall|k: int| p <= k < before.len() implies listed_before(x, #[trigger] before[k]) by {
                if p < out.len() {
                    assert(listed_before(x, before[p as int]));
                    if k > p {
                        assert(listing_order()(before[p as int], before[k]));
                        if before[p as int].1 == before[k].1 && x.1 == before[k].1 {
                            lemma_lex_trans(x.0, before[p as int].0, before[k].0);
                        }
                    }
                }
            }
        }
        out.insert(p, (entries[i].0.clone(), time));
        proof {
            let after = entry_views(out@);
            assert(after =~= before.insert(p as int, x));
            assert forall|a: int, b: int| 0 <= a < b < after.len() implies #[trigger] listing_order()(after[a], after[b]) by {
                if a < p && b == p {
                } else if a < p && b > p {
                    assert(listing_order()(before[a], before[b - 1]));
                    if before[a].1 == x.1 && x.1 == before[b - 1].1 {
                        lemma_lex_trans(before[a].0, x.0, before[b - 1].0);
                    }
                } else if a == p {
                } else if a > p {
                    assert(listing_order()(before[a - 1], before[b - 1]));
                } else {
                    assert(listing_order()(before[a], before[b]));
                }
            }
            assert(entry_views(entries@.take(i + 1)) =~= entry_views(entries@.take(i as int)).push(x));
            vstd::seq_lib::to_multiset_build(entry_views(entries@.take(i as int)), x);
        }
        i += 1;
    }
    assert(entries@.take(entries.len() as int) == entries@);
    let ghost sorted = entry_views(out@);
    let mut names: Vec<String> = Vec::new();
    let mut k: usize = 0;
    while k < out.len()
        invariant
            k <= out.len(),
            sorted == entry_views(out@),
            texts(names@) == sorted.take(k as int).map_values(|e: (Seq<char>, u128)| e.0),
        decreases out.len() - k,
    {
        let ghost before = texts(names@);
        let copy = out[k].0.clone();
        assert(copy@ == sorted[k as int].0);
        names.push(copy);
        assert(texts(names@) =~= before.push(sorted[k as int].0));
        assert(texts(names@) =~= sorted.take(k + 1).map_values(|e: (Seq<char>, u128)| e.0));
        k += 1;
    }
    assert(sorted.take(out.len() as int) =~= sorted);
    proof {
        law_listing_newest_first(sorted);
    }
    names
}


/// Sessions listed in the listing order come most recent first: of two listed
/// sessions, the one modified strictly later is listed before the other, and
/// sessions modified at the same time are listed by name.
pub proof fn law_listing_newest_first(sorted: Seq<(Seq<char>, u128)>)
    requires
        sorted_by(sorted, listing_order()),
    ensures
        forall|i: int, j: int| 0 <= i < j < sorted.len() ==> (#[trigger] sorted[i]).1 >= (#[trigger] sorted[j]).1,
        forall|i: int, j: int|
            0 <= i < sorted.len() && 0 <= j < sorted.len() && (#[trigger] sorted[i]).1 > (#[trigger] sorted[j]).1
                ==> i < j,
        forall|i: int, j: int|
            0 <= i < j < sorted.len() && (#[trigger] sorted[i]).1 == (#[trigger] sorted[j]).1 ==> lex_le(
                sorted[i].0,
                sorted[j].0,
            ),
{
    assert forall|i: int, j: int| 0 <= i < j < sorted.len() implies (#[trigger] sorted[i]).1 >= (
    #[trigger] sorted[j]).1 by {
        assert(listing_order()(sorted[i], sorted[j]));
    }
    assert forall|i: int, j: int|
        0 <= i < sorted.len() && 0 <= j < sorted.len() && (#[trigger] sorted[i]).1 > (#[trigger] sorted[j]).1 implies i
        < j by {
        if j < i {
            assert(listing_order()(sorted[j], sorted[i]));
        }
    }
    assert forall|i: int, j: int|
        0 <= i < j < sorted.len() && (#[trigger] sorted[i]).1 == (#[trigger] sorted[j]).1 implies lex_le(
        sorted[i].0,
        sorted[j].0,
    ) by {
        assert(listing_order()(sorted[i], sorted[j]));
    }
}

} // verus!
