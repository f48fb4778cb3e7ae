//! The decisions of the shell tool: `cd` handling and how command output is reported.
use vstd::prelude::*;

use super::ToolResult;
use crate::image_input::{tokenize_preserving_quotes, tokens_of, trim_wrapping_quotes, unquoted};
use crate::order::texts;
use crate::text::{
    chars_of, contains, contains_str, eq_str, push_str, slice_chars, starts_with, starts_with_str, string_from_chars, trim,
    trim_chars,
};
use crate::tool_context::{is_rooted, is_within_root, plainly_inside_root, rooted};

verus! {

/// The directory a `cd` command changes to: the trimmed text after `cd `.
pub open spec fn cd_target_spec(command: Seq<char>) -> Option<Seq<char>> {
    let t = trim(command);
    if starts_with(t, "cd "@) {
        Some(trim(t.skip(3)))
    } else {
        None
    }
}

/// The target of a `cd` command, if the command is one.
pub fn cd_target(command: &str) -> (r: Option<String>)
    ensures
        match r {
            Some(p) => cd_target_spec(command@) == Some(p@),
            None => cd_target_spec(command@) is None,
        },
{
    let raw = chars_of(command);
    let t = trim_chars(raw.as_slice());
    if !starts_with_str(t.as_slice(), "cd ") {
        return None;
    }
    proof {
        reveal_strlit("cd ");
    }
    let rest = slice_chars(t.as_slice(), 3, t.len());
    let p = trim_chars(rest.as_slice());
    Some(string_from_chars(p.as_slice()))
}

/// The report of a command that ran: on success the trimmed output, with any
/// error output labelled `STDERR:`; on failure the error output, or the command
/// when there is none.
pub open spec fn command_report(command: Seq<char>, success: bool, stdout: Seq<char>, stderr: Seq<char>) -> (bool, Seq<char>) {
    let out = trim(stdout);
    let err = trim(stderr);
    if success {
        if out.len() == 0 && err.len() == 0 {
            (true, "Command executed successfully (no output)"@)
        } else if err.len() == 0 {
            (true, out)
        } else if out.len() == 0 {
            (true, "STDERR:\n"@ + err)
        } else {
            (true, out + "\n\nSTDERR:\n"@ + err)
        }
    } else if err.len() == 0 {
        (false, "Command failed: "@ + trim(command))
    } else {
        (false, "Command failed: "@ + err)
    }
}

/// The tool result for a finished shell command.
pub fn command_output_result(command: &str, success: bool, stdout: &str, stderr: &str) -> (r: ToolResult)
    ensures
        ({
            let (ok, text) = command_report(command@, success, stdout@, stderr@);
            if ok {
                super::is_ok_with(r, text)
            } else {
                super::is_err_with(r, text)
            }
        }),
{
    let o = chars_of(stdout);
    let out = trim_chars(o.as_slice());
    let e = chars_of(stderr);
    let err = trim_chars(e.as_slice());
    if success {
        if out.len() == 0 && err.len() == 0 {
            ToolResult::ok("Command executed successfully (no output)")
        } else if err.len() == 0 {
            let s = string_from_chars(out.as_slice());
            ToolResult::ok(s.as_str())
        } else if out.len() == 0 {
            let mut v = chars_of("STDERR:\n");
            crate::text::push_chars(&mut v, err.as_slice());
            let s = string_from_chars(v.as_slice());
            ToolResult::ok(s.as_str())
        } else {
            let mut v = out;
            push_str(&mut v, "\n\nSTDERR:\n");
            crate::text::push_chars(&mut v, err.as_slice());
            let s = string_from_chars(v.as_slice());
            ToolResult::ok(s.as_str())
        }
    } else {
        let mut v = chars_of("Command failed: ");
        if err.len() == 0 {
            let c = chars_of(command);
            let t = trim_chars(c.as_slice());
            crate::text::push_chars(&mut v, t.as_slice());
        } else {
            crate::text::push_chars(&mut v, err.as_slice());
        }
        let s = string_from_chars(v.as_slice());
        ToolResult::err(s.as_str())
    }
}

/// The report of a successful `cd`.
pub fn changed_directory_result(new_dir_display: &str) -> (r: ToolResult)
    ensures
        super::is_ok_with(r, "Changed directory to: "@ + new_dir_display@),
{
    let mut v = chars_of("Changed directory to: ");
    push_str(&mut v, new_dir_display);
    let s = string_from_chars(v.as_slice());
    ToolResult::ok(s.as_str())
}

/// The report of a command that could not be started.
pub fn spawn_failure_result(command: &str, reason: &str) -> (r: ToolResult)
    ensures
        super::is_err_with(r, "Failed running command: "@ + trim(command@) + ": "@ + reason@),
{
    let mut v = chars_of("Failed running command: ");
    let c = chars_of(command);
    let t = trim_chars(c.as_slice());
    crate::text::push_chars(&mut v, t.as_slice());
    push_str(&mut v, ": ");
    push_str(&mut v, reason);
    let s = string_from_chars(v.as_slice());
    ToolResult::err(s.as_str())
}


/// A word of a command with its leading redirection signs (`<`, `>`) removed.
pub open spec fn strip_redirect(t: Seq<char>) -> Seq<char>
    decreases t.len(),
{
    if t.len() > 0 && (t[0] == '<' || t[0] == '>') {
        strip_redirect(t.drop_first())
    } else {
        t
    }
}

/// The path a word of a command may name: without redirection signs and
/// wrapping quotes.
pub open spec fn path_word(t: Seq<char>) -> Seq<char> {
    unquoted(strip_redirect(t))
}

/// A word whose expansion could name any path: `$(...)`, backticks, `~`,
/// `$VAR/path` and `%VAR%\path`.
pub open spec fn expands_paths(w: Seq<char>) -> bool {
    ||| contains(w, "$("@)
    ||| contains(w, "`"@)
    ||| starts_with(w, "~"@)
    ||| (contains(w, "$"@) && (contains(w, "/"@) || contains(w, "\\"@)))
    ||| (contains(w, "%"@) && contains(w, "\\"@))
}

/// A relative path that climbs out of its directory with a `..` component.
pub open spec fn climbs(w: Seq<char>) -> bool {
    ||| w == ".."@
    ||| starts_with(w, "../"@)
    ||| starts_with(w, "..\\"@)
    ||| contains(w, "/.."@)
    ||| contains(w, "\\.."@)
}

/// A word that points outside the project root `root`.
pub open spec fn escapes_root(root: Seq<char>, w: Seq<char>) -> bool {
    if rooted(w) {
        !plainly_inside_root(root, w)
    } else {
        climbs(w)
    }
}

/// The refusal of a word that expands to paths.
pub open spec fn dynamic_path_message(word: Seq<char>) -> Seq<char> {
    "Command blocked: dynamic path expansion is not allowed ("@ + word + ")"@
}

/// The refusal of a word that points outside the project root.
pub open spec fn outside_path_message(word: Seq<char>) -> Seq<char> {
    "Command blocked: path is outside the project root ("@ + word + ")"@
}

/// The refusal of the first word of a command that expands to paths or points
/// outside the project root; nothing when every word stays inside.
pub open spec fn preflight_spec(root: Seq<char>, words: Seq<Seq<char>>) -> Option<Seq<char>>
    decreases words.len(),
{
    if words.len() == 0 {
        None
    } else {
        let w = path_word(words[0]);
        if expands_paths(w) {
            Some(dynamic_path_message(words[0]))
        } else if escapes_root(root, w) {
            Some(outside_path_message(words[0]))
        } else {
            preflight_spec(root, words.drop_first())
        }
    }
}

/// A word without its leading redirection signs (see `strip_redirect`).
fn strip_redirect_exec(t: &[char]) -> (r: Vec<char>)
    ensures
        r@ == strip_redirect(t@),
{
    let mut i: usize = 0;
    assert(t@.skip(0) == t@);
    while i < t.len() && (t[i] == '<' || t[i] == '>')
        invariant
            i <= t.len(),
            strip_redirect(t@) == strip_redirect(t@.skip(i as int)),
        decreases t.len() - i,
    {
        assert(t@.skip(i as int).drop_first() == t@.skip(i + 1));
        i += 1;
    }
    assert(t@.skip(i as int) == t@.subrange(i as int, t.len() as int));
    slice_chars(t, i, t.len())
}

/// Whether a word expands to paths (see `expands_paths`).
fn expands_paths_exec(w: &[char]) -> (r: bool)
    ensures
        r == expands_paths(w@),
{
    contains_str(w, "$(") || contains_str(w, "`") || starts_with_str(w, "~")
        || (contains_str(w, "$") && (contains_str(w, "/") || contains_str(w, "\\")))
        || (contains_str(w, "%") && contains_str(w, "\\"))
}

/// Whether a word points outside the project root (see `escapes_root`).
fn escapes_root_exec(root: &str, w: &[char]) -> (r: bool)
    ensures
        r == escapes_root(root@, w@),
{
    if is_rooted(w) {
        let text = string_from_chars(w);
        !is_within_root(root, text.as_str())
    } else {
        proof {
            reveal_strlit("..");
        }
        eq_str(w, "..") || starts_with_str(w, "../") || starts_with_str(w, "..\\") || contains_str(w, "/..")
            || contains_str(w, "\\..")
    }
}

/// A message naming a word.
fn word_message(prefix: &str, word: &str) -> (r: String)
    ensures
        r@ == prefix@ + word@ + ")"@,
{
    let mut out = chars_of(prefix);
    push_str(&mut out, word);
    push_str(&mut out, ")");
    string_from_chars(out.as_slice())
}

/// Checks a shell command before it runs in the project root `root`: refuses
/// the first word that expands to paths or points outside the root (see
/// `preflight_spec`).
pub fn bash_preflight(root: &str, command: &str) -> (r: Result<(), String>)
    ensures
        match preflight_spec(root@, tokens_of(command@)) {
            None => r is Ok,
            Some(m) => r matches Err(e) && e@ == m,
        },
{
    let words = tokenize_preserving_quotes(command);
    let ghost all = tokens_of(command@);
    let mut i: usize = 0;
    assert(all.skip(0) == all);
    while i < words.len()
        invariant
            i <= words.len(),
            texts(words@) == all,
            all == tokens_of(command@),
            preflight_spec(root@, all) == preflight_spec(root@, all.skip(i as int)),
        decreases words.len() - i,
    {
        assert(all.skip(i as int)[0] == words@[i as int]@);
        assert(all.skip(i as int).drop_first() == all.skip(i + 1));
        let stripped = strip_redirect_exec(chars_of(words[i].as_str()).as_slice());
        let text = string_from_chars(stripped.as_slice());
        let unq = trim_wrapping_quotes(text.as_str());
        let w = chars_of(unq.as_str());
        assert(w@ == path_word(all.skip(i as int)[0]));
        assert(all.len() == words@.len());
        assert(all.skip(i as int).len() > 0);
        if expands_paths_exec(w.as_slice()) {
            let m = word_message("Command blocked: dynamic path expansion is not allowed (", words[i].as_str());
            assert(m@ == dynamic_path_message(all.skip(i as int)[0]));
            assert(preflight_spec(root@, all.skip(i as int)) == Some(dynamic_path_message(all.skip(i as int)[0])));
            return Err(m);
        }
        if escapes_root_exec(root, w.as_slice()) {
            let m = word_message("Command blocked: path is outside the project root (", words[i].as_str());
            assert(m@ == outside_path_message(all.skip(i as int)[0]));
            assert(preflight_spec(root@, all.skip(i as int)) == Some(outside_path_message(all.skip(i as int)[0])));
            return Err(m);
        }
        i += 1;
    }
    Ok(())
}

} // verus!
