//! The text side of the file tools: line splitting, previews, directory
//! listings, string replacement and the reports; reading and writing the files
//! is the caller's part.
use vstd::prelude::*;

use super::{is_err_with, is_ok_with, ToolResult};
use crate::order::{lex_order, sort_strings, texts};
use vstd::relations::sorted_by;
use crate::text::{
    chars_of, decimal, index_of_any, index_of_char_from, join_lines, lemma_index_of_any,
    push_chars, push_decimal, push_str, string_from_chars, substring,
};

verus! {

/// A line without the `\r` of a `\r\n` ending.
pub open spec fn strip_cr(line: Seq<char>) -> Seq<char> {
    if line.len() > 0 && line.last() == '\r' {
        line.drop_last()
    } else {
        line
    }
}

/// The lines of `s` as `str::lines` gives them: split at `\n`, a `\r` before the
/// `\n` dropped, and no empty last line after a final line break.
pub open spec fn lines_of(s: Seq<char>) -> Seq<Seq<char>>
    decreases s.len(),
{
    if s.len() == 0 {
        Seq::empty()
    } else {
        let i = index_of_any(s, seq!['\n']);
        proof {
            lemma_index_of_any(s, seq!['\n']);
        }
        if i >= s.len() {
            seq![s]
        } else {
            seq![strip_cr(s.take(i))] + lines_of(s.skip(i + 1))
        }
    }
}

/// Splits `text` into its lines (see `lines_of`).
pub fn split_lines(text: &str) -> (r: Vec<String>)
    ensures
        texts(r@) == lines_of(text@),
{
    let s = chars_of(text);
    let n = s.len();
    let mut out: Vec<String> = Vec::new();
    let mut pos: usize = 0;
    assert(s@.skip(0) == s@);
    while pos < n
        invariant
            n == s.len(),
            s@ == text@,
            pos <= n,
            lines_of(s@) == texts(out@) + lines_of(s@.skip(pos as int)),
        decreases n - pos,
    {
        let ghost rest = s@.skip(pos as int);
        let ghost before = out@;
        let j = index_of_char_from(s.as_slice(), pos, '\n');
        proof {
            lemma_index_of_any(rest, seq!['\n']);
        }
        if j == n {
            let line = substring(s.as_slice(), pos, n);
            out.push(line);
            proof {
                assert(lines_of(rest) == seq![rest]);
                assert(texts(out@) =~= texts(before).push(rest));
                assert(s@.skip(n as int) =~= Seq::<char>::empty());
                assert(lines_of(s@.skip(n as int)) =~= Seq::<Seq<char>>::empty());
                assert(texts(out@) + lines_of(s@.skip(n as int)) =~= texts(before) + seq![rest]);
            }
            pos = n;
        } else {
            let end = if j > pos && s[j - 1] == '\r' {
                j - 1
            } else {
                j
            };
            let line = substring(s.as_slice(), pos, end);
            out.push(line);
            proof {
                let i = j - pos;
                assert(rest.take(i) =~= s@.subrange(pos as int, j as int));
                assert(strip_cr(rest.take(i)) =~= s@.subrange(pos as int, end as int));
                assert(rest.skip(i + 1) =~= s@.skip(j + 1));
                assert(lines_of(rest) == seq![strip_cr(rest.take(i))] + lines_of(rest.skip(i + 1)));
                assert(texts(out@) =~= texts(before).push(strip_cr(rest.take(i))));
                assert(texts(out@) + lines_of(s@.skip(j + 1)) =~= texts(before) + lines_of(rest));
            }
            pos = j + 1;
        }
    }
    assert(s@.skip(n as int) =~= Seq::<char>::empty());
    assert(texts(out@) + Seq::<Seq<char>>::empty() =~= texts(out@));
    out
}

/// One numbered line of a file view: `{n}: {line}`.
pub open spec fn numbered_line(n: nat, line: Seq<char>) -> Seq<char> {
    decimal(n) + ": "@ + line
}

/// Lines `from..to` (counted from 0) of `lines`, numbered from 1.
pub open spec fn numbered_lines(lines: Seq<Seq<char>>, from: int, to: int) -> Seq<Seq<char>> {
    Seq::new((to - from) as nat, |k: int| numbered_line((from + k + 1) as nat, lines[from + k]))
}

/// Appends lines `from..to` of `lines`, numbered and joined by line breaks.
fn push_numbered(out: &mut Vec<char>, lines: &Vec<String>, from: usize, to: usize)
    requires
        from <= to <= lines.len(),
    ensures
        final(out)@ == old(out)@ + join_lines(numbered_lines(texts(lines@), from as int, to as int)),
{
    let ghost start = out@;
    let ghost ls = texts(lines@);
    let mut k: usize = from;
    assert(numbered_lines(ls, from as int, from as int) =~= Seq::<Seq<char>>::empty());
    assert(start + Seq::<char>::empty() =~= start);
    while k < to
        invariant
            from <= k <= to <= lines.len(),
            ls == texts(lines@),
            out@ == start + join_lines(numbered_lines(ls, from as int, k as int)),
        decreases to - k,
    {
        let ghost before = out@;
        if k > from {
            out.push('\n');
        }
        push_decimal(out, k + 1);
        push_str(out, ": ");
        let line = chars_of(lines[k].as_str());
        push_chars(out, line.as_slice());
        proof {
            let rows = numbered_lines(ls, from as int, k + 1);
            let row = numbered_line((k + 1) as nat, ls[k as int]);
            assert(rows.drop_last() =~= numbered_lines(ls, from as int, k as int));
            assert(rows.last() == row);
            if k > from {
                assert(join_lines(rows) == join_lines(rows.drop_last()) + seq!['\n'] + row);
                assert(out@ =~= before + seq!['\n'] + row);
            } else {
                assert(rows =~= seq![row]);
                assert(join_lines(rows) == row);
                assert(numbered_lines(ls, from as int, k as int) =~= Seq::<Seq<char>>::empty());
                assert(out@ =~= before + row);
            }
        }
        k += 1;
    }
}

/// How many lines a file view shows when no range is asked for.
pub const PREVIEW_LINES: usize = 10;

/// The default view of a file: its first ten lines, numbered, and how many more
/// there are.
pub open spec fn preview_text(path: Seq<char>, lines: Seq<Seq<char>>) -> Seq<char> {
    let shown: int = if lines.len() < 10 {
        lines.len() as int
    } else {
        10
    };
    "Contents of "@ + path + ":\n"@ + join_lines(numbered_lines(lines, 0, shown)) + if lines.len()
        > 10 {
        "\n... +"@ + decimal((lines.len() - 10) as nat) + " lines"@
    } else {
        Seq::empty()
    }
}

/// First line index (from 0) of the range `start..=end` that exists in the file.
pub open spec fn range_from(len: nat, start: nat) -> int {
    if start - 1 < len {
        start - 1
    } else {
        len as int
    }
}

/// One past the last line index of the range `start..=end` that exists in the file.
pub open spec fn range_to(len: nat, start: nat, end: nat) -> int {
    let to: int = if end < len {
        end as int
    } else {
        len as int
    };
    if to < range_from(len, start) {
        range_from(len, start)
    } else {
        to
    }
}

/// The view of lines `start..=end` (counted from 1) of a file; lines past the
/// end are left out.
pub open spec fn range_text(path: Seq<char>, lines: Seq<Seq<char>>, start: nat, end: nat) -> Seq<
    char,
> {
    "Lines "@ + decimal(start) + "-"@ + decimal(end) + " of "@ + path + ":\n"@ + join_lines(
        numbered_lines(lines, range_from(lines.len(), start), range_to(lines.len(), start, end)),
    )
}

/// The view tool on a file whose text is `content`: the lines `start_line..=end_line`
/// when both are given (an error when the range is empty or starts at 0), else
/// a preview of the first lines.
pub fn execute_view_file(
    path: &str,
    content: &str,
    start_line: Option<usize>,
    end_line: Option<usize>,
) -> (r: ToolResult)
    ensures
        match (start_line, end_line) {
            (Some(s), Some(e)) => if s == 0 || e < s {
                is_err_with(r, "Invalid line range"@)
            } else {
                is_ok_with(r, range_text(path@, lines_of(content@), s as nat, e as nat))
            },
            _ => is_ok_with(r, preview_text(path@, lines_of(content@))),
        },
{
    let lines = split_lines(content);
    let ghost ls = texts(lines@);
    let n = lines.len();
    if let (Some(start), Some(end)) = (start_line, end_line) {
        if start == 0 || end < start {
            return ToolResult::err("Invalid line range");
        }
        let from = if start - 1 < n {
            start - 1
        } else {
            n
        };
        let to0 = if end < n {
            end
        } else {
            n
        };
        let to = if to0 < from {
            from
        } else {
            to0
        };
        let mut out = chars_of("Lines ");
        push_decimal(&mut out, start);
        push_str(&mut out, "-");
        push_decimal(&mut out, end);
        push_str(&mut out, " of ");
        push_str(&mut out, path);
        push_str(&mut out, ":\n");
        push_numbered(&mut out, &lines, from, to);
        assert(out@ =~= range_text(path@, ls, start as nat, end as nat));
        let text = string_from_chars(out.as_slice());
        return ToolResult::ok(text.as_str());
    }
    let shown = if n < PREVIEW_LINES {
        n
    } else {
        PREVIEW_LINES
    };
    let mut out = chars_of("Contents of ");
    push_str(&mut out, path);
    push_str(&mut out, ":\n");
    push_numbered(&mut out, &lines, 0, shown);
    let ghost head = out@;
    if n > PREVIEW_LINES {
        push_str(&mut out, "\n... +");
        push_decimal(&mut out, n - PREVIEW_LINES);
        push_str(&mut out, " lines");
    }
    assert(out@ =~= preview_text(path@, ls));
    let text = string_from_chars(out.as_slice());
    ToolResult::ok(text.as_str())
}

/// The error of a view whose target does not exist.
pub fn view_target_missing(path: &str) -> (r: ToolResult)
    ensures
        is_err_with(r, "File or directory not found: "@ + path@),
{
    let mut out = chars_of("File or directory not found: ");
    push_str(&mut out, path);
    let text = string_from_chars(out.as_slice());
    ToolResult::err(text.as_str())
}

/// The view of a directory: the names of its entries in sorted order, one per line.
pub fn view_directory_listing(path: &str, names: Vec<String>) -> (r: ToolResult)
    ensures
        exists|sorted: Seq<Seq<char>>|
            {
                &&& sorted_by(sorted, lex_order())
                &&& sorted.to_multiset() == texts(names@).to_multiset()
                &&& is_ok_with(r, "Directory contents of "@ + path@ + ":\n"@ + join_lines(sorted))
            },
{
    let sorted = sort_strings(names);
    let ghost rows = texts(sorted@);
    let mut out = chars_of("Directory contents of ");
    push_str(&mut out, path);
    push_str(&mut out, ":\n");
    let ghost head = out@;
    let mut k: usize = 0;
    assert(rows.take(0) =~= Seq::<Seq<char>>::empty());
    assert(head + Seq::<char>::empty() =~= head);
    while k < sorted.len()
        invariant
            k <= sorted.len(),
            rows == texts(sorted@),
            out@ == head + join_lines(rows.take(k as int)),
        decreases sorted.len() - k,
    {
        let ghost before = out@;
        if k > 0 {
            out.push('\n');
        }
        let name = chars_of(sorted[k].as_str());
        push_chars(&mut out, name.as_slice());
        proof {
            let t = rows.take(k + 1);
            assert(t.drop_last() =~= rows.take(k as int));
            assert(t.last() == rows[k as int]);
            if k > 0 {
                assert(out@ =~= before + seq!['\n'] + rows[k as int]);
            } else {
                assert(t =~= seq![rows[k as int]]);
                assert(rows.take(0) =~= Seq::<Seq<char>>::empty());
                assert(out@ =~= before + rows[k as int]);
            }
        }
        k += 1;
    }
    assert(rows.take(sorted.len() as int) =~= rows);
    let text = string_from_chars(out.as_slice());
    ToolResult::ok(text.as_str())
}

/// `r` put before each character of `s` and once more at its end: what replacing
/// every occurrence of the empty string gives.
pub open spec fn interleave(s: Seq<char>, r: Seq<char>) -> Seq<char>
    decreases s.len(),
{
    if s.len() == 0 {
        r
    } else {
        r + seq![s[0]] + interleave(s.drop_first(), r)
    }
}

/// Every occurrence of `p` in `s` replaced by `r`, scanning from the left and
/// never overlapping, as `str::replace` does.
pub open spec fn replace_all(s: Seq<char>, p: Seq<char>, r: Seq<char>) -> Seq<char>
    decreases s.len(),
{
    if p.len() == 0 {
        interleave(s, r)
    } else if s.len() < p.len() {
        s
    } else if s.take(p.len() as int) == p {
        r + replace_all(s.skip(p.len() as int), p, r)
    } else {
        seq![s[0]] + replace_all(s.drop_first(), p, r)
    }
}

/// The first occurrence of `p` in `s` replaced by `r`, as `str::replacen(p, r, 1)`
/// does; `s` itself when `p` does not occur.
pub open spec fn replace_first(s: Seq<char>, p: Seq<char>, r: Seq<char>) -> Seq<char> {
    let i = crate::text::find_sub(s, p);
    if i < 0 {
        s
    } else {
        s.take(i) + r + s.skip(i + p.len())
    }
}

/// `s` with every occurrence of `p` replaced by `r` (see `replace_all`).
pub fn replace_all_chars(s: &[char], p: &[char], r: &[char]) -> (out: Vec<char>)
    ensures
        out@ == replace_all(s@, p@, r@),
{
    let n = s.len();
    let mut out: Vec<char> = Vec::new();
    let mut i: usize = 0;
    assert(s@.skip(0) == s@);
    if p.len() == 0 {
        while i < n
            invariant
                n == s.len(),
                p@.len() == 0,
                i <= n,
                replace_all(s@, p@, r@) == out@ + interleave(s@.skip(i as int), r@),
            decreases n - i,
        {
            let ghost before = out@;
            push_chars(&mut out, r);
            out.push(s[i]);
            proof {
                let t = s@.skip(i as int);
                assert(t[0] == s@[i as int]);
                assert(t.drop_first() =~= s@.skip(i + 1));
                assert(interleave(t, r@) == r@ + seq![t[0]] + interleave(t.drop_first(), r@));
                assert(out@ + interleave(s@.skip(i + 1), r@) =~= before + interleave(t, r@));
            }
            i += 1;
        }
        push_chars(&mut out, r);
        assert(s@.skip(n as int) =~= Seq::<char>::empty());
        return out;
    }
    while p.len() <= n - i
        invariant
            n == s.len(),
            p@.len() > 0,
            i <= n,
            replace_all(s@, p@, r@) == out@ + replace_all(s@.skip(i as int), p@, r@),
        decreases n - i,
    {
        let ghost before = out@;
        let ghost t = s@.skip(i as int);
        let hit = crate::text::occurs_at_exec(s, p, i);
        assert(t.take(p.len() as int) =~= s@.subrange(i as int, i + p.len()));
        if hit {
            push_chars(&mut out, r);
            proof {
                assert(t.skip(p.len() as int) =~= s@.skip(i + p.len()));
                assert(out@ + replace_all(s@.skip(i + p.len()), p@, r@) =~= before + replace_all(
                    t,
                    p@,
                    r@,
                ));
            }
            i += p.len();
        } else {
            out.push(s[i]);
            proof {
                assert(t[0] == s@[i as int]);
                assert(t.drop_first() =~= s@.skip(i + 1));
                assert(out@ + replace_all(s@.skip(i + 1), p@, r@) =~= before + replace_all(
                    t,
                    p@,
                    r@,
                ));
            }
            i += 1;
        }
    }
    let ghost before = out@;
    let tail = crate::text::slice_chars(s, i, n);
    push_chars(&mut out, tail.as_slice());
    assert(tail@ =~= s@.skip(i as int));
    out
}

/// `s` with the first occurrence of `p` replaced by `r` (see `replace_first`).
pub fn replace_first_chars(s: &[char], p: &[char], r: &[char]) -> (out: Vec<char>)
    ensures
        out@ == replace_first(s@, p@, r@),
{
    proof {
        crate::text::lemma_find_sub(s@, p@);
    }
    match crate::text::find_sub_exec(s, p) {
        None => crate::text::slice_chars(s, 0, s.len()),
        Some(i) => {
            assert(crate::text::occurs_at(s@, p@, i as int));
            assert(i + p@.len() <= s@.len());
            assert(i + p.len() <= s.len());
            let mut out = crate::text::slice_chars(s, 0, i);
            push_chars(&mut out, r);
            let tail = crate::text::slice_chars(s, i + p.len(), s.len());
            push_chars(&mut out, tail.as_slice());
            assert(out@ =~= replace_first(s@, p@, r@));
            out
        },
    }
}

/// The unified diff of two texts, as `similar` renders it (see `unified_diff`).
pub uninterp spec fn unified_diff_text(
    old: Seq<char>,
    new: Seq<char>,
    old_header: Seq<char>,
    new_header: Seq<char>,
) -> Seq<char>;

/// `similar::TextDiff::from_lines(old, new).unified_diff().header(old_header, new_header)`
/// rendered with `to_string`: a line diff with three lines of context and no time
/// limit. Its text is taken as a function of the four arguments and is not
/// described further here.
#[verifier::external_body]
fn unified_diff(old: &str, new: &str, old_header: &str, new_header: &str) -> (r: String)
    ensures
        r@ == unified_diff_text(old@, new@, old_header@, new_header@),
{
    similar::TextDiff::from_lines(old, new).unified_diff().header(old_header, new_header).to_string()
}

/// `prefix` followed by `path`, as a string.
fn prefixed(prefix: &str, path: &str) -> (r: String)
    ensures
        r@ == prefix@ + path@,
{
    let mut out = chars_of(prefix);
    push_str(&mut out, path);
    string_from_chars(out.as_slice())
}

/// The report of a created file, given the diff of its content against nothing.
pub fn created_report(path: &str, diff: &str) -> (r: ToolResult)
    ensures
        is_ok_with(r, "Created "@ + path@ + "\n"@ + diff@),
{
    let mut out = chars_of("Created ");
    push_str(&mut out, path);
    push_str(&mut out, "\n");
    push_str(&mut out, diff);
    let text = string_from_chars(out.as_slice());
    ToolResult::ok(text.as_str())
}

/// The create tool, once `content` is written to `path`: reports the file with
/// the diff of its content against an empty file.
pub fn execute_create_file(path: &str, content: &str) -> (r: ToolResult)
    ensures
        is_ok_with(
            r,
            "Created "@ + path@ + "\n"@ + unified_diff_text(
                Seq::empty(),
                content@,
                "/dev/null"@,
                "b/"@ + path@,
            ),
        ),
{
    let new_header = prefixed("b/", path);
    let empty = String::new();
    let diff = unified_diff(empty.as_str(), content, "/dev/null", new_header.as_str());
    created_report(path, diff.as_str())
}

/// The report of an edited file, given the diff of its old text against its new one.
pub fn updated_report(path: &str, diff: &str) -> (r: ToolResult)
    ensures
        is_ok_with(r, "Updated "@ + path@ + "\n"@ + diff@),
{
    let mut out = chars_of("Updated ");
    push_str(&mut out, path);
    push_str(&mut out, "\n");
    push_str(&mut out, diff);
    let text = string_from_chars(out.as_slice());
    ToolResult::ok(text.as_str())
}

/// The error of an edit whose file does not exist.
pub fn edit_target_missing(path: &str) -> (r: ToolResult)
    ensures
        is_err_with(r, "File not found: "@ + path@),
{
    let text = prefixed("File not found: ", path);
    ToolResult::err(text.as_str())
}

/// The error of an edit whose old text does not occur in the file.
pub open spec fn old_text_missing_message(old: Seq<char>) -> Seq<char> {
    "String not found in file: \""@ + old + "\""@
}

/// What the edit tool does to a file: the new text to write, if any, and the report.
pub struct StrReplaceOutcome {
    pub updated: Option<String>,
    pub result: ToolResult,
}

/// The text of a file after the edit: every occurrence of `old` replaced when
/// `all` holds, else the first.
pub open spec fn edited_text(original: Seq<char>, old: Seq<char>, new: Seq<char>, all: bool) -> Seq<
    char,
> {
    if all {
        replace_all(original, old, new)
    } else {
        replace_first(original, old, new)
    }
}

/// The edit tool on a file whose text is `original`: fails when `old_str` does
/// not occur in it; else replaces it (every occurrence when `replace_all`, else
/// the first) and reports the diff.
pub fn execute_str_replace_editor(
    path: &str,
    original: &str,
    old_str: &str,
    new_str: &str,
    replace_all: bool,
) -> (r: StrReplaceOutcome)
    ensures
        r.updated is Some <==> crate::text::contains(original@, old_str@),
        r.updated is None ==> is_err_with(r.result, old_text_missing_message(old_str@)),
        r.updated matches Some(u) ==> {
            &&& u@ == edited_text(original@, old_str@, new_str@, replace_all)
            &&& is_ok_with(
                r.result,
                "Updated "@ + path@ + "\n"@ + unified_diff_text(
                    original@,
                    u@,
                    "a/"@ + path@,
                    "b/"@ + path@,
                ),
            )
        },
{
    let s = chars_of(original);
    let p = chars_of(old_str);
    let q = chars_of(new_str);
    if !crate::text::contains_exec(s.as_slice(), p.as_slice()) {
        let mut out = chars_of("String not found in file: \"");
        push_str(&mut out, old_str);
        push_str(&mut out, "\"");
        let text = string_from_chars(out.as_slice());
        return StrReplaceOutcome { updated: None, result: ToolResult::err(text.as_str()) };
    }
    let edited = if replace_all {
        replace_all_chars(s.as_slice(), p.as_slice(), q.as_slice())
    } else {
        replace_first_chars(s.as_slice(), p.as_slice(), q.as_slice())
    };
    let updated = string_from_chars(edited.as_slice());
    let old_header = prefixed("a/", path);
    let new_header = prefixed("b/", path);
    let diff = unified_diff(original, updated.as_str(), old_header.as_str(), new_header.as_str());
    let result = updated_report(path, diff.as_str());
    StrReplaceOutcome { updated: Some(updated), result }
}

} // verus!
