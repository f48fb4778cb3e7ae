//! The pure parts of the search tool: request checks, ripgrep arguments,
//! file scoring and the result summary.
use vstd::prelude::*;
use vstd::relations::sorted_by;

use super::{is_err_with, is_ok_with, ToolResult};
use crate::order::{lex_le, lex_le_exec};
use crate::image_input::opt_string;
use crate::protocol::owned;
use crate::responses_adapter::{get_spec, get_str, json_get, json_get_str, json_of, parse_json};
use crate::text::{
    ascii_lower, chars_of, chars_eq, contains, contains_exec, decimal, eq_str, occurs_at, push_chars,
    push_decimal, push_str, slice_chars, starts_with, starts_with_str, string_from_chars,
    to_ascii_lowercase, trim, trim_chars,
};

verus! {

/// A file with a text match (one entry per match).
#[derive(Debug, Clone)]
pub struct SearchTextResult {
    pub file: String,
}

/// A file whose name or path matched the query.
#[derive(Debug, Clone)]
pub struct FileSearchResult {
    pub path: String,
    pub score: i32,
}

/// `path` without a leading `./`.
pub open spec fn normalized_path(path: Seq<char>) -> Seq<char> {
    if starts_with(path, "./"@) {
        path.skip(2)
    } else {
        path
    }
}

/// Removes a leading `./` from a path.
pub fn normalize_file_path(path: &str) -> (r: String)
    ensures
        r@ == normalized_path(path@),
{
    let p = chars_of(path);
    if starts_with_str(p.as_slice(), "./") {
        proof {
            reveal_strlit("./");
        }
        let rest = slice_chars(p.as_slice(), 2, p.len());
        string_from_chars(rest.as_slice())
    } else {
        string_from_chars(p.as_slice())
    }
}

/// How many characters of `pat[k..]` a greedy left-to-right scan of `name` matches, plus `k`.
pub open spec fn greedy_match(name: Seq<char>, pat: Seq<char>, k: nat) -> nat
    decreases name.len(),
{
    if name.len() == 0 {
        k
    } else if k < pat.len() && name[0] == pat[k as int] {
        greedy_match(name.drop_first(), pat, k + 1)
    } else {
        greedy_match(name.drop_first(), pat, k)
    }
}

proof fn lemma_greedy_bound(name: Seq<char>, pat: Seq<char>, k: nat)
    requires
        k <= pat.len(),
    ensures
        k <= greedy_match(name, pat, k) <= pat.len(),
    decreases name.len(),
{
    if name.len() > 0 {
        if k < pat.len() && name[0] == pat[k as int] {
            lemma_greedy_bound(name.drop_first(), pat, k + 1);
        } else {
            lemma_greedy_bound(name.drop_first(), pat, k);
        }
    }
}

/// How well a file matches a lower-case pattern: exact name 100, name contains it
/// 80, path contains it 60, pattern a subsequence of the name 40 less the extra
/// length of the name (at least 10), otherwise 0.
pub open spec fn file_score(name: Seq<char>, path: Seq<char>, pattern: Seq<char>) -> int {
    let ln = ascii_lower(name);
    let lp = ascii_lower(path);
    if ln == pattern {
        100
    } else if contains(ln, pattern) {
        80
    } else if contains(lp, pattern) {
        60
    } else if greedy_match(ln, pattern, 0) == pattern.len() {
        let penalty = ln.len() - pattern.len();
        if 40 - penalty > 10 {
            40 - penalty
        } else {
            10
        }
    } else {
        0
    }
}

/// Scores a file name and path against a lower-case pattern (see `file_score`).
pub fn calculate_file_score(file_name: &str, file_path: &str, pattern: &str) -> (r: i32)
    requires
        file_name@.len() < 0x4000_0000,
        pattern@.len() < 0x4000_0000,
    ensures
        r == file_score(file_name@, file_path@, pattern@),
{
    let n = chars_of(file_name);
    let p = chars_of(file_path);
    let pat = chars_of(pattern);
    let ln = to_ascii_lowercase(n.as_slice());
    let lp = to_ascii_lowercase(p.as_slice());
    if chars_eq(ln.as_slice(), pat.as_slice()) {
        return 100;
    }
    if contains_exec(ln.as_slice(), pat.as_slice()) {
        return 80;
    }
    if contains_exec(lp.as_slice(), pat.as_slice()) {
        return 60;
    }
    let mut k: usize = 0;
    let mut i: usize = 0;
    assert(ln@.skip(0) == ln@);
    while i < ln.len()
        invariant
            i <= ln.len(),
            k <= pat.len(),
            greedy_match(ln@, pat@, 0) == greedy_match(ln@.skip(i as int), pat@, k as nat),
        decreases ln.len() - i,
    {
        assert(ln@.skip(i as int).drop_first() == ln@.skip(i + 1));
        if k < pat.len() && ln[i] == pat[k] {
            k += 1;
        }
        i += 1;
    }
    assert(ln@.skip(ln.len() as int).len() == 0);
    if k == pat.len() {
        let penalty: i32 = ln.len() as i32 - pat.len() as i32;
        let s = 40 - penalty;
        if s > 10 {
            s
        } else {
            10
        }
    } else {
        0
    }
}

/// `s` without repeated entries, keeping each first occurrence in order.
pub open spec fn dedup(s: Seq<Seq<char>>) -> Seq<Seq<char>>
    decreases s.len(),
{
    if s.len() == 0 {
        Seq::empty()
    } else {
        let d = dedup(s.drop_last());
        if d.contains(s.last()) {
            d
        } else {
            d.push(s.last())
        }
    }
}

/// Number of entries of `s` equal to `x`.
pub open spec fn count_of(s: Seq<Seq<char>>, x: Seq<char>) -> nat
    decreases s.len(),
{
    if s.len() == 0 {
        0
    } else {
        count_of(s.drop_last(), x) + if s.last() == x {
            1nat
        } else {
            0nat
        }
    }
}

/// The files of text results, one entry per match.
pub open spec fn text_files(ts: Seq<SearchTextResult>) -> Seq<Seq<char>> {
    ts.map_values(|t: SearchTextResult| t.file@)
}

/// The paths of file results.
pub open spec fn file_paths(fs: Seq<FileSearchResult>) -> Seq<Seq<char>> {
    fs.map_values(|f: FileSearchResult| f.path@)
}

/// One result line: the file, with its number of text matches when it has some.
pub open spec fn result_line(file: Seq<char>, matches: nat) -> Seq<char> {
    "  "@ + file + if matches > 0 {
        " ("@ + decimal(matches) + " matches)"@
    } else {
        Seq::empty()
    }
}

/// The result lines of `files`, each preceded by a line break.
pub open spec fn result_lines(files: Seq<Seq<char>>, texts: Seq<Seq<char>>) -> Seq<char>
    decreases files.len(),
{
    if files.len() == 0 {
        Seq::empty()
    } else {
        result_lines(files.drop_last(), texts) + "\n"@ + result_line(
            files.last(),
            count_of(texts, files.last()),
        )
    }
}

/// The search summary: the distinct files (text matches first), at most eight
/// shown with their match counts, and how many more there are.
pub open spec fn search_summary(query: Seq<char>, texts: Seq<Seq<char>>, paths: Seq<Seq<char>>) -> Seq<char> {
    if texts.len() == 0 && paths.len() == 0 {
        "No results found for \""@ + query + "\""@
    } else {
        let files = dedup(texts + paths);
        "Search results for \""@ + query + "\":"@ + result_lines(
            files.take(if files.len() < 8 {
                files.len() as int
            } else {
                8
            }),
            texts,
        ) + if files.len() > 8 {
            "\n  ... +"@ + decimal((files.len() - 8) as nat) + " more"@
        } else {
            Seq::empty()
        }
    }
}

/// Whether `files` holds `x`.
fn holds(files: &Vec<Vec<char>>, x: &[char]) -> (r: bool)
    ensures
        r == files@.map_values(|f: Vec<char>| f@).contains(x@),
{
    let ghost fs = files@.map_values(|f: Vec<char>| f@);
    let mut i: usize = 0;
    while i < files.len()
        invariant
            i <= files.len(),
            fs == files@.map_values(|f: Vec<char>| f@),
            forall|j: int| 0 <= j < i ==> fs[j] != x@,
        decreases files.len() - i,
    {
        if chars_eq(files[i].as_slice(), x) {
            assert(fs[i as int] == x@);
            return true;
        }
        i += 1;
    }
    false
}

/// Number of text results in `file`.
fn count_matches(texts: &[SearchTextResult], file: &[char]) -> (r: usize)
    ensures
        r == count_of(text_files(texts@), file@),
{
    let mut n: usize = 0;
    let mut i: usize = 0;
    while i < texts.len()
        invariant
            i <= texts.len(),
            n == count_of(text_files(texts@.take(i as int)), file@),
            n <= i,
        decreases texts.len() - i,
    {
        let f = chars_of(texts[i].file.as_str());
        proof {
            assert(text_files(texts@.take(i + 1)).drop_last() =~= text_files(texts@.take(i as int)));
        }
        if chars_eq(f.as_slice(), file) {
            n += 1;
        }
        i += 1;
    }
    assert(texts@.take(texts.len() as int) == texts@);
    n
}

/// Appends `x` to the distinct list unless it is already there.
fn push_distinct(files: &mut Vec<Vec<char>>, x: Vec<char>, ghost_src: Ghost<Seq<Seq<char>>>)
    requires
        old(files)@.map_values(|f: Vec<char>| f@) == dedup(ghost_src@),
    ensures
        final(files)@.map_values(|f: Vec<char>| f@) == dedup(ghost_src@.push(x@)),
{
    let present = holds(files, x.as_slice());
    proof {
        assert(ghost_src@.push(x@).drop_last() =~= ghost_src@);
    }
    if !present {
        let ghost prev = files@;
        files.push(x);
        assert(files@.map_values(|f: Vec<char>| f@) =~= prev.map_values(|f: Vec<char>| f@).push(
            files@.last()@,
        ));
    }
}

/// Summarises search results (see `search_summary`).
pub fn format_search_results(
    query: &str,
    text_results: &[SearchTextResult],
    file_results: &[FileSearchResult],
) -> (r: String)
    ensures
        r@ == search_summary(query@, text_files(text_results@), file_paths(file_results@)),
{
    if text_results.len() == 0 && file_results.len() == 0 {
        let mut v = chars_of("No results found for \"");
        push_str(&mut v, query);
        push_str(&mut v, "\"");
        return string_from_chars(v.as_slice());
    }
    let ghost texts = text_files(text_results@);
    let ghost paths = file_paths(file_results@);
    let mut files: Vec<Vec<char>> = Vec::new();
    let mut i: usize = 0;
    while i < text_results.len()
        invariant
            i <= text_results.len(),
            texts == text_files(text_results@),
            files@.map_values(|f: Vec<char>| f@) == dedup(texts.take(i as int)),
        decreases text_results.len() - i,
    {
        let f = chars_of(text_results[i].file.as_str());
        proof {
            assert(texts.take(i + 1) =~= texts.take(i as int).push(f@));
        }
        push_distinct(&mut files, f, Ghost(texts.take(i as int)));
        i += 1;
    }
    assert(texts.take(text_results.len() as int) == texts);
    let mut j: usize = 0;
    assert(texts + paths.take(0) == texts);
    while j < file_results.len()
        invariant
            j <= file_results.len(),
            paths == file_paths(file_results@),
            files@.map_values(|f: Vec<char>| f@) == dedup(texts + paths.take(j as int)),
        decreases file_results.len() - j,
    {
        let f = chars_of(file_results[j].path.as_str());
        proof {
            assert(texts + paths.take(j + 1) =~= (texts + paths.take(j as int)).push(f@));
        }
        push_distinct(&mut files, f, Ghost(texts + paths.take(j as int)));
        j += 1;
    }
    assert(paths.take(file_results.len() as int) == paths);
    let ghost all = files@.map_values(|f: Vec<char>| f@);
    let mut out = chars_of("Search results for \"");
    push_str(&mut out, query);
    push_str(&mut out, "\":");
    let ghost head = out@;
    let shown: usize = if files.len() < 8 {
        files.len()
    } else {
        8
    };
    let mut k: usize = 0;
    while k < shown
        invariant
            k <= shown <= files.len(),
            all == files@.map_values(|f: Vec<char>| f@),
            texts == text_files(text_results@),
            out@ == head + result_lines(all.take(k as int), texts),
        decreases shown - k,
    {
        let n = count_matches(text_results, files[k].as_slice());
        let ghost before = out@;
        push_str(&mut out, "\n  ");
        push_chars(&mut out, files[k].as_slice());
        if n > 0 {
            push_str(&mut out, " (");
            push_decimal(&mut out, n);
            push_str(&mut out, " matches)");
        }
        proof {
            assert(all.take(k + 1).drop_last() == all.take(k as int));
            assert(all.take(k + 1).last() == files@[k as int]@);
            reveal_strlit("\n  ");
            reveal_strlit("\n");
            reveal_strlit("  ");
            assert("\n  "@ =~= "\n"@ + "  "@);
            let line = result_line(files@[k as int]@, count_of(texts, files@[k as int]@));
            assert(result_lines(all.take(k + 1), texts) == result_lines(all.take(k as int), texts) + "\n"@ + line);
            assert(out@ =~= before + "\n"@ + line);
            assert(out@ =~= head + result_lines(all.take(k + 1), texts));
        }
        k += 1;
    }
    if files.len() > 8 {
        push_str(&mut out, "\n  ... +");
        push_decimal(&mut out, files.len() - 8);
        push_str(&mut out, " more");
    }
    assert(out@ =~= search_summary(query@, texts, paths));
    string_from_chars(out.as_slice())
}

/// What a search request asks for, after checking it.
pub struct SearchPlan {
    pub query: String,
    pub search_text: bool,
    pub search_files: bool,
    pub max_results: usize,
}

/// Checks a search request: the query must not be blank and the type, in ASCII
/// lower case, must be `text`, `files` or `both` (the default). The result limit
/// defaults to 50 and is kept within 1..=200.
pub fn plan_search(query: &str, search_type: Option<&str>, max_results: Option<usize>) -> (r: Result<SearchPlan, ToolResult>)
    ensures
        trim(query@).len() == 0 ==> (r matches Err(e) && is_err_with(e, "Missing or empty 'query' argument"@)),
        trim(query@).len() > 0 ==> {
            let t = match search_type {
                Some(s) => ascii_lower(s@),
                None => "both"@,
            };
            if t == "text"@ || t == "files"@ || t == "both"@ {
                r matches Ok(p) && p.query@ == trim(query@) && p.search_text == (t != "files"@)
                    && p.search_files == (t != "text"@) && p.max_results == match max_results {
                    Some(m) => if m < 1 {
                        1
                    } else if m > 200 {
                        200
                    } else {
                        m
                    },
                    None => 50,
                }
            } else {
                r matches Err(e) && is_err_with(
                    e,
                    "Invalid search_type. Expected one of: text, files, both"@,
                )
            }
        },
{
    let q = chars_of(query);
    let t = trim_chars(q.as_slice());
    if t.len() == 0 {
        return Err(ToolResult::err("Missing or empty 'query' argument"));
    }
    let kind = match search_type {
        Some(s) => {
            let c = chars_of(s);
            to_ascii_lowercase(c.as_slice())
        },
        None => chars_of("both"),
    };
    let is_text = eq_str(kind.as_slice(), "text");
    let is_files = eq_str(kind.as_slice(), "files");
    let is_both = eq_str(kind.as_slice(), "both");
    if !(is_text || is_files || is_both) {
        return Err(ToolResult::err("Invalid search_type. Expected one of: text, files, both"));
    }
    proof {
        reveal_strlit("text");
        reveal_strlit("files");
        reveal_strlit("both");
    }
    let max = match max_results {
        Some(m) => if m < 1 {
            1
        } else if m > 200 {
            200
        } else {
            m
        },
        None => 50,
    };
    Ok(SearchPlan { query: string_from_chars(t.as_slice()), search_text: !is_files, search_files: !is_text, max_results: max })
}

/// The glob for a file type: `*.` and the type without blanks and leading dots.
pub open spec fn type_glob(t: Seq<char>) -> Option<Seq<char>> {
    let s = strip_dots(trim(t));
    if s.len() == 0 {
        None
    } else {
        Some("*."@ + s)
    }
}

/// `s` without leading dots.
pub open spec fn strip_dots(s: Seq<char>) -> Seq<char>
    decreases s.len(),
{
    if s.len() > 0 && s[0] == '.' {
        strip_dots(s.drop_first())
    } else {
        s
    }
}

/// The globs of a list of file types, skipping empty ones.
pub open spec fn type_globs(ts: Seq<Seq<char>>) -> Seq<Seq<char>>
    decreases ts.len(),
{
    if ts.len() == 0 {
        Seq::empty()
    } else {
        type_globs(ts.drop_last()) + match type_glob(ts.last()) {
            Some(g) => seq![g],
            None => Seq::empty(),
        }
    }
}

/// The views of a list of strings.
pub open spec fn string_views(v: Seq<String>) -> Seq<Seq<char>> {
    v.map_values(|s: String| s@)
}

/// The `*.ext` globs for a list of file types.
pub fn file_type_globs(file_types: &[String]) -> (r: Vec<String>)
    ensures
        string_views(r@) == type_globs(string_views(file_types@)),
{
    let mut out: Vec<String> = Vec::new();
    let mut i: usize = 0;
    while i < file_types.len()
        invariant
            i <= file_types.len(),
            string_views(out@) == type_globs(string_views(file_types@).take(i as int)),
        decreases file_types.len() - i,
    {
        let c = chars_of(file_types[i].as_str());
        let t = trim_chars(c.as_slice());
        let mut a: usize = 0;
        assert(t@.skip(0) == t@);
        while a < t.len() && t[a] == '.'
            invariant
                a <= t.len(),
                strip_dots(t@) == strip_dots(t@.skip(a as int)),
            decreases t.len() - a,
        {
            assert(t@.skip(a as int).drop_first() == t@.skip(a + 1));
            a += 1;
        }
        let ghost prev = out@;
        if a < t.len() {
            let mut g = chars_of("*.");
            let rest = slice_chars(t.as_slice(), a, t.len());
            push_chars(&mut g, rest.as_slice());
            out.push(string_from_chars(g.as_slice()));
            assert(string_views(out@) =~= string_views(prev).push(out@.last()@));
        }
        proof {
            let ts = string_views(file_types@);
            assert(ts.take(i + 1).drop_last() == ts.take(i as int));
            assert(ts.take(i + 1).last() == file_types@[i as int]@);
            assert(string_views(out@) =~= type_globs(ts.take(i + 1)));
        }
        i += 1;
    }
    assert(string_views(file_types@).take(file_types.len() as int) == string_views(file_types@));
    out
}


/// The order of file matches: higher scores first, then paths in
/// lexicographic order.
pub open spec fn ranked_le(a: (Seq<char>, int), b: (Seq<char>, int)) -> bool {
    a.1 > b.1 || (a.1 == b.1 && lex_le(a.0, b.0))
}

/// The ranking as a relation.
pub open spec fn ranking() -> spec_fn((Seq<char>, int), (Seq<char>, int)) -> bool {
    |a: (Seq<char>, int), b: (Seq<char>, int)| ranked_le(a, b)
}

/// The file matches of candidate files (each a file name and its path), in
/// order: each path with its score, for the scores above zero.
pub open spec fn scored_files(cands: Seq<(Seq<char>, Seq<char>)>, pattern: Seq<char>) -> Seq<(Seq<char>, int)>
    decreases cands.len(),
{
    if cands.len() == 0 {
        Seq::empty()
    } else {
        let rest = scored_files(cands.drop_last(), pattern);
        let c = cands.last();
        let s = file_score(c.0, c.1, pattern);
        if s > 0 {
            rest.push((c.1, s))
        } else {
            rest
        }
    }
}

/// The path and score of each match.
pub open spec fn match_views(v: Seq<FileSearchResult>) -> Seq<(Seq<char>, int)> {
    v.map_values(|r: FileSearchResult| (r.path@, r.score as int))
}

/// The file name and path of each candidate.
pub open spec fn candidate_views(v: Seq<(String, String)>) -> Seq<(Seq<char>, Seq<char>)> {
    v.map_values(|c: (String, String)| (c.0@, c.1@))
}

proof fn lemma_ranked_total(a: (Seq<char>, int), b: (Seq<char>, int))
    ensures
        ranked_le(a, b) || ranked_le(b, a),
{
    crate::order::lemma_lex_total(a.0, b.0);
}

proof fn lemma_ranked_trans(a: (Seq<char>, int), b: (Seq<char>, int), c: (Seq<char>, int))
    requires
        ranked_le(a, b),
        ranked_le(b, c),
    ensures
        ranked_le(a, c),
{
    if a.1 == b.1 && b.1 == c.1 {
        crate::order::lemma_lex_trans(a.0, b.0, c.0);
    }
}

/// The best file matches among candidate files (each a file name and its
/// path), scored against `pattern`: the matches scoring above zero, ranked (see
/// `ranked_le`), at most `max_results` of them.
pub fn rank_file_results(candidates: Vec<(String, String)>, pattern: &str, max_results: usize) -> (r: Vec<
    FileSearchResult,
>)
    requires
        forall|k: int| 0 <= k < candidates@.len() ==> (#[trigger] candidates@[k]).0@.len() < 0x4000_0000,
        pattern@.len() < 0x4000_0000,
    ensures
        ({
            let kept = scored_files(candidate_views(candidates@), pattern@);
            &&& match_views(r@).len() == (if kept.len() < max_results { kept.len() as int } else { max_results as int })
            &&& exists|full: Seq<(Seq<char>, int)>|
                #![trigger full.to_multiset()]
                full.to_multiset() == kept.to_multiset() && sorted_by(full, ranking()) && match_views(r@)
                    == full.take(match_views(r@).len() as int)
        }),
{
    let ghost cands = candidate_views(candidates@);
    let ghost kept_all = scored_files(cands, pattern@);
    let mut kept: Vec<FileSearchResult> = Vec::new();
    let mut i: usize = 0;
    while i < candidates.len()
        invariant
            i <= candidates@.len(),
            cands == candidate_views(candidates@),
            kept_all == scored_files(cands, pattern@),
            match_views(kept@) == scored_files(cands.take(i as int), pattern@),
            forall|k: int| 0 <= k < candidates@.len() ==> (#[trigger] candidates@[k]).0@.len() < 0x4000_0000,
            pattern@.len() < 0x4000_0000,
        decreases candidates.len() - i,
    {
        assert(cands.take(i + 1).drop_last() =~= cands.take(i as int));
        assert(cands.take(i + 1).last() == (candidates@[i as int].0@, candidates@[i as int].1@));
        let score = calculate_file_score(candidates[i].0.as_str(), candidates[i].1.as_str(), pattern);
        if score > 0 {
            let ghost before = match_views(kept@);
            kept.push(FileSearchResult { path: candidates[i].1.clone(), score });
            assert(match_views(kept@) =~= before.push((candidates@[i as int].1@, score as int)));
        }
        i += 1;
    }
    assert(cands.take(i as int) =~= cands);
    let ghost kv = match_views(kept@);
    assert(kv == kept_all);
    let mut out: Vec<FileSearchResult> = Vec::new();
    let mut j: usize = 0;
    assert(match_views(out@) =~= kv.take(0));
    while j < kept.len()
        invariant
            j <= kept@.len(),
            out@.len() == j,
            kv == match_views(kept@),
            sorted_by(match_views(out@), ranking()),
            match_views(out@).to_multiset() == kv.take(j as int).to_multiset(),
        decreases kept.len() - j,
    {
        let ghost x = (kept@[j as int].path@, kept@[j as int].score as int);
        let xs = kept[j].score;
        let xp = chars_of(kept[j].path.as_str());
        let mut p: usize = 0;
        while p < out.len() && (out[p].score > xs || (out[p].score == xs && lex_le_exec(
            chars_of(out[p].path.as_str()).as_slice(),
            xp.as_slice(),
        )))
            invariant
                p <= out@.len(),
                xs as int == x.1,
                xp@ == x.0,
                forall|k: int| 0 <= k < p ==> ranked_le(#[trigger] match_views(out@)[k], x),
            decreases out.len() - p,
        {
            p += 1;
        }
        let ghost before = match_views(out@);
        proof {
            if p < out@.len() {
                lemma_ranked_total(before[p as int], x);
            }
            assert forall|k: int| p <= k < before.len() implies ranked_le(x, #[trigger] before[k]) by {
                if p < out@.len() {
                    assert(ranked_le(x, before[p as int]));
                    if k > p {
                        assert(ranking()(before[p as int], before[k]));
                        lemma_ranked_trans(x, before[p as int], before[k]);
                    }
                }
            }
        }
        out.insert(p, FileSearchResult { path: kept[j].path.clone(), score: xs });
        proof {
            let after = match_views(out@);
            assert(after =~= before.insert(p as int, x));
            assert forall|a: int, b: int| 0 <= a < b < after.len() implies #[trigger] ranking()(after[a], after[b]) by {
                if a < p && b == p {
                } else if a < p && b > p {
                    assert(ranking()(before[a], before[b - 1]));
                } else if a == p {
                } else if a > p {
                    assert(ranking()(before[a - 1], before[b - 1]));
                } else {
                    assert(ranking()(before[a], before[b]));
                }
            }
            assert(kv.take(j + 1) =~= kv.take(j as int).push(x));
            vstd::seq_lib::to_multiset_build(kv.take(j as int), x);
            vstd::seq_lib::to_multiset_insert(before, p as int, x);
        }
        j += 1;
    }
    assert(kv.take(j as int) =~= kv);
    let ghost full = match_views(out@);
    let keep = if out.len() < max_results {
        out.len()
    } else {
        max_results
    };
    out.truncate(keep);
    assert(match_views(out@) =~= full.take(keep as int));
    assert(full.to_multiset() == kept_all.to_multiset() && sorted_by(full, ranking()) && match_views(out@)
        == full.take(match_views(out@).len() as int));
    out
}


/// The file of a ripgrep `--json` line that reports a match: the line read as
/// JSON is an object of `type` `match` whose `data.path.text` is a non-empty
/// text; nothing for any other line.
pub open spec fn match_file_spec(line: Seq<char>) -> Option<Seq<char>> {
    match json_of(line) {
        Some(j) => if get_str(j, "type"@) == Some("match"@) {
            match get_spec(j, "data"@) {
                Some(d) => match get_spec(d, "path"@) {
                    Some(p) => match get_str(p, "text"@) {
                        Some(t) => if t.len() > 0 {
                            Some(t)
                        } else {
                            None
                        },
                        None => None,
                    },
                    None => None,
                },
                None => None,
            }
        } else {
            None
        },
        None => None,
    }
}

/// The file of a ripgrep `--json` match line (see `match_file_spec`).
pub fn match_file(line: &str) -> (r: Option<String>)
    ensures
        opt_string(r) == match_file_spec(line@),
{
    let j = parse_json(line)?;
    let kind = json_get_str(&j, "type")?;
    if !eq_str(chars_of(kind.as_str()).as_slice(), "match") {
        return None;
    }
    let d = json_get(&j, "data")?;
    let p = json_get(d, "path")?;
    let t = json_get_str(p, "text")?;
    if t.as_str().is_empty() {
        return None;
    }
    Some(t)
}


/// How file-name matches rank: a name that contains the pattern scores at
/// least 80; a file whose name does not contain it but whose path does scores
/// exactly 60, so it is listed (above zero) and below every name match; a
/// file whose name and path both miss it scores at most 40.
pub proof fn law_file_score_tiers(name: Seq<char>, path: Seq<char>, pattern: Seq<char>)
    ensures
        contains(ascii_lower(name), pattern) ==> file_score(name, path, pattern) >= 80,
        !contains(ascii_lower(name), pattern) && contains(ascii_lower(path), pattern) ==> file_score(
            name,
            path,
            pattern,
        ) == 60,
        !contains(ascii_lower(name), pattern) && !contains(ascii_lower(path), pattern) ==> 0 <= file_score(
            name,
            path,
            pattern,
        ) <= 40,
        ascii_lower(name) == pattern ==> file_score(name, path, pattern) == 100,
        !contains(ascii_lower(name), pattern) && !contains(ascii_lower(path), pattern) ==> (file_score(
            name,
            path,
            pattern,
        ) > 0 <==> greedy_match(ascii_lower(name), pattern, 0) == pattern.len()),
        !contains(ascii_lower(name), pattern) && !contains(ascii_lower(path), pattern) && greedy_match(
            ascii_lower(name),
            pattern,
            0,
        ) == pattern.len() ==> 10 <= file_score(name, path, pattern),
{
    let ln = ascii_lower(name);
    if ln == pattern {
        assert(occurs_at(ln, pattern, 0)) by {
            assert(ln.subrange(0, pattern.len() as int) =~= pattern);
        }
    }
    lemma_greedy_grows_by_one(ln, pattern, 0);
}

/// Reading a name advances the match by at most one per character.
proof fn lemma_greedy_grows_by_one(name: Seq<char>, pat: Seq<char>, k: nat)
    ensures
        greedy_match(name, pat, k) <= k + name.len(),
    decreases name.len(),
{
    if name.len() > 0 {
        if k < pat.len() && name[0] == pat[k as int] {
            lemma_greedy_grows_by_one(name.drop_first(), pat, k + 1);
        } else {
            lemma_greedy_grows_by_one(name.drop_first(), pat, k);
        }
    }
}

} // verus!
