//! Markdown rendering for the terminal: how each line is classified and cut
//! into styled spans, and how streamed text is split into lines. The caller
//! prints the spans in their colours.
use vstd::prelude::*;

use crate::text::{
    chars_of, eq_str, index_of_any, index_of_char_from, is_ws, lowercase, push_chars, slice_chars, starts_with, starts_with_str,
    string_from_chars, to_lowercase, trim, trim_chars, trim_start, trim_start_index,
};

verus! {

/// The comment marker of a code block's language: `#` for Python, shells, YAML
/// and TOML, `--` for SQL, `//` otherwise.
pub open spec fn comment_prefix(lang: Seq<char>) -> Seq<char> {
    if lang == "python"@ || lang == "py"@ || lang == "bash"@ || lang == "sh"@ || lang == "zsh"@
        || lang == "yaml"@ || lang == "yml"@ || lang == "toml"@ {
        "#"@
    } else if lang == "sql"@ {
        "--"@
    } else {
        "//"@
    }
}

/// The comment marker of a code block's language (see `comment_prefix`).
pub fn code_comment_prefix(lang: &str) -> (r: &'static str)
    ensures
        r@ == comment_prefix(lang@),
{
    let l = chars_of(lang);
    let s = l.as_slice();
    if eq_str(s, "python") || eq_str(s, "py") || eq_str(s, "bash") || eq_str(s, "sh") || eq_str(
        s,
        "zsh",
    ) || eq_str(s, "yaml") || eq_str(s, "yml") || eq_str(s, "toml") {
        "#"
    } else if eq_str(s, "sql") {
        "--"
    } else {
        "//"
    }
}

/// Whether a comment starts at `current` (followed by `next`) under `prefix`:
/// `#` starts one by itself, `--` and anything else need the two characters.
pub open spec fn comment_starts(current: char, next: Option<char>, prefix: Seq<char>) -> bool {
    if prefix == "#"@ {
        current == '#'
    } else if prefix == "--"@ {
        current == '-' && next == Some('-')
    } else {
        current == '/' && next == Some('/')
    }
}

/// Whether a comment starts here (see `comment_starts`).
pub fn is_comment_start(current: char, next: Option<char>, prefix: &str) -> (r: bool)
    ensures
        r == comment_starts(current, next, prefix@),
{
    let p = chars_of(prefix);
    if eq_str(p.as_slice(), "#") {
        current == '#'
    } else if eq_str(p.as_slice(), "--") {
        current == '-' && next == Some('-')
    } else {
        current == '/' && next == Some('/')
    }
}

/// Number of `#` characters at the start of `s`.
pub open spec fn hash_run(s: Seq<char>) -> nat
    decreases s.len(),
{
    if s.len() > 0 && s[0] == '#' {
        1 + hash_run(s.drop_first())
    } else {
        0
    }
}

/// Facts about `hash_run`.
proof fn lemma_hash_run(s: Seq<char>)
    ensures
        hash_run(s) <= s.len(),
        forall|j: int| 0 <= j < hash_run(s) ==> s[j] == '#',
        hash_run(s) < s.len() ==> s[hash_run(s) as int] != '#',
    decreases s.len(),
{
    if s.len() > 0 && s[0] == '#' {
        lemma_hash_run(s.drop_first());
        assert forall|j: int| 0 <= j < hash_run(s) implies s[j] == '#' by {
            if j > 0 {
                assert(s[j] == s.drop_first()[j - 1]);
            }
        }
    }
}

/// A Markdown heading: one to six `#` followed by a space.
pub open spec fn heading(trimmed: Seq<char>) -> bool {
    let level = hash_run(trimmed);
    0 < level <= 6 && level < trimmed.len() && trimmed[level as int] == ' '
}

/// Whether a (start-trimmed) line is a heading (see `heading`).
pub fn is_heading_line(trimmed: &str) -> (r: bool)
    ensures
        r == heading(trimmed@),
{
    let s = chars_of(trimmed);
    let mut level: usize = 0;
    proof {
        lemma_hash_run(s@);
    }
    assert(s@.skip(0) == s@);
    while level < s.len() && s[level] == '#'
        invariant
            level <= s.len(),
            hash_run(s@) == level + hash_run(s@.skip(level as int)),
        decreases s.len() - level,
    {
        assert(s@.skip(level as int).drop_first() == s@.skip(level + 1));
        level += 1;
    }
    assert(hash_run(s@.skip(level as int)) == 0);
    level > 0 && level <= 6 && level < s.len() && s[level] == ' '
}

/// Number of ASCII digits at the start of `s`.
pub open spec fn digit_run(s: Seq<char>) -> nat
    decreases s.len(),
{
    if s.len() > 0 && '0' <= s[0] && s[0] <= '9' {
        1 + digit_run(s.drop_first())
    } else {
        0
    }
}

/// The parts of a list item line: its indentation, its marker (`- `, `* ` or
/// digits followed by `. `) and the rest.
pub open spec fn list_prefix(line: Seq<char>) -> Option<(Seq<char>, Seq<char>, Seq<char>)> {
    let body = trim_start(line);
    let indent = line.take(line.len() - body.len());
    if starts_with(body, "- "@) {
        Some((indent, "- "@, body.skip(2)))
    } else if starts_with(body, "* "@) {
        Some((indent, "* "@, body.skip(2)))
    } else {
        let d = digit_run(body) as int;
        if d > 0 && d + 2 <= body.len() && body[d] == '.' && body[d + 1] == ' ' {
            Some((indent, body.take(d + 2), body.skip(d + 2)))
        } else {
            None
        }
    }
}

/// Splits a list item line into indentation, marker and rest (see `list_prefix`).
pub fn split_list_prefix(line: &str) -> (r: Option<(String, String, String)>)
    ensures
        match (r, list_prefix(line@)) {
            (Some((a, b, c)), Some((x, y, z))) => a@ == x && b@ == y && c@ == z,
            (None, None) => true,
            _ => false,
        },
{
    let s = chars_of(line);
    let n = s.len();
    let k = trim_start_index(s.as_slice());
    let ghost body = trim_start(line@);
    assert(body.len() == n - k);
    let indent = slice_chars(s.as_slice(), 0, k);
    let b = slice_chars(s.as_slice(), k, n);
    assert(b@ == body);
    if starts_with_str(b.as_slice(), "- ") || starts_with_str(b.as_slice(), "* ") {
        proof {
            reveal_strlit("- ");
            reveal_strlit("* ");
        }
        let marker = slice_chars(b.as_slice(), 0, 2);
        let rest = slice_chars(b.as_slice(), 2, b.len());
        proof {
            reveal_strlit("- ");
            reveal_strlit("* ");
            assert(rest@ == body.skip(2));
            assert(marker@ == body.take(2));
        }
        return Some(
            (
                string_from_chars(indent.as_slice()),
                string_from_chars(marker.as_slice()),
                string_from_chars(rest.as_slice()),
            ),
        );
    }
    let mut d: usize = 0;
    assert(b@.skip(0) == b@);
    while d < b.len() && '0' <= b[d] && b[d] <= '9'
        invariant
            d <= b.len(),
            digit_run(b@) == d + digit_run(b@.skip(d as int)),
        decreases b.len() - d,
    {
        assert(b@.skip(d as int).drop_first() == b@.skip(d + 1));
        d += 1;
    }
    assert(digit_run(b@.skip(d as int)) == 0);
    if d > 0 && d < b.len() && b.len() - d >= 2 && b[d] == '.' && b[d + 1] == ' ' {
        let marker = slice_chars(b.as_slice(), 0, d + 2);
        let rest = slice_chars(b.as_slice(), d + 2, b.len());
        return Some(
            (
                string_from_chars(indent.as_slice()),
                string_from_chars(marker.as_slice()),
                string_from_chars(rest.as_slice()),
            ),
        );
    }
    None
}

/// Whether `word` is one of `list`.
fn one_of(word: &[char], list: &[&'static str]) -> (r: bool)
    ensures
        r == list@.map_values(|s: &'static str| s@).contains(word@),
{
    let ghost views = list@.map_values(|s: &'static str| s@);
    let mut i: usize = 0;
    while i < list.len()
        invariant
            i <= list.len(),
            views == list@.map_values(|s: &'static str| s@),
            forall|j: int| 0 <= j < i ==> views[j] != word@,
        decreases list.len() - i,
    {
        if eq_str(word, list[i]) {
            assert(views[i as int] == word@);
            return true;
        }
        i += 1;
    }
    false
}

/// The Rust keywords that are highlighted.
pub open spec fn rust_keywords() -> Seq<Seq<char>> {
    seq![
        "fn"@, "let"@, "mut"@, "pub"@, "struct"@, "enum"@, "impl"@, "trait"@, "match"@, "if"@,
        "else"@, "for"@, "while"@, "loop"@, "return"@, "use"@, "mod"@, "async"@, "await"@,
        "where"@, "const"@, "static"@,
    ]
}

/// The TypeScript and JavaScript keywords that are highlighted.
pub open spec fn script_keywords() -> Seq<Seq<char>> {
    seq![
        "function"@, "const"@, "let"@, "var"@, "return"@, "if"@, "else"@, "for"@, "while"@,
        "class"@, "import"@, "export"@, "from"@, "async"@, "await"@, "try"@, "catch"@, "throw"@,
        "new"@, "interface"@, "type"@,
    ]
}

/// The Python keywords that are highlighted.
pub open spec fn python_keywords() -> Seq<Seq<char>> {
    seq![
        "def"@, "class"@, "return"@, "if"@, "elif"@, "else"@, "for"@, "while"@, "import"@,
        "from"@, "try"@, "except"@, "finally"@, "with"@, "as"@, "async"@, "await"@, "lambda"@,
    ]
}

/// The shell keywords that are highlighted.
pub open spec fn shell_keywords() -> Seq<Seq<char>> {
    seq!["if"@, "then"@, "else"@, "fi"@, "for"@, "do"@, "done"@, "case"@, "esac"@, "function"@]
}

/// The JSON literals that are highlighted.
pub open spec fn json_keywords() -> Seq<Seq<char>> {
    seq!["true"@, "false"@, "null"@]
}

/// Whether `word` is highlighted as a keyword of `lang`.
pub open spec fn lang_keyword(lang: Seq<char>, word: Seq<char>) -> bool {
    if lang == "rust"@ || lang == "rs"@ {
        rust_keywords().contains(word)
    } else if lang == "typescript"@ || lang == "ts"@ || lang == "javascript"@ || lang == "js"@
        || lang == "tsx"@ || lang == "jsx"@ {
        script_keywords().contains(word)
    } else if lang == "python"@ || lang == "py"@ {
        python_keywords().contains(word)
    } else if lang == "bash"@ || lang == "sh"@ || lang == "zsh"@ {
        shell_keywords().contains(word)
    } else if lang == "json"@ {
        json_keywords().contains(word)
    } else {
        false
    }
}

/// Whether `word` is a keyword of `lang` (see `lang_keyword`).
pub fn is_lang_keyword(lang: &str, word: &str) -> (r: bool)
    ensures
        r == lang_keyword(lang@, word@),
{
    let l = chars_of(lang);
    let w = chars_of(word);
    let l = l.as_slice();
    let w = w.as_slice();
    if eq_str(l, "rust") || eq_str(l, "rs") {
        let list: Vec<&'static str> = vec![
            "fn", "let", "mut", "pub", "struct", "enum", "impl", "trait", "match", "if", "else",
            "for", "while", "loop", "return", "use", "mod", "async", "await", "where", "const",
            "static",
        ];
        assert(list@.map_values(|s: &'static str| s@) =~= rust_keywords());
        one_of(w, list.as_slice())
    } else if eq_str(l, "typescript") || eq_str(l, "ts") || eq_str(l, "javascript") || eq_str(
        l,
        "js",
    ) || eq_str(l, "tsx") || eq_str(l, "jsx") {
        let list: Vec<&'static str> = vec![
            "function", "const", "let", "var", "return", "if", "else", "for", "while", "class",
            "import", "export", "from", "async", "await", "try", "catch", "throw", "new",
            "interface", "type",
        ];
        assert(list@.map_values(|s: &'static str| s@) =~= script_keywords());
        one_of(w, list.as_slice())
    } else if eq_str(l, "python") || eq_str(l, "py") {
        let list: Vec<&'static str> = vec![
            "def", "class", "return", "if", "elif", "else", "for", "while", "import", "from",
            "try", "except", "finally", "with", "as", "async", "await", "lambda",
        ];
        assert(list@.map_values(|s: &'static str| s@) =~= python_keywords());
        one_of(w, list.as_slice())
    } else if eq_str(l, "bash") || eq_str(l, "sh") || eq_str(l, "zsh") {
        let list: Vec<&'static str> = vec![
            "if", "then", "else", "fi", "for", "do", "done", "case", "esac", "function",
        ];
        assert(list@.map_values(|s: &'static str| s@) =~= shell_keywords());
        one_of(w, list.as_slice())
    } else if eq_str(l, "json") {
        let list: Vec<&'static str> = vec!["true", "false", "null"];
        assert(list@.map_values(|s: &'static str| s@) =~= json_keywords());
        one_of(w, list.as_slice())
    } else {
        false
    }
}

/// The colour a span of text is printed in.
#[derive(Debug, Clone, Copy, PartialEq, Eq, Structural)]
pub enum SpanStyle {
    Plain,
    DarkGrey,
    CyanBold,
    Cyan,
    Yellow,
    DarkGreen,
    DarkCyan,
    DarkYellow,
}

/// A piece of text and its colour.
#[derive(Debug)]
pub struct Span {
    pub style: SpanStyle,
    pub text: String,
}

impl View for Span {
    type V = (SpanStyle, Seq<char>);

    open spec fn view(&self) -> (SpanStyle, Seq<char>) {
        (self.style, self.text@)
    }
}

/// The views of a list of spans.
pub open spec fn span_views(v: Seq<Span>) -> Seq<(SpanStyle, Seq<char>)> {
    v.map_values(|s: Span| s@)
}

/// Appends a span with the text `text`.
fn push_span(out: &mut Vec<Span>, style: SpanStyle, text: &[char])
    ensures
        span_views(final(out)@) == span_views(old(out)@).push((style, text@)),
{
    out.push(Span { style, text: string_from_chars(text) });
    assert(span_views(out@) =~= span_views(old(out)@).push((style, text@)));
}

/// The colour of text inside (yellow) or outside inline code.
pub open spec fn inline_style(in_code: bool) -> SpanStyle {
    if in_code {
        SpanStyle::Yellow
    } else {
        SpanStyle::Plain
    }
}

/// Where the inline scan of a line stands.
pub struct InlineScan {
    pub in_code: bool,
    pub buf: Seq<char>,
    pub out: Seq<(SpanStyle, Seq<char>)>,
}

/// The inline scan after the first `i` characters of `line`: each backquote
/// ends the current run of text and switches in or out of inline code.
pub open spec fn inline_scan(line: Seq<char>, i: nat) -> InlineScan
    decreases i,
{
    if i == 0 {
        InlineScan { in_code: false, buf: Seq::empty(), out: Seq::empty() }
    } else {
        let st = inline_scan(line, (i - 1) as nat);
        let ch = line[i - 1];
        if ch == '`' {
            InlineScan {
                in_code: !st.in_code,
                buf: Seq::empty(),
                out: if st.buf.len() > 0 {
                    st.out.push((inline_style(st.in_code), st.buf))
                } else {
                    st.out
                },
            }
        } else {
            InlineScan { buf: st.buf.push(ch), ..st }
        }
    }
}

/// The spans of a line of prose: inline code in yellow, the backquotes dropped.
pub open spec fn inline_spans(line: Seq<char>) -> Seq<(SpanStyle, Seq<char>)> {
    let st = inline_scan(line, line.len());
    if st.buf.len() > 0 {
        st.out.push((inline_style(st.in_code), st.buf))
    } else {
        st.out
    }
}

/// Appends the spans of a line of prose (see `inline_spans`).
pub fn render_inline_markdown(line: &[char], out: &mut Vec<Span>)
    ensures
        span_views(final(out)@) == span_views(old(out)@) + inline_spans(line@),
{
    let ghost start = span_views(out@);
    let mut in_code = false;
    let mut buf: Vec<char> = Vec::new();
    let mut i: usize = 0;
    while i < line.len()
        invariant
            i <= line.len(),
            inline_scan(line@, i as nat).in_code == in_code,
            inline_scan(line@, i as nat).buf == buf@,
            span_views(out@) == start + inline_scan(line@, i as nat).out,
        decreases line.len() - i,
    {
        let ch = line[i];
        if ch == '`' {
            if buf.len() > 0 {
                let style = if in_code {
                    SpanStyle::Yellow
                } else {
                    SpanStyle::Plain
                };
                push_span(out, style, buf.as_slice());
                buf = Vec::new();
            }
            in_code = !in_code;
            assert(buf@ =~= Seq::<char>::empty());
        } else {
            buf.push(ch);
        }
        i += 1;
    }
    if buf.len() > 0 {
        let style = if in_code {
            SpanStyle::Yellow
        } else {
            SpanStyle::Plain
        };
        push_span(out, style, buf.as_slice());
    }
    assert(span_views(out@) =~= start + inline_spans(line@));
}

/// Whether `c` is alphabetic or numeric in Unicode, as `char::is_alphanumeric`
/// says: a function of the character alone.
pub uninterp spec fn alphanumeric(c: char) -> bool;

/// `char::is_alphanumeric`.
#[verifier::external_body]
fn is_alphanumeric(c: char) -> (r: bool)
    ensures
        r == alphanumeric(c),
{
    c.is_alphanumeric()
}

/// A word made of ASCII digits only.
pub open spec fn all_digits(w: Seq<char>) -> bool {
    forall|i: int| 0 <= i < w.len() ==> '0' <= #[trigger] w[i] && w[i] <= '9'
}

/// The colour of a word of code: numbers dark yellow, keywords cyan and bold,
/// other words dark cyan.
pub open spec fn word_style(w: Seq<char>, lang: Seq<char>) -> SpanStyle {
    if all_digits(w) {
        SpanStyle::DarkYellow
    } else if lang_keyword(lang, w) {
        SpanStyle::CyanBold
    } else {
        SpanStyle::DarkCyan
    }
}

/// The span of a pending word of code, if there is one.
pub open spec fn word_spans(w: Seq<char>, lang: Seq<char>) -> Seq<(SpanStyle, Seq<char>)> {
    if w.len() == 0 {
        Seq::empty()
    } else {
        seq![(word_style(w, lang), w)]
    }
}

/// Where the scan of a line of code stands.
pub struct CodeScan {
    pub in_string: Option<char>,
    pub string_buf: Seq<char>,
    pub word: Seq<char>,
    pub out: Seq<(SpanStyle, Seq<char>)>,
    /// A comment took the rest of the line.
    pub done: bool,
}

/// The scan of a line of code in `lang` after its first `i` characters: string
/// literals run to their closing quote (not one preceded by a backslash), a
/// comment takes the rest of the line, words gather letters, digits and `_`, and
/// every other character is a span of its own.
pub open spec fn code_scan(line: Seq<char>, lang: Seq<char>, i: nat) -> CodeScan
    decreases i,
{
    if i == 0 {
        CodeScan {
            in_string: None,
            string_buf: Seq::empty(),
            word: Seq::empty(),
            out: Seq::empty(),
            done: false,
        }
    } else {
        let st = code_scan(line, lang, (i - 1) as nat);
        let k = i - 1;
        let ch = line[k];
        let next = if i < line.len() {
            Some(line[i as int])
        } else {
            None
        };
        if st.done {
            st
        } else {
            match st.in_string {
                Some(q) => {
                    let sb = st.string_buf.push(ch);
                    if ch == q && !(sb.len() >= 2 && sb[sb.len() - 2] == '\\') {
                        CodeScan {
                            in_string: None,
                            string_buf: Seq::empty(),
                            out: st.out.push((SpanStyle::Yellow, sb)),
                            ..st
                        }
                    } else {
                        CodeScan { string_buf: sb, ..st }
                    }
                },
                None => if comment_starts(ch, next, comment_prefix(lang)) {
                    CodeScan {
                        word: Seq::empty(),
                        out: st.out + word_spans(st.word, lang) + seq![
                            (SpanStyle::DarkGreen, line.skip(k)),
                        ],
                        done: true,
                        ..st
                    }
                } else if ch == '"' || ch == '\'' {
                    CodeScan {
                        word: Seq::empty(),
                        out: st.out + word_spans(st.word, lang),
                        in_string: Some(ch),
                        string_buf: st.string_buf.push(ch),
                        ..st
                    }
                } else if alphanumeric(ch) || ch == '_' {
                    CodeScan { word: st.word.push(ch), ..st }
                } else {
                    CodeScan {
                        word: Seq::empty(),
                        out: st.out + word_spans(st.word, lang) + seq![
                            (SpanStyle::DarkCyan, seq![ch]),
                        ],
                        ..st
                    }
                },
            }
        }
    }
}

/// The spans of a line of code: the scan's spans, then the last word and an
/// unclosed string (dark yellow), unless a comment ended the line.
pub open spec fn code_spans(line: Seq<char>, lang: Seq<char>) -> Seq<(SpanStyle, Seq<char>)> {
    let st = code_scan(line, lang, line.len());
    if st.done {
        st.out
    } else {
        st.out + word_spans(st.word, lang) + if st.string_buf.len() > 0 {
            seq![(SpanStyle::DarkYellow, st.string_buf)]
        } else {
            Seq::empty()
        }
    }
}

/// Appends the span of a pending word of code (see `word_spans`).
fn flush_code_word(word: &[char], lang: &str, out: &mut Vec<Span>)
    ensures
        span_views(final(out)@) == span_views(old(out)@) + word_spans(word@, lang@),
{
    if word.len() == 0 {
        assert(span_views(out@) =~= span_views(old(out)@) + word_spans(word@, lang@));
        return;
    }
    let mut digits = true;
    let mut i: usize = 0;
    while i < word.len()
        invariant
            i <= word.len(),
            digits == forall|j: int| 0 <= j < i ==> '0' <= #[trigger] word@[j] && word@[j] <= '9',
        decreases word.len() - i,
    {
        if !('0' <= word[i] && word[i] <= '9') {
            digits = false;
        }
        i += 1;
    }
    let text = string_from_chars(word);
    let style = if digits {
        SpanStyle::DarkYellow
    } else if is_lang_keyword(lang, text.as_str()) {
        SpanStyle::CyanBold
    } else {
        SpanStyle::DarkCyan
    };
    push_span(out, style, word);
    assert(span_views(out@) =~= span_views(old(out)@) + word_spans(word@, lang@));
}

/// Appends the spans of a line of code in `lang` (see `code_spans`).
pub fn render_code_line(line: &[char], lang: &str, out: &mut Vec<Span>)
    ensures
        span_views(final(out)@) == span_views(old(out)@) + code_spans(line@, lang@),
{
    let ghost start = span_views(out@);
    let prefix = code_comment_prefix(lang);
    let n = line.len();
    let mut in_string: Option<char> = None;
    let mut string_buf: Vec<char> = Vec::new();
    let mut word: Vec<char> = Vec::new();
    let mut done = false;
    let mut i: usize = 0;
    while i < n
        invariant
            i <= n == line.len(),
            prefix@ == comment_prefix(lang@),
            code_scan(line@, lang@, i as nat).in_string == in_string,
            code_scan(line@, lang@, i as nat).string_buf == string_buf@,
            code_scan(line@, lang@, i as nat).word == word@,
            code_scan(line@, lang@, i as nat).done == done,
            span_views(out@) == start + code_scan(line@, lang@, i as nat).out,
        decreases n - i,
    {
        let ch = line[i];
        let next = if i + 1 < n {
            Some(line[i + 1])
        } else {
            None
        };
        let ghost before = span_views(out@);
        if done {
        } else if let Some(q) = in_string {
            string_buf.push(ch);
            let len = string_buf.len();
            let escaped = len >= 2 && string_buf[len - 2] == '\\';
            if ch == q && !escaped {
                push_span(out, SpanStyle::Yellow, string_buf.as_slice());
                string_buf = Vec::new();
                in_string = None;
                assert(string_buf@ =~= Seq::<char>::empty());
            }
        } else if is_comment_start(ch, next, prefix) {
            flush_code_word(word.as_slice(), lang, out);
            word = Vec::new();
            let rest = slice_chars(line, i, n);
            push_span(out, SpanStyle::DarkGreen, rest.as_slice());
            done = true;
            proof {
                assert(rest@ =~= line@.skip(i as int));
                assert(word@ =~= Seq::<char>::empty());
                assert(span_views(out@) =~= before + word_spans(code_scan(line@, lang@, i as nat).word, lang@) + seq![(SpanStyle::DarkGreen, line@.skip(i as int))]);
            }
        } else if ch == '"' || ch == '\'' {
            flush_code_word(word.as_slice(), lang, out);
            word = Vec::new();
            in_string = Some(ch);
            string_buf.push(ch);
            assert(word@ =~= Seq::<char>::empty());
        } else if is_alphanumeric(ch) || ch == '_' {
            word.push(ch);
        } else {
            flush_code_word(word.as_slice(), lang, out);
            word = Vec::new();
            let mut one: Vec<char> = Vec::new();
            one.push(ch);
            push_span(out, SpanStyle::DarkCyan, one.as_slice());
            proof {
                assert(one@ =~= seq![ch]);
                assert(word@ =~= Seq::<char>::empty());
                assert(span_views(out@) =~= before + word_spans(code_scan(line@, lang@, i as nat).word, lang@) + seq![(SpanStyle::DarkCyan, seq![ch])]);
            }
        }
        i += 1;
    }
    if !done {
        flush_code_word(word.as_slice(), lang, out);
        if string_buf.len() > 0 {
            push_span(out, SpanStyle::DarkYellow, string_buf.as_slice());
        }
    }
    assert(span_views(out@) =~= start + code_spans(line@, lang@));
}

/// `s` without every leading run of three backquotes, as
/// `trim_start_matches("```")` gives it.
pub open spec fn strip_fences(s: Seq<char>) -> Seq<char>
    decreases s.len(),
{
    if s.len() >= 3 && s.take(3) == "```"@ {
        strip_fences(s.skip(3))
    } else {
        s
    }
}

/// What rendering one line gives: whether a code block is open after it, the
/// language of that block, and the spans of the line.
pub open spec fn render_line_spec(in_code: bool, lang: Seq<char>, line: Seq<char>) -> (
    bool,
    Seq<char>,
    Seq<(SpanStyle, Seq<char>)>,
) {
    let t = trim_start(line);
    if starts_with(t, "```"@) {
        if in_code {
            (false, Seq::empty(), seq![(SpanStyle::DarkGrey, line)])
        } else {
            (true, lowercase(trim(strip_fences(t))), seq![(SpanStyle::DarkGrey, line)])
        }
    } else if in_code {
        (in_code, lang, code_spans(line, lang))
    } else if heading(t) {
        (in_code, lang, seq![(SpanStyle::CyanBold, line)])
    } else if starts_with(t, "> "@) {
        (in_code, lang, seq![(SpanStyle::DarkGrey, line)])
    } else {
        match list_prefix(line) {
            Some((indent, marker, rest)) => (
                in_code,
                lang,
                seq![(SpanStyle::Plain, indent), (SpanStyle::Cyan, marker)] + inline_spans(rest),
            ),
            None => (in_code, lang, inline_spans(line)),
        }
    }
}

/// Number of bytes of `c` in UTF-8.
pub open spec fn utf8_width(c: char) -> nat {
    if (c as u32) < 0x80 {
        1
    } else if (c as u32) < 0x800 {
        2
    } else if (c as u32) < 0x10000 {
        3
    } else {
        4
    }
}

/// Number of bytes of `s` in UTF-8.
pub open spec fn utf8_len(s: Seq<char>) -> nat
    decreases s.len(),
{
    if s.len() == 0 {
        0
    } else {
        utf8_len(s.drop_last()) + utf8_width(s.last())
    }
}

/// UTF-8 lengths add up.
proof fn lemma_utf8_len_concat(a: Seq<char>, b: Seq<char>)
    ensures
        utf8_len(a + b) == utf8_len(a) + utf8_len(b),
    decreases b.len(),
{
    if b.len() > 0 {
        lemma_utf8_len_concat(a, b.drop_last());
        assert((a + b).drop_last() =~= a + b.drop_last());
    } else {
        assert(a + b =~= a);
    }
}

/// How many bytes of a partial line are shown before its end arrives.
pub const STREAM_FLUSH_THRESHOLD: usize = 16;

/// Whether `s[from..]` takes at least 16 bytes in UTF-8.
fn unflushed_reaches_threshold(s: &[char], from: usize) -> (r: bool)
    requires
        from <= s.len(),
    ensures
        r == (utf8_len(s@.skip(from as int)) >= 16),
{
    let mut acc: usize = 0;
    let mut k: usize = from;
    assert(s@.subrange(from as int, from as int) =~= Seq::<char>::empty());
    while k < s.len()
        invariant
            from <= k <= s.len(),
            acc == utf8_len(s@.subrange(from as int, k as int)),
            acc < 16,
        decreases s.len() - k,
    {
        let c = s[k];
        let w: usize = if (c as u32) < 0x80 {
            1
        } else if (c as u32) < 0x800 {
            2
        } else if (c as u32) < 0x10000 {
            3
        } else {
            4
        };
        assert(s@.subrange(from as int, k + 1).drop_last() =~= s@.subrange(from as int, k as int));
        acc = acc + w;
        k += 1;
        if acc >= STREAM_FLUSH_THRESHOLD {
            proof {
                lemma_utf8_len_concat(s@.subrange(from as int, k as int), s@.skip(k as int));
                assert(s@.subrange(from as int, k as int) + s@.skip(k as int) =~= s@.skip(from as int));
            }
            return true;
        }
    }
    assert(s@.subrange(from as int, s.len() as int) =~= s@.skip(from as int));
    false
}

/// The state of the streaming renderer: text not yet ended by a line break, how
/// much of it is already shown, and the open code block.
pub struct MarkdownStreamRenderer {
    pending: Vec<char>,
    flushed_prefix: usize,
    in_code_block: bool,
    code_lang: String,
}

/// The view of the streaming renderer.
pub struct StreamModel {
    pub pending: Seq<char>,
    pub flushed: int,
    pub in_code: bool,
    pub lang: Seq<char>,
}

impl View for MarkdownStreamRenderer {
    type V = StreamModel;

    closed spec fn view(&self) -> StreamModel {
        StreamModel {
            pending: self.pending@,
            flushed: self.flushed_prefix as int,
            in_code: self.in_code_block,
            lang: self.code_lang@,
        }
    }
}

/// A consistent renderer state: the shown part is a part of the pending text.
pub open spec fn stream_wf(st: StreamModel) -> bool {
    0 <= st.flushed <= st.pending.len()
}

/// The state after rendering a whole line.
pub open spec fn after_line(st: StreamModel, line: Seq<char>) -> (StreamModel, Seq<(SpanStyle, Seq<char>)>) {
    let already: int = if st.flushed < line.len() {
        st.flushed
    } else {
        line.len() as int
    };
    if already > 0 {
        (st, seq![(SpanStyle::Plain, line.skip(already))])
    } else {
        let (c, l, spans) = render_line_spec(st.in_code, st.lang, line);
        (StreamModel { in_code: c, lang: l, ..st }, spans)
    }
}

/// Renders every complete line of the pending text: a line partly shown already
/// gets only its rest, unstyled; each line is followed by a line break.
pub open spec fn drain_lines(st: StreamModel) -> (StreamModel, Seq<(SpanStyle, Seq<char>)>)
    decreases st.pending.len(),
{
    let i = index_of_any(st.pending, seq!['\n']);
    proof {
        crate::text::lemma_index_of_any(st.pending, seq!['\n']);
    }
    if i >= st.pending.len() {
        (st, Seq::empty())
    } else {
        let line = st.pending.take(i);
        let (st2, spans) = after_line(st, line);
        let st3 = StreamModel { pending: st.pending.skip(i + 1), flushed: 0, ..st2 };
        let (st4, more) = drain_lines(st3);
        (st4, spans + seq![(SpanStyle::Plain, seq!['\n'])] + more)
    }
}

/// What a streamed chunk does: it is added to the pending text, the complete
/// lines are rendered, and an unfinished line is shown unstyled once at least
/// 16 bytes of it are not shown yet.
pub open spec fn stream_chunk_spec(st: StreamModel, chunk: Seq<char>) -> (StreamModel, Seq<(SpanStyle, Seq<char>)>) {
    let (st1, out) = drain_lines(StreamModel { pending: st.pending + chunk, ..st });
    if utf8_len(st1.pending.skip(st1.flushed)) >= 16 {
        (
            StreamModel { flushed: st1.pending.len() as int, ..st1 },
            out.push((SpanStyle::Plain, st1.pending.skip(st1.flushed))),
        )
    } else {
        (st1, out)
    }
}

/// What the end of a stream does: the rest of the pending text is rendered as a
/// line (or shown unstyled, if part of it is shown already), without a line break.
pub open spec fn flush_spec(st: StreamModel) -> (StreamModel, Seq<(SpanStyle, Seq<char>)>) {
    if st.pending.len() == 0 {
        (st, Seq::empty())
    } else {
        let (st2, spans) = after_line(st, st.pending);
        (StreamModel { pending: Seq::empty(), flushed: 0, ..st2 }, spans)
    }
}

/// `trim_start_matches("```")` on characters.
fn strip_fences_exec(s: &[char]) -> (r: Vec<char>)
    ensures
        r@ == strip_fences(s@),
{
    let mut i: usize = 0;
    assert(s@.skip(0) == s@);
    while s.len() - i >= 3 && s[i] == '`' && s[i + 1] == '`' && s[i + 2] == '`'
        invariant
            i <= s.len(),
            strip_fences(s@) == strip_fences(s@.skip(i as int)),
        decreases s.len() - i,
    {
        proof {
            reveal_strlit("```");
            assert(s@.skip(i as int).take(3) =~= "```"@);
            assert(s@.skip(i as int).skip(3) =~= s@.skip(i + 3));
        }
        i += 3;
    }
    proof {
        reveal_strlit("```");
        if s.len() - i >= 3 {
            assert(s@.skip(i as int).take(3) != "```"@) by {
                let t = s@.skip(i as int).take(3);
                if t == "```"@ {
                    assert(t[0] == '`' && t[1] == '`' && t[2] == '`');
                }
            }
        }
    }
    slice_chars(s, i, s.len())
}

impl MarkdownStreamRenderer {
    /// A renderer with nothing pending, outside any code block.
    pub fn new() -> (r: MarkdownStreamRenderer)
        ensures
            r@.pending.len() == 0,
            r@.flushed == 0,
            !r@.in_code,
            r@.lang.len() == 0,
    {
        MarkdownStreamRenderer {
            pending: Vec::new(),
            flushed_prefix: 0,
            in_code_block: false,
            code_lang: String::new(),
        }
    }

    /// Renders one line (see `render_line_spec`) and updates the code block state.
    fn render_markdown_line(&mut self, line: &[char], out: &mut Vec<Span>)
        ensures
            ({
                let (c, l, spans) = render_line_spec(old(self)@.in_code, old(self)@.lang, line@);
                &&& final(self)@ == StreamModel { in_code: c, lang: l, ..old(self)@ }
                &&& span_views(final(out)@) == span_views(old(out)@) + spans
            }),
    {
        let k = trim_start_index(line);
        let t = slice_chars(line, k, line.len());
        if starts_with_str(t.as_slice(), "```") {
            if self.in_code_block {
                self.in_code_block = false;
                self.code_lang = String::new();
            } else {
                self.in_code_block = true;
                let stripped = strip_fences_exec(t.as_slice());
                let trimmed = trim_chars(stripped.as_slice());
                let text = string_from_chars(trimmed.as_slice());
                self.code_lang = to_lowercase(text.as_str());
            }
            push_span(out, SpanStyle::DarkGrey, line);
            return;
        }
        if self.in_code_block {
            render_code_line(line, self.code_lang.as_str(), out);
            return;
        }
        let text = string_from_chars(t.as_slice());
        if is_heading_line(text.as_str()) {
            push_span(out, SpanStyle::CyanBold, line);
            return;
        }
        if starts_with_str(t.as_slice(), "> ") {
            push_span(out, SpanStyle::DarkGrey, line);
            return;
        }
        let whole = string_from_chars(line);
        match split_list_prefix(whole.as_str()) {
            Some((indent, marker, rest)) => {
                let i = chars_of(indent.as_str());
                let m = chars_of(marker.as_str());
                let r = chars_of(rest.as_str());
                push_span(out, SpanStyle::Plain, i.as_slice());
                push_span(out, SpanStyle::Cyan, m.as_slice());
                render_inline_markdown(r.as_slice(), out);
            },
            None => {
                render_inline_markdown(line, out);
            },
        }
    }

    /// Renders a whole line of the stream, of which the first `flushed_prefix`
    /// characters may be shown already (see `after_line`).
    fn finish_line(&mut self, line: &[char], out: &mut Vec<Span>)
        ensures
            ({
                let (st, spans) = after_line(old(self)@, line@);
                &&& final(self)@ == st
                &&& span_views(final(out)@) == span_views(old(out)@) + spans
            }),
    {
        let already = if self.flushed_prefix < line.len() {
            self.flushed_prefix
        } else {
            line.len()
        };
        if already > 0 {
            let rest = slice_chars(line, already, line.len());
            push_span(out, SpanStyle::Plain, rest.as_slice());
            assert(rest@ =~= line@.skip(already as int));
        } else {
            self.render_markdown_line(line, out);
        }
    }

    /// Takes a streamed chunk and gives the spans to print (see `stream_chunk_spec`).
    pub fn stream_markdown_chunk(&mut self, chunk: &str) -> (out: Vec<Span>)
        requires
            stream_wf(old(self)@),
        ensures
            (final(self)@, span_views(out@)) == stream_chunk_spec(old(self)@, chunk@),
            stream_wf(final(self)@),
    {
        let mut out: Vec<Span> = Vec::new();
        push_chars(&mut self.pending, chars_of(chunk).as_slice());
        let ghost first = self@;
        assert(first == StreamModel { pending: old(self)@.pending + chunk@, ..old(self)@ });
        loop
            invariant
                stream_wf(self@),
                drain_lines(first) == (drain_lines(self@).0, span_views(out@) + drain_lines(self@).1),
            ensures
                drain_lines(first) == (self@, span_views(out@)),
                stream_wf(self@),
            decreases self.pending.len(),
        {
            let ghost cur = self@;
            let n = self.pending.len();
            let j = index_of_char_from(self.pending.as_slice(), 0, '\n');
            assert(self.pending@.skip(0) == self.pending@);
            proof {
                crate::text::lemma_index_of_any(cur.pending, seq!['\n']);
            }
            if j == n {
                assert(drain_lines(cur) == (cur, Seq::<(SpanStyle, Seq<char>)>::empty()));
                assert(span_views(out@) + Seq::<(SpanStyle, Seq<char>)>::empty() =~= span_views(out@));
                break;
            }
            let line = slice_chars(self.pending.as_slice(), 0, j);
            let rest = slice_chars(self.pending.as_slice(), j + 1, n);
            let ghost before = span_views(out@);
            self.finish_line(line.as_slice(), &mut out);
            let ghost st2 = self@;
            let mut nl: Vec<char> = Vec::new();
            nl.push('\n');
            push_span(&mut out, SpanStyle::Plain, nl.as_slice());
            self.pending = rest;
            self.flushed_prefix = 0;
            proof {
                assert(line@ =~= cur.pending.take(j as int));
                assert(nl@ =~= seq!['\n']);
                assert(rest@ =~= cur.pending.skip(j + 1));
                let (s2, spans) = after_line(cur, line@);
                assert(s2 == st2);
                assert(self@ == StreamModel { pending: cur.pending.skip(j + 1), flushed: 0, ..st2 });
                assert(drain_lines(cur).1 == spans + seq![(SpanStyle::Plain, seq!['\n'])] + drain_lines(self@).1);
                assert(span_views(out@) == before + spans + seq![(SpanStyle::Plain, seq!['\n'])]);
                assert(span_views(out@) + drain_lines(self@).1 =~= before + drain_lines(cur).1);
            }
        }
        let ghost st1 = self@;
        if unflushed_reaches_threshold(self.pending.as_slice(), self.flushed_prefix) {
            let delta = slice_chars(self.pending.as_slice(), self.flushed_prefix, self.pending.len());
            push_span(&mut out, SpanStyle::Plain, delta.as_slice());
            self.flushed_prefix = self.pending.len();
            assert(delta@ =~= st1.pending.skip(st1.flushed));
        }
        out
    }

    /// Renders what is left at the end of a stream (see `flush_spec`).
    pub fn flush_markdown_pending(&mut self) -> (out: Vec<Span>)
        requires
            stream_wf(old(self)@),
        ensures
            (final(self)@, span_views(out@)) == flush_spec(old(self)@),
            stream_wf(final(self)@),
    {
        let mut out: Vec<Span> = Vec::new();
        if self.pending.len() == 0 {
            assert(span_views(out@) =~= Seq::<(SpanStyle, Seq<char>)>::empty());
            return out;
        }
        let line = slice_chars(self.pending.as_slice(), 0, self.pending.len());
        assert(line@ =~= old(self)@.pending);
        self.finish_line(line.as_slice(), &mut out);
        let ghost st2 = self@;
        self.pending = Vec::new();
        self.flushed_prefix = 0;
        assert(span_views(out@) =~= Seq::<(SpanStyle, Seq<char>)>::empty() + span_views(out@));
        assert(self@ =~= StreamModel { pending: Seq::empty(), flushed: 0, ..st2 });
        out
    }
}


/// A fence line opens a code block outside one and closes it inside one: after
/// two fence lines the renderer is outside any code block, with no language.
pub proof fn law_fences_pair_up(lang: Seq<char>, open: Seq<char>, close: Seq<char>)
    requires
        starts_with(trim_start(open), "```"@),
        starts_with(trim_start(close), "```"@),
    ensures
        render_line_spec(false, lang, open).0,
        ({
            let (c, l, _) = render_line_spec(false, lang, open);
            !render_line_spec(c, l, close).0 && render_line_spec(c, l, close).1.len() == 0
        }),
{
}

} // verus!
