//! Images named in a prompt: finding the candidate paths in the text (Markdown
//! images and path-like words), decoding `file://` URLs, recognising image
//! types, and building the attachments from the bytes the caller read.
use vstd::prelude::*;
use vstd::string::StringSliceAdditionalSpecFns;
use vstd::utf8::encode_utf8;

use crate::order::texts;
use crate::protocol::{opt_view, owned, ChatImageAttachment};
use crate::text::{
    ascii_lower, chars_eq, chars_of, decimal, eq_str, push_decimal, push_str, to_ascii_lowercase, trim_string, index_of_any, index_of_char_from, is_whitespace, is_ws, lemma_index_of_any,
    last_index_of, push_chars, slice_chars, starts_with, string_from_chars, trim, trim_chars,
};

verus! {

/// Where the word scan of a text stands: the words so far, the word being
/// read, and the quote it is inside, if any.
pub struct TokenScan {
    pub tokens: Seq<Seq<char>>,
    pub current: Seq<char>,
    pub quote: Option<char>,
}

/// The word scan after the first `i` characters of `s`: words end at white
/// space outside quotes; quotes are kept in the words.
pub open spec fn token_scan(s: Seq<char>, i: nat) -> TokenScan
    decreases i,
{
    if i == 0 {
        TokenScan { tokens: Seq::empty(), current: Seq::empty(), quote: None }
    } else {
        let st = token_scan(s, (i - 1) as nat);
        let ch = s[i - 1];
        match st.quote {
            Some(a) => if ch == a {
                TokenScan { quote: None, current: st.current.push(ch), ..st }
            } else {
                TokenScan { current: st.current.push(ch), ..st }
            },
            None => if ch == '\'' || ch == '"' {
                TokenScan { quote: Some(ch), current: st.current.push(ch), ..st }
            } else if is_ws(ch) {
                if st.current.len() > 0 {
                    TokenScan { tokens: st.tokens.push(st.current), current: Seq::empty(), ..st }
                } else {
                    st
                }
            } else {
                TokenScan { current: st.current.push(ch), ..st }
            },
        }
    }
}

/// The words of `s`, white space inside quotes kept (see `token_scan`).
pub open spec fn tokens_of(s: Seq<char>) -> Seq<Seq<char>> {
    let st = token_scan(s, s.len());
    if st.current.len() > 0 {
        st.tokens.push(st.current)
    } else {
        st.tokens
    }
}

/// Splits a text into words, keeping quoted white space (see `tokens_of`).
pub fn tokenize_preserving_quotes(input: &str) -> (r: Vec<String>)
    ensures
        texts(r@) == tokens_of(input@),
{
    let s = chars_of(input);
    let mut tokens: Vec<String> = Vec::new();
    let mut current: Vec<char> = Vec::new();
    let mut quote: Option<char> = None;
    let mut i: usize = 0;
    while i < s.len()
        invariant
            i <= s.len(),
            s@ == input@,
            token_scan(s@, i as nat).tokens == texts(tokens@),
            token_scan(s@, i as nat).current == current@,
            token_scan(s@, i as nat).quote == quote,
        decreases s.len() - i,
    {
        let ch = s[i];
        let ghost before = texts(tokens@);
        match quote {
            Some(active) => {
                if ch == active {
                    quote = None;
                }
                current.push(ch);
            },
            None => {
                if ch == '\'' || ch == '"' {
                    quote = Some(ch);
                    current.push(ch);
                } else if is_whitespace(ch) {
                    if current.len() > 0 {
                        tokens.push(string_from_chars(current.as_slice()));
                        assert(texts(tokens@) =~= before.push(current@));
                        current = Vec::new();
                        assert(current@ =~= Seq::<char>::empty());
                    }
                } else {
                    current.push(ch);
                }
            },
        }
        i += 1;
    }
    if current.len() > 0 {
        let ghost before = texts(tokens@);
        tokens.push(string_from_chars(current.as_slice()));
        assert(texts(tokens@) =~= before.push(current@));
    }
    tokens
}

/// `s` without its leading characters that are in `set`.
pub open spec fn strip_lead(s: Seq<char>, set: Seq<char>) -> Seq<char>
    decreases s.len(),
{
    if s.len() > 0 && set.contains(s[0]) {
        strip_lead(s.drop_first(), set)
    } else {
        s
    }
}

/// `s` without its trailing characters that are in `set`.
pub open spec fn strip_trail(s: Seq<char>, set: Seq<char>) -> Seq<char>
    decreases s.len(),
{
    if s.len() > 0 && set.contains(s.last()) {
        strip_trail(s.drop_last(), set)
    } else {
        s
    }
}

/// Whether `c` is one of `set`.
fn char_in(set: &[char], c: char) -> (r: bool)
    ensures
        r == set@.contains(c),
{
    let mut k: usize = 0;
    while k < set.len()
        invariant
            k <= set.len(),
            forall|j: int| 0 <= j < k ==> set@[j] != c,
        decreases set.len() - k,
    {
        if set[k] == c {
            assert(set@[k as int] == c);
            return true;
        }
        k += 1;
    }
    false
}

/// `s` without the leading characters in `set`, as `trim_start_matches(set)`.
pub(crate) fn strip_lead_exec(s: &[char], set: &[char]) -> (r: Vec<char>)
    ensures
        r@ == strip_lead(s@, set@),
{
    let mut i: usize = 0;
    assert(s@.skip(0) == s@);
    while i < s.len() && char_in(set, s[i])
        invariant
            i <= s.len(),
            strip_lead(s@, set@) == strip_lead(s@.skip(i as int), set@),
        decreases s.len() - i,
    {
        assert(s@.skip(i as int).drop_first() == s@.skip(i + 1));
        i += 1;
    }
    slice_chars(s, i, s.len())
}

/// `s` without the trailing characters in `set`, as `trim_end_matches(set)`.
pub(crate) fn strip_trail_exec(s: &[char], set: &[char]) -> (r: Vec<char>)
    ensures
        r@ == strip_trail(s@, set@),
{
    let mut j: usize = s.len();
    assert(s@.take(j as int) == s@);
    while j > 0 && char_in(set, s[j - 1])
        invariant
            j <= s.len(),
            strip_trail(s@, set@) == strip_trail(s@.take(j as int), set@),
        decreases j,
    {
        assert(s@.take(j as int).drop_last() == s@.take(j - 1));
        j -= 1;
    }
    slice_chars(s, 0, j)
}

/// A candidate without surrounding white space and quotes: double quotes
/// stripped from both ends, then single quotes.
pub open spec fn unquoted(v: Seq<char>) -> Seq<char> {
    strip_trail(
        strip_lead(strip_trail(strip_lead(trim(v), seq!['"']), seq!['"']), seq!['\'']),
        seq!['\''],
    )
}

/// Strips white space and wrapping quotes (see `unquoted`).
pub fn trim_wrapping_quotes(value: &str) -> (r: String)
    ensures
        r@ == unquoted(value@),
{
    let s = chars_of(value);
    let t = trim_chars(s.as_slice());
    let mut dq: Vec<char> = Vec::new();
    dq.push('"');
    let mut sq: Vec<char> = Vec::new();
    sq.push('\'');
    assert(dq@ =~= seq!['"']);
    assert(sq@ =~= seq!['\'']);
    let a = strip_lead_exec(t.as_slice(), dq.as_slice());
    let b = strip_trail_exec(a.as_slice(), dq.as_slice());
    let c = strip_lead_exec(b.as_slice(), sq.as_slice());
    let d = strip_trail_exec(c.as_slice(), sq.as_slice());
    string_from_chars(d.as_slice())
}

/// A word without surrounding white space, trailing `,;:)]` and leading `([`.
pub open spec fn path_token(v: Seq<char>) -> Seq<char> {
    strip_lead(strip_trail(trim(v), seq![',', ';', ':', ')', ']']), seq!['(', '['])
}

/// Strips the punctuation around a path-like word (see `path_token`).
pub fn trim_path_punctuation(value: &str) -> (r: String)
    ensures
        r@ == path_token(value@),
{
    let s = chars_of(value);
    let t = trim_chars(s.as_slice());
    let trailing: Vec<char> = vec![',', ';', ':', ')', ']'];
    let leading: Vec<char> = vec!['(', '['];
    assert(trailing@ =~= seq![',', ';', ':', ')', ']']);
    assert(leading@ =~= seq!['(', '[']);
    let a = strip_trail_exec(t.as_slice(), trailing.as_slice());
    let b = strip_lead_exec(a.as_slice(), leading.as_slice());
    string_from_chars(b.as_slice())
}

/// The path-like words of a text: its words without surrounding punctuation,
/// the empty ones left out.
pub open spec fn path_candidates(s: Seq<char>) -> Seq<Seq<char>> {
    tokens_of(s).map_values(|t: Seq<char>| path_token(t)).filter(|t: Seq<char>| t.len() > 0)
}

/// The path-like words of a text (see `path_candidates`).
pub fn extract_path_like_candidates(input: &str) -> (r: Vec<String>)
    ensures
        texts(r@) == path_candidates(input@),
{
    let tokens = tokenize_preserving_quotes(input);
    let ghost ts = texts(tokens@);
    let ghost mapped = ts.map_values(|t: Seq<char>| path_token(t));
    let ghost keep = |t: Seq<char>| t.len() > 0;
    let mut out: Vec<String> = Vec::new();
    let mut i: usize = 0;
    while i < tokens.len()
        invariant
            i <= tokens.len(),
            ts == texts(tokens@),
            mapped == ts.map_values(|t: Seq<char>| path_token(t)),
            keep == (|t: Seq<char>| t.len() > 0),
            texts(out@) == mapped.take(i as int).filter(keep),
        decreases tokens.len() - i,
    {
        let cleaned = trim_path_punctuation(tokens[i].as_str());
        let ghost before = texts(out@);
        proof {
            assert(mapped.take(i + 1).drop_last() =~= mapped.take(i as int));
            assert(mapped[i as int] == cleaned@);
            reveal_with_fuel(Seq::filter, 1);
        }
        if !cleaned.as_str().is_empty() {
            out.push(cleaned);
            assert(texts(out@) =~= before.push(mapped[i as int]));
        }
        assert(texts(out@) =~= mapped.take(i + 1).filter(keep));
        i += 1;
    }
    assert(mapped.take(tokens.len() as int) =~= mapped);
    out
}

/// The image paths of the Markdown images `![alt](path)` in `s` from position
/// `idx` on, trimmed and the empty ones left out. The scan stops at an image
/// whose `]` or `)` is missing.
pub open spec fn md_scan(s: Seq<char>, idx: nat) -> Seq<Seq<char>>
    decreases s.len() - idx,
{
    let i = idx as int;
    if i + 1 >= s.len() {
        Seq::empty()
    } else if s[i] == '!' && s[i + 1] == '[' {
        let a = index_of_any(s.skip(i + 2), seq![']']);
        proof {
            lemma_index_of_any(s.skip(i + 2), seq![']']);
        }
        if a >= s.len() - (i + 2) {
            Seq::empty()
        } else {
            let close = i + 2 + a;
            if !(close + 1 < s.len() && s[close + 1] == '(') {
                md_scan(s, (i + 2) as nat)
            } else {
                let ps = close + 2;
                let b = index_of_any(s.skip(ps), seq![')']);
                proof {
                    lemma_index_of_any(s.skip(ps), seq![')']);
                }
                if b >= s.len() - ps {
                    Seq::empty()
                } else {
                    let pe = ps + b;
                    let cand = trim(s.subrange(ps, pe));
                    (if cand.len() > 0 {
                        seq![cand]
                    } else {
                        Seq::empty()
                    }) + md_scan(s, (pe + 1) as nat)
                }
            }
        }
    } else {
        md_scan(s, (i + 1) as nat)
    }
}

/// The image paths of the Markdown images in a text (see `md_scan`).
pub fn extract_markdown_image_candidates(input: &str) -> (r: Vec<String>)
    ensures
        texts(r@) == md_scan(input@, 0),
{
    let s = chars_of(input);
    let n = s.len();
    let mut out: Vec<String> = Vec::new();
    let mut idx: usize = 0;
    while idx < n && n - idx > 1
        invariant
            n == s.len(),
            s@ == input@,
            md_scan(s@, 0) == texts(out@) + md_scan(s@, idx as nat),
        decreases n - idx,
    {
        let ghost before = texts(out@);
        if s[idx] == '!' && s[idx + 1] == '[' {
            let close = index_of_char_from(s.as_slice(), idx + 2, ']');
            proof {
                lemma_index_of_any(s@.skip(idx + 2), seq![']']);
            }
            if close == n {
                assert(md_scan(s@, idx as nat) == Seq::<Seq<char>>::empty());
                assert(texts(out@) + Seq::<Seq<char>>::empty() =~= texts(out@));
                return out;
            }
            if !(close + 1 < n && s[close + 1] == '(') {
                idx = idx + 2;
                continue;
            }
            let ps = close + 2;
            let pe = index_of_char_from(s.as_slice(), ps, ')');
            proof {
                lemma_index_of_any(s@.skip(ps as int), seq![')']);
            }
            if pe == n {
                assert(md_scan(s@, idx as nat) == Seq::<Seq<char>>::empty());
                assert(texts(out@) + Seq::<Seq<char>>::empty() =~= texts(out@));
                return out;
            }
            let raw = slice_chars(s.as_slice(), ps, pe);
            let cand = trim_chars(raw.as_slice());
            if cand.len() > 0 {
                out.push(string_from_chars(cand.as_slice()));
                assert(texts(out@) =~= before + seq![cand@]);
            } else {
                assert(texts(out@) =~= before + Seq::<Seq<char>>::empty());
            }
            idx = pe + 1;
            continue;
        }
        idx += 1;
    }
    assert(md_scan(s@, idx as nat) == Seq::<Seq<char>>::empty());
    assert(texts(out@) + Seq::<Seq<char>>::empty() =~= texts(out@));
    out
}

/// The value of an ASCII hexadecimal digit.
pub open spec fn hex_digit(b: u8) -> Option<u8> {
    if 48 <= b <= 57 {
        Some((b - 48) as u8)
    } else if 97 <= b <= 102 {
        Some((b - 97 + 10) as u8)
    } else if 65 <= b <= 70 {
        Some((b - 65 + 10) as u8)
    } else {
        None
    }
}

/// The value of an ASCII hexadecimal digit (see `hex_digit`).
pub fn from_hex(value: u8) -> (r: Option<u8>)
    ensures
        r == hex_digit(value),
{
    if 48 <= value && value <= 57 {
        Some(value - 48)
    } else if 97 <= value && value <= 102 {
        Some(value - 97 + 10)
    } else if 65 <= value && value <= 70 {
        Some(value - 65 + 10)
    } else {
        None
    }
}

/// The byte written as two hexadecimal digits.
pub open spec fn hex_pair(high: u8, low: u8) -> Option<u8> {
    match (hex_digit(high), hex_digit(low)) {
        (Some(h), Some(l)) => Some((h * 16 + l) as u8),
        _ => None,
    }
}

/// The byte written as two hexadecimal digits (see `hex_pair`).
pub fn decode_hex_pair(high: u8, low: u8) -> (r: Option<u8>)
    ensures
        r == hex_pair(high, low),
{
    let h = match from_hex(high) {
        Some(h) => h,
        None => return None,
    };
    let l = match from_hex(low) {
        Some(l) => l,
        None => return None,
    };
    assert(h < 16 && l < 16);
    assert((h << 4u8) | l == h * 16 + l) by (bit_vector)
        requires
            h < 16,
            l < 16,
    ;
    Some((h << 4) | l)
}

/// The character whose code is the byte `b` (as `b as char` gives it).
pub open spec fn byte_char(b: u8) -> char {
    (b as u32) as char
}

/// Percent-decoding of `bs` from position `i`: `%` and two hexadecimal digits
/// give the byte they write, every other byte stands for itself; each byte
/// becomes the character with that code.
pub open spec fn pct_scan(bs: Seq<u8>, i: nat) -> Seq<char>
    decreases bs.len() - i,
{
    let k = i as int;
    if k >= bs.len() {
        Seq::empty()
    } else if bs[k] == 37 && k + 2 < bs.len() && hex_pair(bs[k + 1], bs[k + 2]) is Some {
        seq![byte_char(hex_pair(bs[k + 1], bs[k + 2])->0)] + pct_scan(bs, i + 3)
    } else {
        seq![byte_char(bs[k])] + pct_scan(bs, i + 1)
    }
}

/// Percent-decoding of a whole byte sequence.
pub open spec fn pct_decode(bs: Seq<u8>) -> Seq<char> {
    pct_scan(bs, 0)
}

/// Percent-decodes bytes (see `pct_scan`).
fn percent_decode_bytes(bs: &[u8]) -> (r: String)
    ensures
        r@ == pct_decode(bs@),
{
    let mut out: Vec<char> = Vec::new();
    let mut idx: usize = 0;
    while idx < bs.len()
        invariant
            idx <= bs.len(),
            pct_decode(bs@) == out@ + pct_scan(bs@, idx as nat),
        decreases bs.len() - idx,
    {
        if bs[idx] == 37 && bs.len() - idx > 2 {
            match decode_hex_pair(bs[idx + 1], bs[idx + 2]) {
                Some(decoded) => {
                    out.push(decoded as char);
                    idx += 3;
                    continue;
                },
                None => {},
            }
        }
        out.push(bs[idx] as char);
        idx += 1;
    }
    assert(out@ + Seq::<char>::empty() =~= out@);
    string_from_chars(out.as_slice())
}

/// Percent-decodes the UTF-8 bytes of `value` (see `pct_scan`).
pub fn percent_decode(value: &str) -> (r: String)
    ensures
        r@ == pct_decode(value.spec_bytes()),
{
    percent_decode_bytes(value.as_bytes())
}

/// The bytes of `file://`.
pub open spec fn file_scheme() -> Seq<u8> {
    seq![102u8, 105u8, 108u8, 101u8, 58u8, 47u8, 47u8]
}

/// The path part of a `file://` URL, as bytes: what follows the scheme, without
/// its leading `/` when a drive letter and `:` come next.
pub open spec fn file_url_body(bs: Seq<u8>) -> Option<Seq<u8>> {
    if bs.len() >= 7 && bs.take(7) == file_scheme() {
        let n = bs.skip(7);
        if n.len() > 0 && n[0] == 47u8 {
            let rest = n.skip(1);
            if rest.len() >= 2 && rest[1] == 58u8 {
                Some(rest)
            } else {
                Some(n)
            }
        } else {
            Some(n)
        }
    } else {
        None
    }
}

/// The decoded path of a `file://` URL, or nothing for another text.
pub open spec fn decoded_file_url(bs: Seq<u8>) -> Option<Seq<char>> {
    match file_url_body(bs) {
        Some(b) => Some(pct_decode(b)),
        None => None,
    }
}

/// The view of an optional string.
pub open spec fn opt_string(s: Option<String>) -> Option<Seq<char>> {
    match s {
        Some(v) => Some(v@),
        None => None,
    }
}

/// A copy of `bs[from..]`.
fn bytes_from(bs: &[u8], from: usize) -> (r: Vec<u8>)
    requires
        from <= bs.len(),
    ensures
        r@ == bs@.skip(from as int),
{
    let mut out: Vec<u8> = Vec::new();
    let mut i = from;
    while i < bs.len()
        invariant
            from <= i <= bs.len(),
            out@ == bs@.subrange(from as int, i as int),
        decreases bs.len() - i,
    {
        out.push(bs[i]);
        i += 1;
    }
    out
}

/// Decodes a `file://` URL into a path (see `decoded_file_url`).
pub fn maybe_decode_file_url(value: &str) -> (r: Option<String>)
    ensures
        opt_string(r) == decoded_file_url(value.spec_bytes()),
{
    let bs = value.as_bytes();
    let scheme: Vec<u8> = vec![102u8, 105u8, 108u8, 101u8, 58u8, 47u8, 47u8];
    if bs.len() < 7 {
        return None;
    }
    let mut k: usize = 0;
    while k < 7
        invariant
            k <= 7 <= bs.len(),
            bs@ == value.spec_bytes(),
            scheme@ == file_scheme(),
            bs@.take(k as int) == scheme@.take(k as int),
        decreases 7 - k,
    {
        if bs[k] != scheme[k] {
            assert(bs@.take(7)[k as int] != file_scheme()[k as int]);
            return None;
        }
        k += 1;
        assert(bs@.take(k as int) =~= scheme@.take(k as int));
    }
    assert(scheme@.take(7) =~= file_scheme());
    let n = bytes_from(bs, 7);
    let body = if n.len() > 0 && n[0] == 47u8 && n.len() >= 3 && n[2] == 58u8 {
        bytes_from(n.as_slice(), 1)
    } else {
        n
    };
    proof {
        let nn = bs@.skip(7);
        if nn.len() > 0 && nn[0] == 47u8 {
            assert(nn.skip(1).len() == nn.len() - 1);
            if nn.skip(1).len() >= 2 {
                assert(nn.skip(1)[1] == nn[2]);
            }
        }
    }
    Some(percent_decode_bytes(body.as_slice()))
}

/// The image type of a file extension, compared in ASCII lower case.
pub open spec fn mime_for_extension(ext_lower: Seq<char>) -> Option<Seq<char>> {
    if ext_lower == "png"@ {
        Some("image/png"@)
    } else if ext_lower == "jpg"@ || ext_lower == "jpeg"@ {
        Some("image/jpeg"@)
    } else if ext_lower == "webp"@ {
        Some("image/webp"@)
    } else if ext_lower == "gif"@ {
        Some("image/gif"@)
    } else if ext_lower == "bmp"@ {
        Some("image/bmp"@)
    } else {
        None
    }
}

/// The view of an optional static string.
pub open spec fn opt_str(s: Option<&'static str>) -> Option<Seq<char>> {
    match s {
        Some(v) => Some(v@),
        None => None,
    }
}

/// The image type of a file extension (see `mime_for_extension`).
pub fn mime_type_for_extension(ext: &str) -> (r: Option<&'static str>)
    ensures
        opt_str(r) == mime_for_extension(ascii_lower(ext@)),
{
    let raw = chars_of(ext);
    let e = to_ascii_lowercase(raw.as_slice());
    let e = e.as_slice();
    if eq_str(e, "png") {
        Some("image/png")
    } else if eq_str(e, "jpg") || eq_str(e, "jpeg") {
        Some("image/jpeg")
    } else if eq_str(e, "webp") {
        Some("image/webp")
    } else if eq_str(e, "gif") {
        Some("image/gif")
    } else if eq_str(e, "bmp") {
        Some("image/bmp")
    } else {
        None
    }
}

/// The text after the last `/` of a path (all of it when it has none).
pub open spec fn last_segment(p: Seq<char>) -> Seq<char> {
    p.skip(last_index_of(p, '/') + 1)
}

/// A path whose last component is, on every platform, its text after the last
/// `/`: it holds no `\` and no `:` (so no Windows prefix), does not start with
/// `//`, and its last segment is a name (not empty, `.` or `..`).
pub open spec fn plain_path(p: Seq<char>) -> bool {
    &&& !p.contains('\\')
    &&& !p.contains(':')
    &&& !starts_with(p, "//"@)
    &&& last_segment(p).len() > 0
    &&& last_segment(p) != "."@
    &&& last_segment(p) != ".."@
}

/// The extension of a file name: none without a `.`, none when the only `.`
/// starts the name, else the text after the last `.`.
pub open spec fn name_extension(name: Seq<char>) -> Option<Seq<char>> {
    let d = last_index_of(name, '.');
    if d <= 0 {
        None
    } else {
        Some(name.skip(d + 1))
    }
}

/// The image type a path names by its extension.
pub open spec fn path_mime(p: Seq<char>) -> Option<Seq<char>> {
    match name_extension(last_segment(p)) {
        Some(e) => mime_for_extension(ascii_lower(e)),
        None => None,
    }
}

/// `Path::extension` of `path`, as text. Its documentation defines the
/// extension of the final component (the file name): none without an embedded
/// `.`, none when the name starts with its only `.`, else the part after the
/// last `.`. The final component of a `plain_path` is its last `/` segment on
/// every platform; for other paths (Windows prefixes, `\` separators, trailing
/// separators or `.`/`..` components), which differ between platforms, nothing
/// is claimed.
#[verifier::external_body]
fn path_extension(path: &str) -> (r: Option<String>)
    ensures
        plain_path(path@) ==> opt_view(r) == name_extension(last_segment(path@)),
{
    match std::path::Path::new(path).extension() {
        Some(e) => match e.to_str() {
            Some(t) => Some(t.to_string()),
            None => None,
        },
        None => None,
    }
}

/// `Path::file_name` of `path`, as text: the final component, which for a
/// `plain_path` is its last `/` segment on every platform; for other paths
/// nothing is claimed (see `path_extension`).
#[verifier::external_body]
fn path_file_name(path: &str) -> (r: Option<String>)
    ensures
        plain_path(path@) ==> opt_view(r) == Some(last_segment(path@)),
{
    match std::path::Path::new(path).file_name() {
        Some(e) => match e.to_str() {
            Some(t) => Some(t.to_string()),
            None => None,
        },
        None => None,
    }
}

/// The image type of a path, from its extension: none when the path has no
/// extension or it names no supported image type (see `path_mime`).
pub fn mime_type_for_path(path: &str) -> (r: Option<&'static str>)
    ensures
        r is None || exists|ext: Seq<char>| opt_str(r) == mime_for_extension(ascii_lower(ext)),
        plain_path(path@) ==> opt_str(r) == path_mime(path@),
{
    match path_extension(path) {
        Some(ext) => mime_type_for_extension(ext.as_str()),
        None => None,
    }
}

/// Whether a path names a supported image type.
pub fn is_supported_image_path(path: &str) -> (r: bool)
    ensures
        r ==> exists|ext: Seq<char>| mime_for_extension(ascii_lower(ext)) is Some,
        plain_path(path@) ==> (r <==> path_mime(path@) is Some),
{
    mime_type_for_path(path).is_some()
}

/// The standard Base64 alphabet.
pub open spec fn base64_alphabet() -> Seq<char> {
    "ABCDEFGHIJKLMNOPQRSTUVWXYZabcdefghijklmnopqrstuvwxyz0123456789+/"@
}

/// The Base64 digit of a value below 64.
pub open spec fn b64(v: int) -> char {
    base64_alphabet()[v]
}

/// The standard Base64 encoding (RFC 4648, with padding) of a byte sequence:
/// each group of three bytes gives four digits of six bits, and a last group of
/// one or two bytes gives two or three digits and `=` padding.
pub open spec fn base64_standard(bytes: Seq<u8>) -> Seq<char>
    decreases bytes.len(),
{
    if bytes.len() == 0 {
        Seq::empty()
    } else if bytes.len() == 1 {
        let b0 = bytes[0] as int;
        seq![b64(b0 / 4), b64((b0 % 4) * 16), '=', '=']
    } else if bytes.len() == 2 {
        let b0 = bytes[0] as int;
        let b1 = bytes[1] as int;
        seq![b64(b0 / 4), b64((b0 % 4) * 16 + b1 / 16), b64((b1 % 16) * 4), '=']
    } else {
        let b0 = bytes[0] as int;
        let b1 = bytes[1] as int;
        let b2 = bytes[2] as int;
        seq![b64(b0 / 4), b64((b0 % 4) * 16 + b1 / 16), b64((b1 % 16) * 4 + b2 / 64), b64(b2 % 64)]
            + base64_standard(bytes.skip(3))
    }
}

/// `base64::engine::general_purpose::STANDARD.encode(bytes)`: the standard
/// alphabet with padding (`base64_standard`). It panics when the encoded length
/// does not fit in `usize`, which the bound rules out.
#[verifier::external_body]
fn encode_base64(bytes: &[u8]) -> (r: String)
    requires
        bytes@.len() <= usize::MAX / 2,
    ensures
        r@ == base64_standard(bytes@),
{
    base64::Engine::encode(&base64::engine::general_purpose::STANDARD, bytes)
}

/// The largest image file that is attached.
pub const MAX_IMAGE_BYTES: usize = 5 * 1024 * 1024;

/// An image ready to be sent, with what the user is shown of it.
#[derive(Debug, Clone)]
pub struct PreparedImageAttachment {
    pub chat_attachment: ChatImageAttachment,
    pub display_path: String,
    pub size_bytes: usize,
}

/// The warning for an image file over the size limit.
pub open spec fn too_large_message(path: Seq<char>) -> Seq<char> {
    "Skipping image '"@ + path + "': file is larger than "@ + decimal(5) + " MB"@
}

/// An attachment ready to send: within the size limit, and its data URL is
/// its type and the Base64 text of that many bytes.
pub open spec fn attachment_ready(a: PreparedImageAttachment) -> bool {
    &&& a.size_bytes <= MAX_IMAGE_BYTES
    &&& exists|bytes: Seq<u8>|
        bytes.len() == a.size_bytes && #[trigger] base64_standard(bytes) == a.chat_attachment.data_url@.skip(
            ("data:"@ + a.chat_attachment.mime_type@ + ";base64,"@).len() as int,
        ) && starts_with(a.chat_attachment.data_url@, "data:"@ + a.chat_attachment.mime_type@ + ";base64,"@)
}

/// The attachment of the image at `path`, given its file name, its image type
/// (`application/octet-stream` when unknown), its size and its Base64 text.
pub fn attachment_from_parts(
    path: &str,
    file_name: Option<&str>,
    mime: Option<&'static str>,
    size_bytes: usize,
    encoded: &str,
) -> (r: PreparedImageAttachment)
    ensures
        r.display_path@ == path@,
        r.size_bytes == size_bytes,
        r.chat_attachment.filename@ == (match file_name {
            Some(f) => f@,
            None => "image"@,
        }),
        r.chat_attachment.mime_type@ == (match mime {
            Some(m) => m@,
            None => "application/octet-stream"@,
        }),
        r.chat_attachment.data_url@ == "data:"@ + r.chat_attachment.mime_type@ + ";base64,"@
            + encoded@,
{
    let mime_type: &str = match mime {
        Some(m) => m,
        None => "application/octet-stream",
    };
    let filename = match file_name {
        Some(f) => owned(f),
        None => owned("image"),
    };
    let mut url = chars_of("data:");
    push_str(&mut url, mime_type);
    push_str(&mut url, ";base64,");
    push_str(&mut url, encoded);
    PreparedImageAttachment {
        chat_attachment: ChatImageAttachment {
            filename,
            mime_type: owned(mime_type),
            data_url: string_from_chars(url.as_slice()),
        },
        display_path: owned(path),
        size_bytes,
    }
}

/// The warning for an image file over the size limit (see `too_large_message`).
#[verifier::spinoff_prover]
fn too_large_warning(path: &str) -> (w: String)
    ensures
        w@ == too_large_message(path@),
{
    let mut w = chars_of("Skipping image '");
    push_str(&mut w, path);
    push_str(&mut w, "': file is larger than ");
    let mb: usize = MAX_IMAGE_BYTES / (1024 * 1024);
    assert(mb == 5);
    push_decimal(&mut w, mb);
    push_str(&mut w, " MB");
    string_from_chars(w.as_slice())
}

/// Builds the attachment of an image file from its bytes: a warning when it is
/// over the size limit, else its Base64 data URL, type and file name.
pub fn prepare_attachment(path: &str, bytes: &[u8]) -> (r: Result<PreparedImageAttachment, String>)
    ensures
        bytes@.len() > MAX_IMAGE_BYTES <==> r is Err,
        r matches Err(w) ==> w@ == too_large_message(path@),
        r matches Ok(a) ==> {
            &&& a.display_path@ == path@
            &&& a.size_bytes == bytes@.len()
            &&& attachment_ready(a)
            &&& a.chat_attachment.data_url@ == "data:"@ + a.chat_attachment.mime_type@
                + ";base64,"@ + base64_standard(bytes@)
            &&& (a.chat_attachment.mime_type@ == "application/octet-stream"@ || exists|ext: Seq<char>|
                mime_for_extension(ascii_lower(ext)) == Some(a.chat_attachment.mime_type@))
            &&& (plain_path(path@) ==> a.chat_attachment.filename@ == last_segment(path@))
            &&& (plain_path(path@) ==> a.chat_attachment.mime_type@ == match path_mime(path@) {
                Some(m) => m,
                None => "application/octet-stream"@,
            })
        },
{
    if bytes.len() > MAX_IMAGE_BYTES {
        return Err(too_large_warning(path));
    }
    let mime = mime_type_for_path(path);
    let encoded = encode_base64(bytes);
    let name = path_file_name(path);
    let a = match &name {
        Some(n) => attachment_from_parts(path, Some(n.as_str()), mime, bytes.len(), encoded.as_str()),
        None => attachment_from_parts(path, None, mime, bytes.len(), encoded.as_str()),
    };
    proof {
        let head = "data:"@ + a.chat_attachment.mime_type@ + ";base64,"@;
        assert(a.chat_attachment.data_url@.skip(head.len() as int) =~= base64_standard(bytes@));
        assert(a.chat_attachment.data_url@.take(head.len() as int) =~= head);
    }
    Ok(a)
}

/// The path a candidate names: the candidate without white space and wrapping
/// quotes, decoded when it is a `file://` URL; nothing when it is empty.
pub open spec fn candidate_path_spec(c: Seq<char>) -> Option<Seq<char>> {
    let cleaned = unquoted(trim(c));
    if cleaned.len() == 0 {
        None
    } else {
        match decoded_file_url(encode_utf8(cleaned)) {
            Some(p) => Some(p),
            None => Some(cleaned),
        }
    }
}

/// The path a candidate names (see `candidate_path_spec`).
pub fn candidate_path(candidate: &str) -> (r: Option<String>)
    ensures
        opt_string(r) == candidate_path_spec(candidate@),
{
    let t = trim_string(candidate);
    let cleaned = trim_wrapping_quotes(t.as_str());
    if cleaned.as_str().is_empty() {
        return None;
    }
    match maybe_decode_file_url(cleaned.as_str()) {
        Some(p) => Some(p),
        None => Some(cleaned),
    }
}

/// The text of a prompt and the image candidates named in it: the trimmed text,
/// then its Markdown image paths followed by its path-like words.
pub fn user_input_candidates(raw: &str) -> (r: (String, Vec<String>))
    ensures
        r.0@ == trim(raw@),
        texts(r.1@) == md_scan(trim(raw@), 0) + path_candidates(trim(raw@)),
{
    let text = trim_string(raw);
    let mut candidates = extract_markdown_image_candidates(text.as_str());
    let more = extract_path_like_candidates(text.as_str());
    let ghost first = texts(candidates@);
    let mut i: usize = 0;
    while i < more.len()
        invariant
            i <= more.len(),
            texts(candidates@) == first + texts(more@).take(i as int),
        decreases more.len() - i,
    {
        let ghost before = texts(candidates@);
        candidates.push(more[i].clone());
        assert(texts(candidates@) =~= before.push(more@[i as int]@));
        assert(texts(more@).take(i + 1) =~= texts(more@).take(i as int).push(more@[i as int]@));
        i += 1;
    }
    assert(texts(more@).take(more.len() as int) =~= texts(more@));
    (text, candidates)
}

/// A prompt ready to be sent: its text, the images attached and the warnings
/// about images that were left out.
#[derive(Debug, Clone)]
pub struct PreparedUserInput {
    pub text: String,
    pub attachments: Vec<PreparedImageAttachment>,
    pub warnings: Vec<String>,
}

/// What the user is told of an attached image.
#[derive(Debug, Clone)]
pub struct AttachmentNotice {
    pub display_path: String,
    pub size_bytes: usize,
}

/// The canonical paths of found images.
pub open spec fn keys_of(found: Seq<(String, PreparedImageAttachment)>) -> Seq<Seq<char>> {
    found.map_values(|p: (String, PreparedImageAttachment)| p.0@)
}

/// The found images in order, each canonical path kept at its first occurrence.
pub open spec fn first_seen(found: Seq<(String, PreparedImageAttachment)>) -> Seq<PreparedImageAttachment>
    decreases found.len(),
{
    if found.len() == 0 {
        Seq::empty()
    } else {
        let prev = found.drop_last();
        if keys_of(prev).contains(found.last().0@) {
            first_seen(prev)
        } else {
            first_seen(prev).push(found.last().1)
        }
    }
}

/// Whether `v` holds the text `x`.
fn holds_text(v: &Vec<String>, x: &str) -> (r: bool)
    ensures
        r == texts(v@).contains(x@),
{
    let target = chars_of(x);
    let mut i: usize = 0;
    while i < v.len()
        invariant
            i <= v.len(),
            target@ == x@,
            forall|j: int| 0 <= j < i ==> texts(v@)[j] != x@,
        decreases v.len() - i,
    {
        let here = chars_of(v[i].as_str());
        if chars_eq(here.as_slice(), target.as_slice()) {
            assert(texts(v@)[i as int] == x@);
            return true;
        }
        i += 1;
    }
    false
}

/// Assembles a prepared prompt from its trimmed text, the images that could be
/// read (each with its canonical path, in the order they were named) and the
/// warnings; an image named again under the same canonical path is attached once.
pub fn prepare_user_input(
    text: String,
    found: Vec<(String, PreparedImageAttachment)>,
    warnings: Vec<String>,
) -> (r: PreparedUserInput)
    ensures
        r.text == text,
        r.warnings == warnings,
        r.attachments@ == first_seen(found@),
{
    let ghost all = found@;
    let mut rest = found;
    let total = rest.len();
    let mut seen: Vec<String> = Vec::new();
    let mut attachments: Vec<PreparedImageAttachment> = Vec::new();
    let mut i: usize = 0;
    while rest.len() > 0
        invariant
            i <= all.len(),
            all.len() == total,
            rest@ == all.skip(i as int),
            texts(seen@) == keys_of(all.take(i as int)),
            attachments@ == first_seen(all.take(i as int)),
        decreases rest.len(),
    {
        let (key, attachment) = rest.remove(0);
        proof {
            assert(all.skip(i as int)[0] == all[i as int]);
            assert(all.skip(i as int).drop_first() =~= all.skip(i + 1));
            assert(all.take(i + 1).drop_last() =~= all.take(i as int));
            assert(all.take(i + 1).last() == all[i as int]);
        }
        let known = holds_text(&seen, key.as_str());
        let ghost before = texts(seen@);
        if !known {
            attachments.push(attachment);
        }
        seen.push(key);
        proof {
            assert(texts(seen@) =~= before.push(all[i as int].0@));
            assert(keys_of(all.take(i + 1)) =~= keys_of(all.take(i as int)).push(all[i as int].0@));
        }
        i += 1;
    }
    assert(all.take(i as int) =~= all);
    PreparedUserInput { text, attachments, warnings }
}

impl PreparedUserInput {
    /// The text and the chat attachments to send.
    pub fn into_chat_request(self) -> (r: (String, Vec<ChatImageAttachment>))
        ensures
            r.0 == self.text,
            r.1@ == self.attachments@.map_values(|a: PreparedImageAttachment| a.chat_attachment),
    {
        let ghost all = self.attachments@;
        let PreparedUserInput { text, attachments, warnings: _ } = self;
        let mut rest = attachments;
        let total = rest.len();
        let mut out: Vec<ChatImageAttachment> = Vec::new();
        let mut i: usize = 0;
        while rest.len() > 0
            invariant
                i <= all.len(),
                all.len() == total,
                rest@ == all.skip(i as int),
                out@ == all.take(i as int).map_values(|a: PreparedImageAttachment| a.chat_attachment),
            decreases rest.len(),
        {
            let a = rest.remove(0);
            proof {
                assert(all.skip(i as int)[0] == all[i as int]);
                assert(all.skip(i as int).drop_first() =~= all.skip(i + 1));
            }
            out.push(a.chat_attachment);
            assert(out@ =~= all.take(i + 1).map_values(|a: PreparedImageAttachment| a.chat_attachment));
            i += 1;
        }
        assert(all.take(i as int) =~= all);
        (text, out)
    }

    /// What the user is told of each attached image, in order.
    pub fn attachment_notices(&self) -> (r: Vec<AttachmentNotice>)
        ensures
            r@.len() == self.attachments@.len(),
            forall|k: int|
                0 <= k < r@.len() ==> #[trigger] r@[k].display_path@ == self.attachments@[k].display_path@
                    && r@[k].size_bytes == self.attachments@[k].size_bytes,
    {
        let mut out: Vec<AttachmentNotice> = Vec::new();
        let mut i: usize = 0;
        while i < self.attachments.len()
            invariant
                i <= self.attachments@.len(),
                out@.len() == i,
                forall|k: int|
                    0 <= k < i ==> #[trigger] out@[k].display_path@ == self.attachments@[k].display_path@
                        && out@[k].size_bytes == self.attachments@[k].size_bytes,
            decreases self.attachments.len() - i,
        {
            let a = &self.attachments[i];
            out.push(AttachmentNotice { display_path: a.display_path.clone(), size_bytes: a.size_bytes });
            i += 1;
        }
        out
    }
}


/// The display paths of attachments.
pub open spec fn display_paths(a: Seq<PreparedImageAttachment>) -> Seq<Seq<char>> {
    a.map_values(|x: PreparedImageAttachment| x.display_path@)
}

/// Every image named in a prompt that could be read is attached, and none
/// twice: when each found image is shown under its canonical path, the
/// attachments' paths are exactly the distinct found paths.
pub proof fn law_each_image_attached_once(found: Seq<(String, PreparedImageAttachment)>)
    requires
        forall|k: int| 0 <= k < found.len() ==> (#[trigger] found[k]).1.display_path@ == found[k].0@,
    ensures
        display_paths(first_seen(found)).no_duplicates(),
        forall|k: int| 0 <= k < found.len() ==> display_paths(first_seen(found)).contains(#[trigger] found[k].0@),
        forall|p: Seq<char>| display_paths(first_seen(found)).contains(p) ==> keys_of(found).contains(p),
    decreases found.len(),
{
    if found.len() > 0 {
        let prev = found.drop_last();
        assert forall|k: int| 0 <= k < prev.len() implies (#[trigger] prev[k]).1.display_path@ == prev[k].0@ by {
            assert(prev[k] == found[k]);
        }
        law_each_image_attached_once(prev);
        let last = found.last();
        let dp = display_paths(first_seen(prev));
        if keys_of(prev).contains(last.0@) {
            let j = choose|j: int| 0 <= j < keys_of(prev).len() && keys_of(prev)[j] == last.0@;
            assert(prev[j].0@ == last.0@);
            assert(first_seen(found) == first_seen(prev));
            assert forall|k: int| 0 <= k < found.len() implies display_paths(first_seen(found)).contains(#[trigger] found[k].0@) by {
                if k < prev.len() {
                    assert(prev[k] == found[k]);
                }
            }
            assert forall|p: Seq<char>| display_paths(first_seen(found)).contains(p) implies keys_of(found).contains(p) by {
                assert(keys_of(prev).contains(p));
                let i = choose|i: int| 0 <= i < keys_of(prev).len() && keys_of(prev)[i] == p;
                assert(keys_of(found)[i] == p);
            }
        } else {
            let all = first_seen(found);
            assert(all == first_seen(prev).push(last.1));
            assert(display_paths(all) == dp.push(last.0@));
            assert(!dp.contains(last.0@));
            assert forall|k: int| 0 <= k < found.len() implies display_paths(all).contains(#[trigger] found[k].0@) by {
                if k < prev.len() {
                    assert(prev[k] == found[k]);
                    let i = choose|i: int| 0 <= i < dp.len() && dp[i] == prev[k].0@;
                    assert(display_paths(all)[i] == dp[i]);
                } else {
                    assert(display_paths(all)[dp.len() as int] == last.0@);
                }
            }
            assert forall|p: Seq<char>| display_paths(all).contains(p) implies keys_of(found).contains(p) by {
                let i = choose|i: int| 0 <= i < display_paths(all).len() && display_paths(all)[i] == p;
                if i < dp.len() {
                    assert(dp[i] == p);
                    assert(dp.contains(p));
                    assert(keys_of(prev).contains(p));
                    let m = choose|m: int| 0 <= m < keys_of(prev).len() && keys_of(prev)[m] == p;
                    assert(keys_of(found)[m] == p);
                } else {
                    assert(keys_of(found)[found.len() - 1] == p);
                }
            }
            assert forall|a: int, b: int| 0 <= a < b < display_paths(all).len() implies display_paths(all)[a]
                != display_paths(all)[b] by {
                if b == dp.len() {
                    assert(display_paths(all)[a] == dp[a]);
                }
            }
        }
    }
}

/// Every attachment of a prepared prompt is one of the images that were found
/// and prepared: when each found image is ready to send (as
/// `prepare_attachment` makes them), so is each attachment.
pub proof fn law_attachments_are_found_images(found: Seq<(String, PreparedImageAttachment)>)
    ensures
        forall|j: int|
            0 <= j < first_seen(found).len() ==> exists|k: int|
                0 <= k < found.len() && (#[trigger] found[k]).1 == #[trigger] first_seen(found)[j],
        (forall|k: int| 0 <= k < found.len() ==> attachment_ready(#[trigger] found[k].1)) ==> forall|j: int|
            0 <= j < first_seen(found).len() ==> attachment_ready(#[trigger] first_seen(found)[j]),
    decreases found.len(),
{
    if found.len() > 0 {
        let prev = found.drop_last();
        law_attachments_are_found_images(prev);
        let all = first_seen(found);
        let before = first_seen(prev);
        assert forall|j: int| 0 <= j < all.len() implies exists|k: int|
            0 <= k < found.len() && (#[trigger] found[k]).1 == #[trigger] all[j] by {
            if j < before.len() {
                assert(all[j] == before[j]);
                let k = choose|k: int| 0 <= k < prev.len() && (#[trigger] prev[k]).1 == before[j];
                assert(found[k] == prev[k]);
            } else {
                assert(all[j] == found.last().1);
                assert(found[found.len() - 1] == found.last());
            }
        }
        if forall|k: int| 0 <= k < found.len() ==> attachment_ready(#[trigger] found[k].1) {
            assert forall|j: int| 0 <= j < all.len() implies attachment_ready(#[trigger] all[j]) by {
                let k = choose|k: int| 0 <= k < found.len() && (#[trigger] found[k]).1 == all[j];
            }
        }
    }
}

} // verus!
