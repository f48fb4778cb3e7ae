//! Where the tools work: the project root and the current directory of the
//! session. Checking that a directory exists is the caller's part.
use vstd::prelude::*;

use crate::protocol::owned;
use crate::text::{
    chars_of, contains, contains_str, push_chars, push_str, slice_chars, starts_with, starts_with_exec, starts_with_str,
    string_from_chars,
};

verus! {

/// The directories the tools work in; both empty until it is initialized.
#[derive(Debug, Clone)]
pub struct ToolContext {
    pub project_root: String,
    pub current_dir: String,
}

/// The error of a context used before it was initialized.
pub open spec fn not_initialized_message() -> Seq<char> {
    "Tool context not initialized"@
}

/// A path separator on some platform.
pub open spec fn is_sep(c: char) -> bool {
    c == '/' || c == '\\'
}

/// `p` lies plainly inside the project root `root`: it is the root, or
/// continues it after a separator, and no `..` component follows the root (a
/// path that climbs back in with `..` is not counted as inside).
pub open spec fn plainly_inside_root(root: Seq<char>, p: Seq<char>) -> bool {
    &&& root.len() > 0
    &&& starts_with(p, root)
    &&& (p.len() == root.len() || is_sep(root.last()) || is_sep(p[root.len() as int]))
    &&& !contains(p.skip(root.len() as int), "/.."@)
    &&& !contains(p.skip(root.len() as int), "\\.."@)
}

/// A path written from a root: `/...`, `\\...` or a drive such as `C:\\...`.
pub open spec fn rooted(w: Seq<char>) -> bool {
    ||| starts_with(w, "/"@)
    ||| starts_with(w, "\\"@)
    ||| (w.len() >= 3 && w[1] == ':' && (w[2] == '/' || w[2] == '\\'))
}

/// How many characters of a rooted path name its root: one for `/` or `\\`,
/// three for a drive.
pub open spec fn root_len(p: Seq<char>) -> int {
    if p.len() > 0 && is_sep(p[0]) {
        1
    } else {
        3
    }
}

/// The separator a path is extended with: `\\` under a base that holds one,
/// `/` otherwise.
pub open spec fn sep_of(base: Seq<char>) -> char {
    if contains(base, "\\"@) {
        '\\'
    } else {
        '/'
    }
}

/// The text of `p` before its last separator (empty when it has none).
pub open spec fn parent_of(p: Seq<char>) -> Seq<char>
    decreases p.len(),
{
    if p.len() == 0 {
        p
    } else if is_sep(p.last()) {
        p.drop_last()
    } else {
        parent_of(p.drop_last())
    }
}

/// One component of a path applied to the directory `cur`: an empty component
/// and `.` stay, `..` goes to the parent, any other name is appended after a
/// separator.
pub open spec fn step(cur: Seq<char>, seg: Seq<char>, sep: char) -> Seq<char> {
    if seg.len() == 0 || seg == seq!['.'] {
        cur
    } else if seg == seq!['.', '.'] {
        parent_of(cur)
    } else if cur.len() > 0 && is_sep(cur.last()) {
        cur + seg
    } else {
        cur.push(sep) + seg
    }
}

/// The components of `rel` applied to `cur` in order, where `seg` is the part
/// of the next component already read; `/` and `\\` both end a component.
pub open spec fn walk(cur: Seq<char>, seg: Seq<char>, rel: Seq<char>, sep: char) -> Seq<char>
    decreases rel.len(),
{
    if rel.len() == 0 {
        step(cur, seg, sep)
    } else if is_sep(rel[0]) {
        walk(step(cur, seg, sep), Seq::empty(), rel.drop_first(), sep)
    } else {
        walk(cur, seg.push(rel[0]), rel.drop_first(), sep)
    }
}

/// Where `path` points from the directory `cwd`, read lexically: a rooted path
/// from its own root, any other path from `cwd`, with `.` and `..` components
/// and repeated separators resolved.
pub open spec fn resolved_path(cwd: Seq<char>, path: Seq<char>) -> Seq<char> {
    if rooted(path) {
        walk(path.take(root_len(path)), Seq::empty(), path.skip(root_len(path)), sep_of(path))
    } else {
        walk(cwd, Seq::empty(), path, sep_of(cwd))
    }
}

/// Whether a path is written from a root (see `rooted`).
pub fn is_rooted(w: &[char]) -> (r: bool)
    ensures
        r == rooted(w@),
{
    starts_with_str(w, "/") || starts_with_str(w, "\\") || (w.len() >= 3 && w[1] == ':' && (w[2] == '/' || w[2]
        == '\\'))
}

/// The separator a path is extended with (see `sep_of`).
fn sep_for(base: &[char]) -> (r: char)
    ensures
        r == sep_of(base@),
{
    if contains_str(base, "\\") {
        '\\'
    } else {
        '/'
    }
}

/// The text before the last separator (see `parent_of`).
fn parent_exec(p: &[char]) -> (r: Vec<char>)
    ensures
        r@ == parent_of(p@),
{
    let mut j = p.len();
    assert(p@.take(j as int) == p@);
    while j > 0 && !(p[j - 1] == '/' || p[j - 1] == '\\')
        invariant
            j <= p.len(),
            parent_of(p@) == parent_of(p@.take(j as int)),
        decreases j,
    {
        assert(p@.take(j as int).drop_last() == p@.take(j - 1));
        j -= 1;
    }
    if j == 0 {
        assert(p@.take(0) == Seq::<char>::empty());
        Vec::new()
    } else {
        assert(p@.take(j as int).drop_last() == p@.subrange(0, j - 1));
        slice_chars(p, 0, j - 1)
    }
}

/// Applies one component to the directory `cur` (see `step`).
fn step_exec(cur: &mut Vec<char>, seg: &[char], sep: char)
    ensures
        final(cur)@ == step(old(cur)@, seg@, sep),
{
    if seg.len() == 0 {
        return ;
    }
    if seg.len() == 1 && seg[0] == '.' {
        assert(seg@ == seq!['.']);
        return ;
    }
    if seg.len() == 2 && seg[0] == '.' && seg[1] == '.' {
        assert(seg@ == seq!['.', '.']);
        let p = parent_exec(cur.as_slice());
        *cur = p;
        return ;
    }
    assert(seg@ != seq!['.'] && seg@ != seq!['.', '.']) by {
        if seg@ == seq!['.'] {
            assert(seg@[0] == '.');
        }
        if seg@ == seq!['.', '.'] {
            assert(seg@[0] == '.' && seg@[1] == '.');
        }
    }
    let n = cur.len();
    if !(n > 0 && (cur[n - 1] == '/' || cur[n - 1] == '\\')) {
        cur.push(sep);
    }
    push_chars(cur, seg);
}

/// Applies the components of `rel` to `base` (see `walk`).
fn walk_exec(base: &[char], rel: &[char], sep: char) -> (r: Vec<char>)
    ensures
        r@ == walk(base@, Seq::empty(), rel@, sep),
{
    let mut cur = slice_chars(base, 0, base.len());
    assert(base@.subrange(0, base@.len() as int) == base@);
    let mut seg: Vec<char> = Vec::new();
    let mut i: usize = 0;
    assert(rel@.skip(0) == rel@);
    while i < rel.len()
        invariant
            i <= rel.len(),
            walk(cur@, seg@, rel@.skip(i as int), sep) == walk(base@, Seq::<char>::empty(), rel@, sep),
        decreases rel.len() - i,
    {
        assert(rel@.skip(i as int).drop_first() == rel@.skip(i + 1));
        assert(rel@.skip(i as int)[0] == rel@[i as int]);
        if rel[i] == '/' || rel[i] == '\\' {
            step_exec(&mut cur, seg.as_slice(), sep);
            seg = Vec::new();
        } else {
            seg.push(rel[i]);
        }
        i += 1;
    }
    step_exec(&mut cur, seg.as_slice(), sep);
    cur
}

/// The parent of a path is shorter than the path, when it is not empty.
proof fn lemma_parent_shorter(p: Seq<char>)
    ensures
        p.len() > 0 ==> parent_of(p).len() < p.len(),
    decreases p.len(),
{
    if p.len() > 0 && !is_sep(p.last()) {
        lemma_parent_shorter(p.drop_last());
        assert(parent_of(p) == parent_of(p.drop_last()));
        if p.drop_last().len() == 0 {
            assert(parent_of(p.drop_last()).len() == 0);
        }
    }
}

/// Reading characters that hold no separator only extends the component.
proof fn lemma_walk_within_component(cur: Seq<char>, seg: Seq<char>, rel: Seq<char>, sep: char)
    requires
        forall|i: int| 0 <= i < rel.len() ==> !is_sep(#[trigger] rel[i]),
    ensures
        walk(cur, seg, rel, sep) == step(cur, seg + rel, sep),
    decreases rel.len(),
{
    if rel.len() == 0 {
        assert(seg + rel == seg);
    } else {
        assert(!is_sep(rel[0]));
        lemma_walk_within_component(cur, seg.push(rel[0]), rel.drop_first(), sep);
        assert(seg.push(rel[0]) + rel.drop_first() == seg + rel);
    }
}

/// Climbing out of the project root with `..` leads outside it: resolving
/// `..` from the root names a path that is not inside the root.
pub proof fn law_climbing_out_of_the_root_is_refused(root: Seq<char>)
    requires
        root.len() > 0,
    ensures
        !plainly_inside_root(root, resolved_path(root, ".."@)),
{
    reveal_strlit("..");
    reveal_strlit("/");
    reveal_strlit("\\");
    let dots = ".."@;
    assert(!rooted(dots)) by {
        assert(dots.take(1)[0] == '.');
    }
    let sep = sep_of(root);
    assert(dots.drop_first() == seq!['.']);
    assert(dots.drop_first().drop_first() == Seq::<char>::empty());
    assert(Seq::<char>::empty().push('.').push('.') == seq!['.', '.']);
    assert(walk(root, seq!['.', '.'], Seq::empty(), sep) == parent_of(root));
    assert(walk(root, seq!['.'], seq!['.'], sep) == parent_of(root));
    assert(walk(root, Seq::empty(), dots, sep) == parent_of(root));
    lemma_parent_shorter(root);
}

/// A plain name resolves to the name inside the current directory: the
/// directory, a separator and the name.
pub proof fn law_name_resolves_inside_the_directory(cwd: Seq<char>, name: Seq<char>)
    requires
        cwd.len() > 0,
        !is_sep(cwd.last()),
        name.len() > 0,
        name != seq!['.'],
        name != seq!['.', '.'],
        forall|i: int| 0 <= i < name.len() ==> !is_sep(#[trigger] name[i]),
    ensures
        resolved_path(cwd, name) == cwd.push(sep_of(cwd)) + name,
{
    reveal_strlit("/");
    reveal_strlit("\\");
    assert(!rooted(name)) by {
        assert(!is_sep(name[0]));
        assert(name.len() >= 3 ==> !is_sep(name[2]));
        assert(name.len() >= 1 ==> name.take(1)[0] == name[0]);
    }
    lemma_walk_within_component(cwd, Seq::empty(), name, sep_of(cwd));
    assert(Seq::<char>::empty() + name == name);
}

/// The error for a path outside the project root.
pub open spec fn outside_root_message(p: Seq<char>) -> Seq<char> {
    "Path is outside the project root: "@ + p
}

/// Whether `p` lies inside `root` (see `plainly_inside_root`).
pub fn is_within_root(root: &str, p: &str) -> (r: bool)
    ensures
        r == plainly_inside_root(root@, p@),
{
    let rc = chars_of(root);
    let pc = chars_of(p);
    if rc.len() == 0 || !starts_with_exec(pc.as_slice(), rc.as_slice()) {
        return false;
    }
    let n = rc.len();
    let boundary = pc.len() == n || rc[n - 1] == '/' || rc[n - 1] == '\\' || pc[n] == '/' || pc[n] == '\\';
    if !boundary {
        return false;
    }
    let rest = slice_chars(pc.as_slice(), n, pc.len());
    assert(rest@ == p@.skip(root@.len() as int));
    !contains_str(rest.as_slice(), "/..") && !contains_str(rest.as_slice(), "\\..")
}

/// The error for a path outside the project root.
fn outside_root_error(p: &str) -> (r: String)
    ensures
        r@ == outside_root_message(p@),
{
    let mut out = chars_of("Path is outside the project root: ");
    push_str(&mut out, p);
    string_from_chars(out.as_slice())
}

impl ToolContext {
    /// A context that is not initialized yet.
    pub fn new() -> (r: ToolContext)
        ensures
            r.project_root@.len() == 0,
            r.current_dir@.len() == 0,
    {
        ToolContext { project_root: String::new(), current_dir: String::new() }
    }

    /// Starts the context at a project root (already checked to be a directory
    /// and made canonical): it is both the root and the current directory.
    pub fn initialize(&mut self, normalized_root: String)
        ensures
            final(self).project_root == normalized_root,
            final(self).current_dir == normalized_root,
    {
        self.current_dir = normalized_root.clone();
        self.project_root = normalized_root;
    }

    /// The current directory, or an error before initialization.
    pub fn current_dir(&self) -> (r: Result<String, String>)
        ensures
            self.current_dir@.len() == 0 ==> (r matches Err(e) && e@ == not_initialized_message()),
            self.current_dir@.len() > 0 ==> r == Ok::<String, String>(self.current_dir),
    {
        if self.current_dir.as_str().is_empty() {
            return Err(owned("Tool context not initialized"));
        }
        Ok(self.current_dir.clone())
    }

    /// A path made canonical by the caller, when it lies inside the project
    /// root; an error otherwise (and before initialization).
    pub fn confine(&self, canonical: &str) -> (r: Result<String, String>)
        ensures
            r is Ok <==> plainly_inside_root(self.project_root@, canonical@),
            r matches Ok(p) ==> p@ == canonical@,
            r matches Err(e) ==> e@ == (if self.project_root@.len() == 0 {
                not_initialized_message()
            } else {
                outside_root_message(canonical@)
            }),
    {
        if self.project_root.as_str().is_empty() {
            return Err(owned("Tool context not initialized"));
        }
        if is_within_root(self.project_root.as_str(), canonical) {
            Ok(owned(canonical))
        } else {
            Err(outside_root_error(canonical))
        }
    }

    /// Where a path points (see `resolved_path`), read from its own root or
    /// from the current directory; an error before initialization when it is
    /// not rooted.
    fn resolve_chars(&self, path: &str) -> (r: Option<Vec<char>>)
        ensures
            r is None <==> (!rooted(path@) && self.current_dir@.len() == 0),
            r matches Some(v) ==> v@ == resolved_path(self.current_dir@, path@),
    {
        let pc = chars_of(path);
        if is_rooted(pc.as_slice()) {
            proof {
                reveal_strlit("/");
                reveal_strlit("\\");
                assert(path@.len() > 0 ==> path@.take(1)[0] == path@[0]);
            }
            let k: usize = if pc[0] == '/' || pc[0] == '\\' {
                1
            } else {
                3
            };
            let head = slice_chars(pc.as_slice(), 0, k);
            let rest = slice_chars(pc.as_slice(), k, pc.len());
            assert(head@ == path@.take(root_len(path@)));
            assert(rest@ == path@.skip(root_len(path@)));
            Some(walk_exec(head.as_slice(), rest.as_slice(), sep_for(pc.as_slice())))
        } else if self.current_dir.as_str().is_empty() {
            None
        } else {
            let base = chars_of(self.current_dir.as_str());
            Some(walk_exec(base.as_slice(), pc.as_slice(), sep_for(base.as_slice())))
        }
    }

    /// Where a path points (see `resolved_path`) when that lies inside the
    /// project root; an error before initialization, and an error naming the
    /// resolved path when it lies outside the root (the caller checks the
    /// canonical form again with `confine`, for links).
    pub fn resolve_path(&self, path: &str) -> (r: Result<String, String>)
        ensures
            !rooted(path@) && self.current_dir@.len() == 0 ==> (r matches Err(e) && e@
                == not_initialized_message()),
            rooted(path@) || self.current_dir@.len() > 0 ==> {
                let target = resolved_path(self.current_dir@, path@);
                &&& (r is Ok <==> plainly_inside_root(self.project_root@, target))
                &&& (r matches Ok(p) ==> p@ == target)
                &&& (r matches Err(e) ==> e@ == (if self.project_root@.len() == 0 {
                    not_initialized_message()
                } else {
                    outside_root_message(target)
                }))
            },
    {
        match self.resolve_chars(path) {
            None => Err(owned("Tool context not initialized")),
            Some(target) => {
                let text = string_from_chars(target.as_slice());
                self.confine(text.as_str())
            },
        }
    }

    /// The directory a change of directory asks for, before it is checked
    /// (see `resolved_path`); an error before initialization.
    pub fn candidate_dir(&self, path: &str) -> (r: Result<String, String>)
        ensures
            self.current_dir@.len() == 0 <==> r is Err,
            r matches Err(e) ==> e@ == not_initialized_message(),
            r matches Ok(p) ==> p@ == resolved_path(self.current_dir@, path@),
    {
        if self.current_dir.as_str().is_empty() {
            return Err(owned("Tool context not initialized"));
        }
        match self.resolve_chars(path) {
            None => Err(owned("Tool context not initialized")),
            Some(target) => Ok(string_from_chars(target.as_slice())),
        }
    }

    /// Moves to a directory that was checked and made canonical, when it lies
    /// inside the project root; otherwise the current directory stays and the
    /// error says why.
    pub fn enter_dir(&mut self, normalized: String) -> (r: Result<(), String>)
        ensures
            r is Ok <==> plainly_inside_root(old(self).project_root@, normalized@),
            r is Ok ==> final(self).current_dir == normalized,
            r is Err ==> final(self).current_dir == old(self).current_dir,
            r matches Err(e) ==> e@ == (if old(self).project_root@.len() == 0 {
                not_initialized_message()
            } else {
                outside_root_message(normalized@)
            }),
            final(self).project_root == old(self).project_root,
    {
        match self.confine(normalized.as_str()) {
            Ok(_) => {
                self.current_dir = normalized;
                Ok(())
            },
            Err(e) => Err(e),
        }
    }
}

} // verus!
