//! The client's navigation state: the current remote directory and the one
//! before it. It lets repeated list, up and down commands feel stateful and
//! carries no protocol meaning.

use vstd::prelude::*;
use crate::text::{owned, push_char};

verus! {

/// Current and previous remote directory.
#[derive(Debug, Clone, PartialEq, Eq)]
pub struct State {
    pub cwd: String,
    pub prev: String,
}

impl Default for State {
    /// Both directories at the root.
    fn default() -> (r: State)
        ensures
            r.cwd@ == seq!['/'],
            r.prev@ == seq!['/'],
    {
        State { cwd: root_dir(), prev: root_dir() }
    }
}

/// The string `/`.
fn root_dir() -> (r: String)
    ensures
        r@ == seq!['/'],
{
    let mut s = String::new();
    push_char(&mut s, '/');
    s
}

/// `s` with each `//` turned into `/`, scanning left to right without
/// overlap.
pub open spec fn collapse_slashes(s: Seq<char>) -> Seq<char>
    decreases s.len(),
{
    if s.len() == 0 {
        s
    } else if s.len() >= 2 && s[0] == '/' && s[1] == '/' {
        seq!['/'] + collapse_slashes(s.subrange(2, s.len() as int))
    } else {
        seq![s[0]] + collapse_slashes(s.drop_first())
    }
}

/// `s` without any trailing `/`.
pub open spec fn trim_trailing_slashes(s: Seq<char>) -> Seq<char>
    decreases s.len(),
{
    if s.len() > 0 && s.last() == '/' {
        trim_trailing_slashes(s.drop_last())
    } else {
        s
    }
}

/// `s` with a `/` in front unless it starts with one.
pub open spec fn rooted(s: Seq<char>) -> Seq<char> {
    if s.len() > 0 && s[0] == '/' {
        s
    } else {
        seq!['/'] + s
    }
}

/// The normal form of a remote directory: `/` for nothing; else doubled
/// slashes collapsed, a leading `/` added, and trailing slashes dropped from
/// anything longer than one character.
pub open spec fn normal_form(path: Seq<char>) -> Seq<char> {
    if path.len() == 0 {
        seq!['/']
    } else {
        let p = rooted(collapse_slashes(path));
        if p.len() > 1 && p.last() == '/' {
            trim_trailing_slashes(p)
        } else {
            p
        }
    }
}

/// Where `dir` leads from `cwd`: an absolute `dir` on its own, else `dir`
/// below `cwd`; the result in normal form.
pub open spec fn joined(cwd: Seq<char>, dir: Seq<char>) -> Seq<char> {
    if dir.len() > 0 && dir[0] == '/' {
        normal_form(dir)
    } else if cwd == seq!['/'] {
        normal_form(seq!['/'] + dir)
    } else {
        normal_form(trim_trailing_slashes(cwd) + seq!['/'] + dir)
    }
}

/// `s` with each `//` turned into `/`.
fn collapse_slashes_str(s: &str) -> (r: String)
    ensures
        r@ == collapse_slashes(s@),
{
    let n = s.unicode_len();
    let mut out = String::new();
    let mut i: usize = 0;
    assert(s@.subrange(0, n as int) == s@);
    assert(out@ + collapse_slashes(s@) == collapse_slashes(s@));
    while i < n
        invariant
            n == s@.len(),
            i <= n,
            out@ + collapse_slashes(s@.subrange(i as int, n as int)) == collapse_slashes(s@),
        decreases n - i,
    {
        let rest = Ghost(s@.subrange(i as int, n as int));
        let c = s.get_char(i);
        if i + 1 < n && c == '/' && s.get_char(i + 1) == '/' {
            assert(s@.subrange(i + 2, n as int) == rest@.subrange(2, rest@.len() as int));
            assert(out@.push('/') + collapse_slashes(s@.subrange(i + 2, n as int)) == out@ + (seq!['/']
                + collapse_slashes(rest@.subrange(2, rest@.len() as int))));
            push_char(&mut out, '/');
            i = i + 2;
        } else {
            assert(s@.subrange(i + 1, n as int) == rest@.drop_first());
            assert(out@.push(c) + collapse_slashes(s@.subrange(i + 1, n as int)) == out@ + (seq![c]
                + collapse_slashes(rest@.drop_first())));
            push_char(&mut out, c);
            i = i + 1;
        }
    }
    assert(out@ + collapse_slashes(s@.subrange(n as int, n as int)) == out@);
    out
}

/// The length of `s` without its trailing slashes.
pub(crate) fn trimmed_len(s: &str) -> (k: usize)
    ensures
        k <= s@.len(),
        s@.subrange(0, k as int) == trim_trailing_slashes(s@),
{
    let mut k = s.unicode_len();
    assert(s@.subrange(0, k as int) == s@);
    while k > 0 && s.get_char(k - 1) == '/'
        invariant
            k <= s@.len(),
            trim_trailing_slashes(s@.subrange(0, k as int)) == trim_trailing_slashes(s@),
        decreases k,
    {
        assert(s@.subrange(0, k as int).drop_last() == s@.subrange(0, k - 1));
        k = k - 1;
    }
    k
}

/// `s` without trailing slashes.
fn trim_trailing_slashes_str(s: &str) -> (r: String)
    ensures
        r@ == trim_trailing_slashes(s@),
{
    let k = trimmed_len(s);
    owned(s.substring_char(0, k))
}

/// Brings a remote directory into normal form.
pub fn normalize(path: &str) -> (r: String)
    ensures
        r@ == normal_form(path@),
{
    if path.unicode_len() == 0 {
        return root_dir();
    }
    let collapsed = collapse_slashes_str(path);
    let p = if collapsed.unicode_len() > 0 && collapsed.as_str().get_char(0) == '/' {
        collapsed
    } else {
        let mut q = root_dir();
        q.append(collapsed.as_str());
        q
    };
    let n = p.unicode_len();
    if n > 1 && p.as_str().get_char(n - 1) == '/' {
        trim_trailing_slashes_str(p.as_str())
    } else {
        p
    }
}

/// Where `dir` leads from `cwd`.
pub fn join(cwd: &str, dir: &str) -> (r: String)
    ensures
        r@ == joined(cwd@, dir@),
{
    if dir.unicode_len() > 0 && dir.get_char(0) == '/' {
        return normalize(dir);
    }
    if cwd.unicode_len() == 1 && cwd.get_char(0) == '/' {
        assert(cwd@ == seq!['/']);
        let mut p = root_dir();
        p.append(dir);
        return normalize(p.as_str());
    }
    assert(cwd@ != seq!['/']) by {
        if cwd@ == seq!['/'] {
            assert(cwd@.len() == 1 && cwd@[0] == '/');
        }
    }
    let mut p = trim_trailing_slashes_str(cwd);
    push_char(&mut p, '/');
    p.append(dir);
    assert(p@ =~= trim_trailing_slashes(cwd@) + seq!['/'] + dir@);
    normalize(p.as_str())
}

/// The directory above `path`: everything before its last `/`, or `/` when
/// that leaves nothing.
pub open spec fn parent_of(path: Seq<char>) -> Seq<char> {
    if exists|i: int| 0 <= i < path.len() && path[i] == '/' {
        let i = choose|i: int|
            0 <= i < path.len() && path[i] == '/' && forall|j: int|
                i < j < path.len() ==> path[j] != '/';
        if i == 0 {
            seq!['/']
        } else {
            path.subrange(0, i)
        }
    } else {
        seq!['/']
    }
}

/// The directory above a normalized remote directory.
pub fn parent_dir(path: &str) -> (r: String)
    ensures
        r@ == parent_of(path@),
{
    let mut k = path.unicode_len();
    while k > 0 && path.get_char(k - 1) != '/'
        invariant
            k <= path@.len(),
            forall|j: int| k <= j < path@.len() ==> path@[j] != '/',
        decreases k,
    {
        k = k - 1;
    }
    if k == 0 {
        assert(!exists|i: int| 0 <= i < path@.len() && path@[i] == '/');
        return root_dir();
    }
    let i = k - 1;
    assert(path@[i as int] == '/');
    assert(forall|j: int| i < j < path@.len() ==> path@[j] != '/');
    let ghost c = choose|c: int|
        0 <= c < path@.len() && path@[c] == '/' && forall|j: int| c < j < path@.len() ==> path@[j] != '/';
    assert(c == i);
    if i == 0 {
        root_dir()
    } else {
        owned(path.substring_char(0, i))
    }
}

impl State {
    /// Lists `path`, or the current directory when none is given: the
    /// listed directory becomes current and the old one previous. Returns
    /// the directory to list.
    pub fn enter(&mut self, path: Option<&str>) -> (r: String)
        ensures
            r@ == match path {
                Some(p) => normal_form(p@),
                None => normal_form(old(self).cwd@),
            },
            final(self).cwd@ == r@,
            final(self).prev@ == old(self).cwd@,
    {
        let target = match path {
            Some(p) => normalize(p),
            None => normalize(self.cwd.as_str()),
        };
        self.prev = owned(self.cwd.as_str());
        self.cwd = owned(target.as_str());
        target
    }

    /// Moves one directory up.
    pub fn go_up(&mut self)
        ensures
            final(self).cwd@ == normal_form(parent_of(old(self).cwd@)),
            final(self).prev@ == old(self).cwd@,
    {
        let parent = parent_dir(self.cwd.as_str());
        self.prev = owned(self.cwd.as_str());
        self.cwd = normalize(parent.as_str());
    }

    /// Moves into `dir` below the current directory, or, with no `dir`,
    /// swaps back to the previous one.
    pub fn go_down(&mut self, dir: Option<&str>)
        ensures
            dir matches Some(d) ==> final(self).cwd@ == joined(old(self).cwd@, d@)
                && final(self).prev@ == old(self).cwd@,
            dir is None ==> final(self).cwd@ == normal_form(old(self).prev@)
                && final(self).prev@ == old(self).cwd@,
    {
        match dir {
            Some(d) => {
                let next = join(self.cwd.as_str(), d);
                self.prev = owned(self.cwd.as_str());
                self.cwd = next;
            },
            None => {
                let back = normalize(self.prev.as_str());
                self.prev = owned(self.cwd.as_str());
                self.cwd = back;
            },
        }
    }
}

/// The file that keeps the navigation state inside the configuration
/// directory.
pub fn state_file(config_dir: &str) -> (r: String)
    ensures
        r@ == config_dir@ + "/state.json"@,
{
    let mut p = owned(config_dir);
    p.append("/state.json");
    p
}

} // verus!
