//! The path confinement guard: maps a client-supplied logical path onto a
//! location under the server root.
//!
//! The policy is lexical: one leading `/` is dropped, every occurrence of
//! `..` is removed in a single left-to-right pass, and what is left is joined
//! onto the root. The joined result is never an absolute path of its own and
//! never holds a `..`, so it stays under the root.

use vstd::prelude::*;
use crate::text::{owned, push_char};

verus! {

/// `s` without its first character when that character is `/`.
pub open spec fn strip_leading_slash(s: Seq<char>) -> Seq<char> {
    if s.len() > 0 && s[0] == '/' {
        s.drop_first()
    } else {
        s
    }
}

/// `s` with every `..` removed, scanning left to right without overlap.
pub open spec fn remove_dotdot(s: Seq<char>) -> Seq<char>
    decreases s.len(),
{
    if s.len() == 0 {
        s
    } else if s.len() >= 2 && s[0] == '.' && s[1] == '.' {
        remove_dotdot(s.subrange(2, s.len() as int))
    } else {
        seq![s[0]] + remove_dotdot(s.drop_first())
    }
}

/// No two adjacent characters of `s` are both `.`.
pub open spec fn free_of_dotdot(s: Seq<char>) -> bool {
    forall|i: int| 0 <= i < s.len() - 1 ==> !(#[trigger] s[i] == '.' && s[i + 1] == '.')
}

/// The relative part that the guard keeps of a client path.
pub open spec fn cleaned(path: Seq<char>) -> Seq<char> {
    remove_dotdot(strip_leading_slash(path))
}

/// Where a client path lands: the root itself when nothing is left of the
/// path, else the root, a separator and the cleaned relative part.
pub open spec fn confined(root: Seq<char>, path: Seq<char>) -> Seq<char> {
    if cleaned(path).len() == 0 {
        root
    } else {
        root + seq!['/'] + cleaned(path)
    }
}

/// `p` is `root` or lies beneath it: `root`, a separator, then a relative
/// part with no `..` in it.
pub open spec fn within_root(root: Seq<char>, p: Seq<char>) -> bool {
    p == root || exists|rel: Seq<char>|
        p == root + seq!['/'] + rel && free_of_dotdot(rel)
}

proof fn lemma_remove_dotdot_head(s: Seq<char>)
    requires
        s.len() > 0,
        !(s.len() >= 2 && s[0] == '.' && s[1] == '.'),
    ensures
        remove_dotdot(s).len() > 0,
        remove_dotdot(s)[0] == s[0],
{
}

/// The single pass leaves no `..` behind.
pub proof fn lemma_remove_dotdot_free(s: Seq<char>)
    ensures
        free_of_dotdot(remove_dotdot(s)),
    decreases s.len(),
{
    if s.len() == 0 {
    } else if s.len() >= 2 && s[0] == '.' && s[1] == '.' {
        lemma_remove_dotdot_free(s.subrange(2, s.len() as int));
    } else {
        let t = s.drop_first();
        lemma_remove_dotdot_free(t);
        let r = remove_dotdot(t);
        if t.len() > 0 && s[0] == '.' {
            lemma_remove_dotdot_head(t);
        }
        let whole = seq![s[0]] + r;
        assert(remove_dotdot(s) == whole);
        assert forall|i: int| 0 <= i < whole.len() - 1 implies !(#[trigger] whole[i] == '.'
            && whole[i + 1] == '.') by {
            if i > 0 {
                assert(whole[i] == r[i - 1]);
                assert(whole[i + 1] == r[i]);
            }
        }
    }
}

/// Every client path, whatever `..` or `/` it holds, resolves to the root or
/// beneath it.
pub proof fn lemma_confined_within_root(root: Seq<char>, path: Seq<char>)
    ensures
        within_root(root, confined(root, path)),
{
    lemma_remove_dotdot_free(strip_leading_slash(path));
    if cleaned(path).len() > 0 {
        let rel = cleaned(path);
        assert(confined(root, path) == root + seq!['/'] + rel && free_of_dotdot(rel));
    }
}

/// Removes every `..` from `s` in one left-to-right pass.
pub fn remove_dotdot_str(s: &str) -> (r: String)
    ensures
        r@ == remove_dotdot(s@),
{
    let n = s.unicode_len();
    let mut out = String::new();
    let mut i: usize = 0;
    assert(s@.subrange(0, n as int) == s@);
    assert(out@ + remove_dotdot(s@) == remove_dotdot(s@));
    while i < n
        invariant
            n == s@.len(),
            i <= n,
            out@ + remove_dotdot(s@.subrange(i as int, n as int)) == remove_dotdot(s@),
        decreases n - i,
    {
        let rest = Ghost(s@.subrange(i as int, n as int));
        let c = s.get_char(i);
        if i + 1 < n && c == '.' && s.get_char(i + 1) == '.' {
            assert(s@.subrange(i + 2, n as int) == rest@.subrange(2, rest@.len() as int));
            i = i + 2;
        } else {
            assert(s@.subrange(i + 1, n as int) == rest@.drop_first());
            assert(out@.push(c) + remove_dotdot(s@.subrange(i + 1, n as int)) == out@ + (seq![c]
                + remove_dotdot(rest@.drop_first())));
            push_char(&mut out, c);
            i = i + 1;
        }
    }
    assert(s@.subrange(n as int, n as int).len() == 0);
    assert(out@ + remove_dotdot(s@.subrange(n as int, n as int)) == out@);
    out
}

/// The relative part that the guard keeps of `path`.
pub fn clean_path(path: &str) -> (r: String)
    ensures
        r@ == cleaned(path@),
{
    let n = path.unicode_len();
    if n > 0 && path.get_char(0) == '/' {
        remove_dotdot_str(path.substring_char(1, n))
    } else {
        remove_dotdot_str(path)
    }
}

/// Resolves a client path under `root`. Every filesystem location that a
/// handler touches on a client's behalf comes from here.
pub fn confine(root: &str, path: &str) -> (r: String)
    ensures
        r@ == confined(root@, path@),
        within_root(root@, r@),
{
    proof {
        lemma_confined_within_root(root@, path@);
    }
    let rel = clean_path(path);
    let mut out = owned(root);
    if rel.unicode_len() == 0 {
        return out;
    }
    push_char(&mut out, '/');
    out.append(rel.as_str());
    out
}

} // verus!
