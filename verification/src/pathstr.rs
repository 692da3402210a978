//! Textual path manipulation: substring containment, parent directories,
//! ancestor walks and path joining. Paths are modelled as their character
//! sequences; a separator is `/` or `\`.

use vstd::prelude::*;
use vstd::string::StrSliceExecFns;
use vstd::string::StringExecFns;

verus! {

/// `needle` occurs contiguously somewhere inside `hay`.
pub open spec fn contains_seq(hay: Seq<char>, needle: Seq<char>) -> bool {
    exists|i: int|
        0 <= i && i + needle.len() <= hay.len() && #[trigger] hay.subrange(i, i + needle.len())
            == needle
}

/// Every sequence contains itself.
pub proof fn lemma_contains_self(s: Seq<char>)
    ensures
        contains_seq(s, s),
{
    assert(s.subrange(0, 0 + s.len() as int) =~= s);
}

/// Containment survives appending on the right.
pub proof fn lemma_contains_extend_right(a: Seq<char>, b: Seq<char>, needle: Seq<char>)
    requires
        contains_seq(a, needle),
    ensures
        contains_seq(a + b, needle),
{
    let i = choose|i: int|
        0 <= i && i + needle.len() <= a.len() && #[trigger] a.subrange(i, i + needle.len())
            == needle;
    assert((a + b).subrange(i, i + needle.len() as int) =~= a.subrange(i, i + needle.len() as int));
}

/// Containment survives prepending on the left.
pub proof fn lemma_contains_extend_left(a: Seq<char>, b: Seq<char>, needle: Seq<char>)
    requires
        contains_seq(b, needle),
    ensures
        contains_seq(a + b, needle),
{
    let i = choose|i: int|
        0 <= i && i + needle.len() <= b.len() && #[trigger] b.subrange(i, i + needle.len())
            == needle;
    let j = a.len() + i;
    assert((a + b).subrange(j, j + needle.len() as int) =~= b.subrange(i, i + needle.len() as int));
}

/// Containment is transitive.
pub proof fn lemma_contains_trans(a: Seq<char>, b: Seq<char>, c: Seq<char>)
    requires
        contains_seq(a, b),
        contains_seq(b, c),
    ensures
        contains_seq(a, c),
{
    let i = choose|i: int|
        0 <= i && i + b.len() <= a.len() && #[trigger] a.subrange(i, i + b.len()) == b;
    let j = choose|j: int|
        0 <= j && j + c.len() <= b.len() && #[trigger] b.subrange(j, j + c.len()) == c;
    assert(a.subrange(i + j, i + j + c.len() as int) =~= b.subrange(j, j + c.len() as int));
}

/// Whether `needle` occurs inside `hay`, by character comparison.
pub fn contains_str(hay: &str, needle: &str) -> (r: bool)
    ensures
        r == contains_seq(hay@, needle@),
{
    let h = hay.unicode_len();
    let n = needle.unicode_len();
    if n > h {
        assert(!contains_seq(hay@, needle@));
        return false;
    }
    if n == 0 {
        proof {
            assert(hay@.subrange(0, 0 + needle@.len() as int) =~= needle@);
        }
        return true;
    }
    let mut i: usize = 0;
    while i <= h - n
        invariant
            1 <= n <= h,
            h == hay@.len(),
            n == needle@.len(),
            i <= h - n + 1,
            forall|k: int|
                0 <= k < i ==> #[trigger] hay@.subrange(k, k + needle@.len()) != needle@,
        decreases h - n - i + 1,
    {
        let mut j: usize = 0;
        let mut matched = true;
        while j < n
            invariant
                n <= h,
                h == hay@.len(),
                n == needle@.len(),
                i + n <= h,
                j <= n,
                matched ==> forall|l: int| 0 <= l < j ==> hay@[i + l] == needle@[l],
                !matched ==> hay@.subrange(i as int, i + needle@.len()) != needle@,
            decreases n - j,
        {
            if hay.get_char(i + j) != needle.get_char(j) {
                matched = false;
                proof {
                    let sub = hay@.subrange(i as int, i + needle@.len());
                    assert(sub[j as int] == hay@[i + j]);
                    assert(sub != needle@);
                }
                j = n;
            } else {
                j = j + 1;
            }
        }
        if matched {
            proof {
                assert(hay@.subrange(i as int, i + needle@.len()) =~= needle@);
            }
            return true;
        }
        proof {
            assert(hay@.subrange(i as int, i + needle@.len()) != needle@);
        }
        i = i + 1;
    }
    assert forall|k: int| 0 <= k && k + needle@.len() <= hay@.len() implies #[trigger] hay@
        .subrange(k, k + needle@.len()) != needle@ by {
        assert(k < i);
    }
    false
}

/// A path separator character.
pub open spec fn is_sep(c: char) -> bool {
    c == '/' || c == '\\'
}

/// The parent of a path: the text before its last separator, or `None` when
/// the path holds no separator at all.
pub open spec fn spec_parent(s: Seq<char>) -> Option<Seq<char>>
    decreases s.len(),
{
    if s.len() == 0 {
        None
    } else if is_sep(s[s.len() - 1]) {
        Some(s.drop_last())
    } else {
        spec_parent(s.drop_last())
    }
}

/// The parent of a path, as text.
pub fn parent_dir(s: &str) -> (r: Option<String>)
    ensures
        r is Some <==> spec_parent(s@) is Some,
        r matches Some(p) ==> spec_parent(s@) == Some(p@),
{
    let n = s.unicode_len();
    proof {
        assert(s@.subrange(0, n as int) =~= s@);
    }
    let mut i: usize = n;
    while i > 0
        invariant
            i <= n,
            n == s@.len(),
            spec_parent(s@) == spec_parent(s@.subrange(0, i as int)),
        decreases i,
    {
        let c = s.get_char(i - 1);
        proof {
            let pre = s@.subrange(0, i as int);
            assert(pre.drop_last() =~= s@.subrange(0, i - 1));
            assert(pre[pre.len() - 1] == s@[i - 1]);
        }
        if c == '/' || c == '\\' {
            let p = s.substring_char(0, i - 1);
            return Some(String::from_str(p));
        }
        i = i - 1;
    }
    proof {
        assert(s@.subrange(0, 0) =~= Seq::<char>::empty());
    }
    None
}

/// The `n`-th ancestor of a path: the parent taken `n` times, or `None` when
/// the chain of parents ends first.
pub open spec fn spec_ancestor(s: Seq<char>, n: nat) -> Option<Seq<char>>
    decreases n,
{
    if n == 0 {
        Some(s)
    } else {
        match spec_parent(s) {
            Some(p) => spec_ancestor(p, (n - 1) as nat),
            None => None,
        }
    }
}

/// The `n`-th ancestor of a path, as text.
pub fn ancestor_dir(s: &str, n: usize) -> (r: Option<String>)
    ensures
        r is Some <==> spec_ancestor(s@, n as nat) is Some,
        r matches Some(p) ==> spec_ancestor(s@, n as nat) == Some(p@),
{
    let mut cur = String::from_str(s);
    let mut k: usize = 0;
    while k < n
        invariant
            k <= n,
            spec_ancestor(s@, n as nat) == spec_ancestor(cur@, (n - k) as nat),
        decreases n - k,
    {
        match parent_dir(cur.as_str()) {
            Some(p) => {
                cur = p;
            },
            None => {
                return None;
            },
        }
        k = k + 1;
    }
    Some(cur)
}

/// Joining a directory and a file name with a `/` separator.
pub open spec fn spec_join(dir: Seq<char>, file: Seq<char>) -> Seq<char> {
    dir + "/"@ + file
}

/// Joins a directory and a file name with a `/` separator.
pub fn join_path(dir: &str, file: &str) -> (r: String)
    ensures
        r@ == spec_join(dir@, file@),
{
    let mut out = String::from_str(dir);
    out.append("/");
    out.append(file);
    out
}

} // verus!
