//! Character-level helpers over string views.
use vstd::prelude::*;
use vstd::string::StrSliceExecFns;

verus! {

/// Whether `c` occurs in `s`.
pub open spec fn spec_has_char(s: Seq<char>, c: char) -> bool {
    exists|i: int| 0 <= i < s.len() && s[i] == c
}

/// Whether `a` is immediately followed by `b` somewhere in `s`.
pub open spec fn spec_has_pair(s: Seq<char>, a: char, b: char) -> bool {
    exists|i: int| #![trigger s[i]] 0 <= i < s.len() - 1 && s[i] == a && s[i + 1] == b
}

/// Index of the first `c` in `s`, or `s.len()` when absent.
pub open spec fn spec_first_index(s: Seq<char>, c: char, i: int) -> bool {
    &&& 0 <= i <= s.len()
    &&& forall|j: int| 0 <= j < i ==> s[j] != c
    &&& i < s.len() ==> s[i] == c
}

/// The part of `s` before its first `c` (all of `s` when absent).
pub open spec fn spec_before_char(s: Seq<char>, c: char) -> Seq<char> {
    s.take(choose|i: int| spec_first_index(s, c, i))
}

/// Whether `p` is a prefix of `s`.
pub open spec fn spec_starts_with(s: Seq<char>, p: Seq<char>) -> bool {
    p.len() <= s.len() && s.take(p.len() as int) == p
}

/// Whether a `/`-separated path has an empty segment.
pub open spec fn spec_has_empty_segment(s: Seq<char>) -> bool {
    s.len() == 0 || s[0] == '/' || s[s.len() - 1] == '/' || spec_has_pair(s, '/', '/')
}

/// Whether a segment of a `/`-separated path is `.` or `..`.
pub open spec fn spec_has_dot_segment(s: Seq<char>) -> bool {
    exists|i: int| #![trigger s[i]]
        0 <= i < s.len() && s[i] == '.' && (i == 0 || s[i - 1] == '/') && (i + 1 == s.len()
            || s[i + 1] == '/' || (s[i + 1] == '.' && (i + 2 == s.len() || s[i + 2] == '/')))
}

proof fn lemma_first_index_unique(s: Seq<char>, c: char, i: int, j: int)
    requires
        spec_first_index(s, c, i),
        spec_first_index(s, c, j),
    ensures
        i == j,
{
}

/// Cutting at the first `c` of `p`, then `c`, then anything gives `p` back
/// when `p` holds no `c`; a text without `c` is kept whole.
pub proof fn lemma_before_first_separator(p: Seq<char>, c: char, rest: Seq<char>)
    requires
        !spec_has_char(p, c),
    ensures
        spec_before_char(p + seq![c] + rest, c) == p,
        spec_before_char(p, c) == p,
{
    let s = p + seq![c] + rest;
    assert(spec_first_index(s, c, p.len() as int)) by {
        assert forall|j: int| 0 <= j < p.len() implies s[j] != c by {
            assert(s[j] == p[j]);
        }
        assert(s[p.len() as int] == c);
    }
    let i = choose|i: int| spec_first_index(s, c, i);
    lemma_first_index_unique(s, c, i, p.len() as int);
    assert(s.take(p.len() as int) =~= p);
    assert(spec_first_index(p, c, p.len() as int));
    let k = choose|k: int| spec_first_index(p, c, k);
    lemma_first_index_unique(p, c, k, p.len() as int);
    assert(p.take(p.len() as int) =~= p);
}

/// The characters of a string.
pub fn chars_of(s: &str) -> (chars: Vec<char>)
    ensures
        chars@ == s@,
{
    let n = s.unicode_len();
    let mut chars: Vec<char> = Vec::new();
    let mut i: usize = 0;
    while i < n
        invariant
            n == s@.len(),
            i <= n,
            chars@ == s@.take(i as int),
        decreases n - i,
    {
        let c = s.get_char(i);
        chars.push(c);
        proof {
            assert(s@.take(i + 1) =~= s@.take(i as int).push(c));
        }
        i += 1;
    }
    proof {
        assert(s@.take(n as int) =~= s@);
    }
    chars
}

/// Character-wise equality of two string views.
pub fn text_eq(a: &str, b: &str) -> (equal: bool)
    ensures
        equal == (a@ == b@),
{
    let x = chars_of(a);
    let y = chars_of(b);
    seq_eq(&x, &y)
}

/// Equality of two character vectors.
pub fn seq_eq(x: &Vec<char>, y: &Vec<char>) -> (equal: bool)
    ensures
        equal == (x@ == y@),
{
    if x.len() != y.len() {
        return false;
    }
    let mut i: usize = 0;
    while i < x.len()
        invariant
            x@.len() == y@.len(),
            i <= x@.len(),
            forall|j: int| 0 <= j < i ==> x@[j] == y@[j],
        decreases x@.len() - i,
    {
        if x[i] != y[i] {
            return false;
        }
        i += 1;
    }
    proof {
        assert(x@ =~= y@);
    }
    true
}

/// Whether `c` occurs in `s`.
pub fn has_char(s: &Vec<char>, c: char) -> (found: bool)
    ensures
        found == spec_has_char(s@, c),
{
    let mut i: usize = 0;
    while i < s.len()
        invariant
            i <= s@.len(),
            forall|j: int| 0 <= j < i ==> s@[j] != c,
        decreases s@.len() - i,
    {
        if s[i] == c {
            return true;
        }
        i += 1;
    }
    false
}

/// Whether `a` is immediately followed by `b` in `s`.
pub fn has_pair(s: &Vec<char>, a: char, b: char) -> (found: bool)
    ensures
        found == spec_has_pair(s@, a, b),
{
    if s.len() < 2 {
        return false;
    }
    let mut i: usize = 0;
    while i < s.len() - 1
        invariant
            s@.len() >= 2,
            i <= s@.len(),
            forall|j: int| #![trigger s@[j]] 0 <= j < i && j < s@.len() - 1 ==> !(s@[j] == a && s@[j + 1] == b),
        decreases s@.len() - i,
    {
        if s[i] == a && s[i + 1] == b {
            return true;
        }
        i += 1;
    }
    false
}

/// Index of the first `c` in `s`, or its length.
pub fn first_index(s: &Vec<char>, c: char) -> (index: usize)
    ensures
        spec_first_index(s@, c, index as int),
{
    let mut i: usize = 0;
    while i < s.len()
        invariant
            i <= s@.len(),
            forall|j: int| 0 <= j < i ==> s@[j] != c,
        decreases s@.len() - i,
    {
        if s[i] == c {
            return i;
        }
        i += 1;
    }
    i
}

/// The characters before the first `c`.
pub fn before_char(s: &Vec<char>, c: char) -> (prefix: Vec<char>)
    ensures
        prefix@ == spec_before_char(s@, c),
{
    let k = first_index(s, c);
    proof {
        let chosen = choose|i: int| spec_first_index(s@, c, i);
        lemma_first_index_unique(s@, c, k as int, chosen);
    }
    take(s, k)
}

/// The first `k` characters.
pub fn take(s: &Vec<char>, k: usize) -> (prefix: Vec<char>)
    requires
        k <= s@.len(),
    ensures
        prefix@ == s@.take(k as int),
{
    let mut out: Vec<char> = Vec::new();
    let mut i: usize = 0;
    while i < k
        invariant
            k <= s@.len(),
            i <= k,
            out@ == s@.take(i as int),
        decreases k - i,
    {
        out.push(s[i]);
        proof {
            assert(s@.take(i + 1) =~= s@.take(i as int).push(s@[i as int]));
        }
        i += 1;
    }
    out
}

/// Whether `p` is a prefix of `s`.
pub fn starts_with(s: &Vec<char>, p: &Vec<char>) -> (found: bool)
    ensures
        found == spec_starts_with(s@, p@),
{
    if p.len() > s.len() {
        return false;
    }
    let mut i: usize = 0;
    while i < p.len()
        invariant
            p@.len() <= s@.len(),
            i <= p@.len(),
            forall|j: int| 0 <= j < i ==> s@[j] == p@[j],
        decreases p@.len() - i,
    {
        if s[i] != p[i] {
            proof {
                assert(s@.take(p@.len() as int)[i as int] != p@[i as int]);
            }
            return false;
        }
        i += 1;
    }
    proof {
        assert(s@.take(p@.len() as int) =~= p@);
    }
    true
}

/// Whether a `/`-separated path has an empty segment.
pub fn has_empty_segment(s: &Vec<char>) -> (found: bool)
    ensures
        found == spec_has_empty_segment(s@),
{
    s.len() == 0 || s[0] == '/' || s[s.len() - 1] == '/' || has_pair(s, '/', '/')
}

/// Whether a segment of a `/`-separated path is `.` or `..`.
pub fn has_dot_segment(s: &Vec<char>) -> (found: bool)
    ensures
        found == spec_has_dot_segment(s@),
{
    let n = s.len();
    let mut i: usize = 0;
    while i < n
        invariant
            n == s@.len(),
            i <= n,
            forall|j: int| #![trigger s@[j]] 0 <= j < i ==> !(s@[j] == '.' && (j == 0 || s@[j - 1] == '/') && (j + 1 == n
                || s@[j + 1] == '/' || (s@[j + 1] == '.' && (j + 2 == n || s@[j + 2] == '/')))),
        decreases n - i,
    {
        if s[i] == '.' && (i == 0 || s[i - 1] == '/') {
            if i + 1 == n || s[i + 1] == '/' {
                return true;
            }
            if s[i + 1] == '.' && (i + 2 == n || s[i + 2] == '/') {
                return true;
            }
        }
        i += 1;
    }
    false
}

} // verus!
