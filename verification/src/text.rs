//! Character-sequence utilities shared by the template parser: scanning for a
//! character, prefix tests, splitting on a separator, and the specification
//! of two-character escape replacement.

use vstd::prelude::*;
use vstd::string::StrSliceExecFns;
use vstd::string::StringExecFns;

verus! {

/// Index of the first occurrence of `c` in `s` at or after `i`; `s.len()` if
/// there is none.
pub open spec fn spec_find_from(s: Seq<char>, c: char, i: int) -> int
    decreases s.len() - i,
    when 0 <= i <= s.len()
{
    if i >= s.len() {
        s.len() as int
    } else if s[i] == c {
        i
    } else {
        spec_find_from(s, c, i + 1)
    }
}

/// The pieces of `s` from position `i` on, split on separator `c`; always at
/// least one piece, and separators are not kept.
pub open spec fn spec_split_from(s: Seq<char>, c: char, i: int) -> Seq<Seq<char>>
    decreases s.len() - i,
    when 0 <= i <= s.len()
{
    let j = spec_find_from(s, c, i);
    if i <= j < s.len() {
        seq![s.subrange(i, j)] + spec_split_from(s, c, j + 1)
    } else {
        seq![s.subrange(i, s.len() as int)]
    }
}

/// Index of the first position at or after `i` where the adjacent pair
/// `a`,`b` occurs in `s`; `s.len()` if there is none.
pub open spec fn spec_find_pair(s: Seq<char>, a: char, b: char, i: int) -> int
    decreases s.len() - i,
    when 0 <= i <= s.len()
{
    if i + 1 >= s.len() {
        s.len() as int
    } else if s[i] == a && s[i + 1] == b {
        i
    } else {
        spec_find_pair(s, a, b, i + 1)
    }
}

/// `pat` occurs in `s` starting exactly at position `i`.
pub open spec fn spec_starts_with(s: Seq<char>, i: int, pat: Seq<char>) -> bool {
    &&& 0 <= i
    &&& i + pat.len() <= s.len()
    &&& s.subrange(i, i + pat.len()) == pat
}

/// Leftmost, non-overlapping replacement of every adjacent pair `a`,`b` in
/// `s` by `rep`.
pub open spec fn spec_replace_pair(s: Seq<char>, a: char, b: char, rep: Seq<char>) -> Seq<char>
    decreases s.len(),
{
    if s.len() < 2 {
        s
    } else if s[0] == a && s[1] == b {
        rep + spec_replace_pair(s.subrange(2, s.len() as int), a, b, rep)
    } else {
        seq![s[0]] + spec_replace_pair(s.subrange(1, s.len() as int), a, b, rep)
    }
}

/// Replacement never touches a leading character that does not open the
/// replaced pair.
pub proof fn lemma_replace_pair_head(s: Seq<char>, a: char, b: char, rep: Seq<char>)
    requires
        s.len() >= 1,
        s[0] != a,
    ensures
        spec_replace_pair(s, a, b, rep).len() >= 1,
        spec_replace_pair(s, a, b, rep)[0] == s[0],
{
}

/// The characters of `s`, as a vector.
pub fn str_chars(s: &str) -> (r: Vec<char>)
    ensures
        r@ == s@,
{
    let n: usize = s.unicode_len();
    let mut r: Vec<char> = Vec::new();
    let mut i: usize = 0;
    while i < n
        invariant
            n == s@.len(),
            i <= n,
            r@ == s@.subrange(0, i as int),
        decreases n - i,
    {
        let c: char = s.get_char(i);
        r.push(c);
        proof {
            assert(r@ =~= s@.subrange(0, i + 1 as int));
        }
        i = i + 1;
    }
    proof {
        assert(r@ =~= s@);
    }
    r
}

/// First position of `c` in `v` at or after `from`, or `v.len()`.
pub fn find_char_from(v: &Vec<char>, c: char, from: usize) -> (r: usize)
    requires
        from <= v@.len(),
    ensures
        r == spec_find_from(v@, c, from as int),
        from <= r <= v@.len(),
{
    let mut i: usize = from;
    while i < v.len()
        invariant
            from <= i <= v@.len(),
            spec_find_from(v@, c, from as int) == spec_find_from(v@, c, i as int),
        decreases v@.len() - i,
    {
        if v[i] == c {
            return i;
        }
        i = i + 1;
    }
    i
}

/// First position at or after `from` where the pair `a`,`b` occurs in `v`,
/// or `v.len()`.
pub fn find_pair_from(v: &Vec<char>, a: char, b: char, from: usize) -> (r: usize)
    requires
        from <= v@.len(),
    ensures
        r == spec_find_pair(v@, a, b, from as int),
        from <= r <= v@.len(),
        r < v@.len() ==> r + 1 < v@.len(),
{
    let n: usize = v.len();
    let mut i: usize = from;
    while n - i > 1
        invariant
            from <= i,
            i <= n,
            n == v@.len(),
            spec_find_pair(v@, a, b, from as int) == spec_find_pair(v@, a, b, i as int),
        decreases n - i,
    {
        if v[i] == a && v[i + 1] == b {
            return i;
        }
        i = i + 1;
    }
    n
}

/// Whether `pat` occurs in `v` starting at `i`.
pub fn starts_with_at(v: &Vec<char>, i: usize, pat: &Vec<char>) -> (r: bool)
    requires
        i <= v@.len(),
    ensures
        r == spec_starts_with(v@, i as int, pat@),
{
    let m: usize = pat.len();
    let n: usize = v.len();
    if n - i < m {
        return false;
    }
    let mut k: usize = 0;
    while k < m
        invariant
            n == v@.len(),
            i + m <= n,
            m == pat@.len(),
            k <= m,
            forall|t: int| 0 <= t < k ==> v@[i + t] == pat@[t],
        decreases m - k,
    {
        if v[i + k] != pat[k] {
            proof {
                assert(v@.subrange(i as int, i + m as int)[k as int] == v@[i + k as int]);
            }
            return false;
        }
        k = k + 1;
    }
    proof {
        assert(v@.subrange(i as int, i + m as int) =~= pat@);
    }
    true
}

/// Whether two string slices hold the same characters.
pub fn str_eq_str(a: &str, b: &str) -> (r: bool)
    ensures
        r == (a@ == b@),
{
    let n: usize = a.unicode_len();
    let m: usize = b.unicode_len();
    if n != m {
        return false;
    }
    let mut i: usize = 0;
    while i < n
        invariant
            n == a@.len(),
            n == b@.len(),
            i <= n,
            forall|t: int| 0 <= t < i ==> a@[t] == b@[t],
        decreases n - i,
    {
        if a.get_char(i) != b.get_char(i) {
            return false;
        }
        i = i + 1;
    }
    proof {
        assert(a@ =~= b@);
    }
    true
}

/// The pieces of `s` split on the separator `c`, as owned strings.
pub fn split_str(s: &str, c: char) -> (r: Vec<String>)
    ensures
        r.deep_view() == spec_split_from(s@, c, 0),
        r@.len() >= 1,
{
    let v: Vec<char> = str_chars(s);
    let mut r: Vec<String> = Vec::new();
    let mut i: usize = 0;
    loop
        invariant
            i <= v@.len(),
            v@ == s@,
            spec_split_from(s@, c, 0) == r.deep_view() + spec_split_from(s@, c, i as int),
        decreases v@.len() - i,
    {
        let j: usize = find_char_from(&v, c, i);
        let piece: String = String::from_str(s.substring_char(i, j));
        r.push(piece);
        proof {
            assert(r.deep_view() =~= r.deep_view().subrange(0, r.deep_view().len() - 1) + seq![piece@]);
        }
        if j < v.len() {
            proof {
                assert(spec_split_from(s@, c, 0) =~= r.deep_view() + spec_split_from(s@, c, j + 1 as int));
            }
            i = j + 1;
        } else {
            proof {
                assert(spec_split_from(s@, c, 0) =~= r.deep_view());
            }
            return r;
        }
    }
}

} // verus!
