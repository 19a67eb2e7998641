//! Character-level utilities shared by the property parser and the resolver.
//!
//! Everything here is verified: strings are read one character at a time
//! through vstd's string operations, so each function's contract speaks
//! directly about the `Seq<char>` view of its inputs.

use vstd::prelude::*;

verus! {

/// Index of the first occurrence of `c` in `s` within `[from, to)`,
/// or `to` when `c` does not occur there.
pub open spec fn spec_find_in(s: Seq<char>, c: char, from: int, to: int) -> int
    decreases to - from,
{
    if from < 0 || from >= to {
        to
    } else if s[from] == c {
        from
    } else {
        spec_find_in(s, c, from + 1, to)
    }
}

/// The result of `spec_find_in` stays within `[from, to]`, and marks an
/// occurrence of `c` exactly when it is below `to`.
pub proof fn lemma_find_in_bounds(s: Seq<char>, c: char, from: int, to: int)
    requires
        0 <= from <= to <= s.len(),
    ensures
        from <= spec_find_in(s, c, from, to) <= to,
        spec_find_in(s, c, from, to) < to ==> s[spec_find_in(s, c, from, to)] == c,
        forall|k: int| from <= k < spec_find_in(s, c, from, to) ==> s[k] != c,
    decreases to - from,
{
    if from < to && s[from] != c {
        lemma_find_in_bounds(s, c, from + 1, to);
    }
}

/// Copies the characters of `s` into a vector.
pub fn str_chars(s: &str) -> (v: Vec<char>)
    ensures
        v@ == s@,
{
    let n = s.unicode_len();
    let mut v: Vec<char> = Vec::new();
    let mut i: usize = 0;
    while i < n
        invariant
            n == s@.len(),
            i <= n,
            v@ == s@.subrange(0, i as int),
        decreases n - i,
    {
        v.push(s.get_char(i));
        i = i + 1;
        proof {
            assert(v@ =~= s@.subrange(0, i as int));
        }
    }
    proof {
        assert(v@ =~= s@);
    }
    v
}

/// Finds the first occurrence of `c` in `v` within `[from, to)`,
/// returning `to` when there is none.
pub fn find_char(v: &Vec<char>, from: usize, to: usize, c: char) -> (r: usize)
    requires
        from <= to <= v.len(),
    ensures
        r == spec_find_in(v@, c, from as int, to as int),
        from <= r <= to,
{
    let mut k = from;
    while k < to
        invariant
            from <= k <= to <= v.len(),
            spec_find_in(v@, c, from as int, to as int) == spec_find_in(
                v@,
                c,
                k as int,
                to as int,
            ),
            forall|j: int| from <= j < k ==> v@[j] != c,
        decreases to - k,
    {
        if v[k] == c {
            return k;
        }
        k = k + 1;
    }
    to
}

/// Character-by-character string equality, decided against the views.
pub fn str_eq(a: &str, b: &str) -> (r: bool)
    ensures
        r == (a@ == b@),
{
    let na = a.unicode_len();
    let nb = b.unicode_len();
    if na != nb {
        proof {
            assert(a@ != b@) by {
                if a@ == b@ {
                    assert(a@.len() == b@.len());
                }
            }
        }
        return false;
    }
    let mut i: usize = 0;
    while i < na
        invariant
            na == a@.len(),
            na == b@.len(),
            i <= na,
            forall|j: int| 0 <= j < i ==> a@[j] == b@[j],
        decreases na - i,
    {
        if a.get_char(i) != b.get_char(i) {
            proof {
                assert(a@ != b@) by {
                    if a@ == b@ {
                        assert(a@[i as int] == b@[i as int]);
                    }
                }
            }
            return false;
        }
        i = i + 1;
    }
    proof {
        assert(a@ =~= b@);
    }
    true
}

} // verus!
