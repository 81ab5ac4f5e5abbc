//! Comparing and splitting the names that world files are written with.

use vstd::prelude::*;
use vstd::string::*;
use vstd::utf8::*;

verus! {

/// Where the first `.` of `s` stands, or the length of `s` where it holds none.
pub open spec fn dot_position(s: Seq<char>) -> int {
    match s.index_of_first('.') {
        Some(i) => i,
        None => s.len() as int,
    }
}

/// What stands before the first `.` of `s`: all of `s` where it holds none.
pub open spec fn head_segment(s: Seq<char>) -> Seq<char> {
    s.take(dot_position(s))
}

/// What stands behind the first `.` of `s`, where there is one.
pub open spec fn after_dot(s: Seq<char>) -> Option<Seq<char>> {
    if dot_position(s) < s.len() {
        Some(s.skip(dot_position(s) + 1))
    } else {
        None
    }
}

/// What stands between the first `.` of `s` and the second, or the end.
pub open spec fn second_segment(s: Seq<char>) -> Option<Seq<char>> {
    match after_dot(s) {
        Some(rest) => Some(head_segment(rest)),
        None => None,
    }
}

/// Whether `s` begins with `prefix`.
pub open spec fn has_prefix(s: Seq<char>, prefix: Seq<char>) -> bool {
    prefix.len() <= s.len() && s.take(prefix.len() as int) == prefix
}

/// `dot_position(s)` is the least index that holds a `.`, and the length of `s`
/// where no index does.
pub proof fn lemma_dot_position(s: Seq<char>)
    ensures
        0 <= dot_position(s) <= s.len(),
        forall|j: int| 0 <= j < dot_position(s) ==> s[j] != '.',
        dot_position(s) < s.len() ==> s[dot_position(s)] == '.',
{
    s.index_of_first_ensures('.');
}

/// An index that holds a `.` with none before it is the first one.
pub proof fn lemma_dot_position_is(s: Seq<char>, k: int)
    requires
        0 <= k <= s.len(),
        forall|j: int| 0 <= j < k ==> s[j] != '.',
        k < s.len() ==> s[k] == '.',
    ensures
        dot_position(s) == k,
{
    lemma_dot_position(s);
    let d = dot_position(s);
    if d < k {
        assert(s[d] != '.');
    } else if k < d {
        assert(s[k] != '.');
    }
}

/// Whether two names hold the same characters.
pub fn same_text(a: &str, b: &str) -> (same: bool)
    ensures
        same == (a@ == b@),
{
    let x = a.as_bytes();
    let y = b.as_bytes();
    proof {
        encode_utf8_decode_utf8(a@);
        encode_utf8_decode_utf8(b@);
    }
    if x.len() != y.len() {
        return false;
    }
    let mut i: usize = 0;
    while i < x.len()
        invariant
            i <= x@.len(),
            x@.len() == y@.len(),
            x@ == a.spec_bytes(),
            y@ == b.spec_bytes(),
            forall|j: int| 0 <= j < i ==> x@[j] == y@[j],
        decreases x.len() - i,
    {
        if x[i] != y[i] {
            return false;
        }
        i += 1;
    }
    assert(x@ =~= y@);
    true
}

/// Whether `s` begins with `prefix`.
pub fn starts_with(s: &str, prefix: &str) -> (found: bool)
    ensures
        found == has_prefix(s@, prefix@),
{
    let n = s.unicode_len();
    let m = prefix.unicode_len();
    if m > n {
        return false;
    }
    let mut i: usize = 0;
    while i < m
        invariant
            i <= m <= n,
            n == s@.len(),
            m == prefix@.len(),
            forall|j: int| 0 <= j < i ==> s@[j] == prefix@[j],
        decreases m - i,
    {
        if s.get_char(i) != prefix.get_char(i) {
            assert(s@.take(m as int)[i as int] != prefix@[i as int]);
            return false;
        }
        i += 1;
    }
    assert(s@.take(m as int) =~= prefix@);
    true
}

/// Splits `s` at its first `.`: what stands before it, and what stands behind
/// it where there is one.
pub fn split_at_dot(s: &str) -> (parts: (&str, Option<&str>))
    ensures
        parts.0@ == head_segment(s@),
        match parts.1 {
            Some(rest) => after_dot(s@) == Some(rest@),
            None => after_dot(s@).is_none(),
        },
{
    let n = s.unicode_len();
    let mut k: usize = 0;
    while k < n && s.get_char(k) != '.'
        invariant
            k <= n,
            n == s@.len(),
            forall|j: int| 0 <= j < k ==> s@[j] != '.',
        decreases n - k,
    {
        k += 1;
    }
    proof {
        lemma_dot_position_is(s@, k as int);
    }
    let head = s.substring_char(0, k);
    assert(head@ =~= s@.take(k as int));
    if k < n {
        let rest = s.substring_char(k + 1, n);
        assert(rest@ =~= s@.skip(k as int + 1));
        (head, Some(rest))
    } else {
        (head, None)
    }
}

} // verus!
