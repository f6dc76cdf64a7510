//! Verified text utilities: substring search and removal, blank detection,
//! and decimal rendering of counters.

use vstd::prelude::*;
use vstd::string::{StrSliceExecFns, StringExecFns};

verus! {

/// The substring `t` occurs in `s` at position `i`.
pub open spec fn match_at(s: Seq<char>, t: Seq<char>, i: int) -> bool {
    &&& 0 <= i
    &&& i + t.len() <= s.len()
    &&& s.subrange(i, i + t.len()) == t
}

/// The position of the first occurrence of `t` in `s` at or after `from`,
/// if any.
pub open spec fn spec_find_from(s: Seq<char>, t: Seq<char>, from: int) -> Option<int>
    decreases s.len() - from + 1,
{
    if from < 0 || from + t.len() > s.len() {
        None
    } else if match_at(s, t, from) {
        Some(from)
    } else {
        spec_find_from(s, t, from + 1)
    }
}

/// The position of the first occurrence of `t` in `s`, if any.
pub open spec fn spec_find(s: Seq<char>, t: Seq<char>) -> Option<int> {
    spec_find_from(s, t, 0)
}

/// `s` contains `t` as a contiguous substring.
pub open spec fn spec_contains(s: Seq<char>, t: Seq<char>) -> bool {
    spec_find(s, t) is Some
}

/// `s` with the first occurrence of `t` removed; `s` itself when `t` does
/// not occur.
pub open spec fn spec_remove_first(s: Seq<char>, t: Seq<char>) -> Seq<char> {
    match spec_find(s, t) {
        Some(i) => s.subrange(0, i) + s.subrange(i + t.len(), s.len() as int),
        None => s,
    }
}

/// What `spec_find_from` returns is the least match position at or after
/// `from`; `None` means there is no match there at all.
pub proof fn lemma_find_from_props(s: Seq<char>, t: Seq<char>, from: int)
    requires
        0 <= from,
    ensures
        match spec_find_from(s, t, from) {
            Some(i) => {
                &&& from <= i
                &&& match_at(s, t, i)
                &&& forall|j: int| from <= j < i ==> !match_at(s, t, j)
            },
            None => forall|j: int| from <= j ==> !match_at(s, t, j),
        },
    decreases s.len() - from + 1,
{
    if from + t.len() > s.len() {
        assert forall|j: int| from <= j implies !match_at(s, t, j) by {
            assert(j + t.len() >= from + t.len());
        }
    } else if match_at(s, t, from) {
    } else {
        lemma_find_from_props(s, t, from + 1);
    }
}

/// Containment agrees with the existence of a match position.
pub proof fn lemma_contains_iff_exists(s: Seq<char>, t: Seq<char>)
    ensures
        spec_contains(s, t) <==> exists|i: int| match_at(s, t, i),
{
    lemma_find_from_props(s, t, 0);
    if spec_contains(s, t) {
        let i = spec_find(s, t)->Some_0;
        assert(match_at(s, t, i));
    }
}

/// Whether `t` occurs in `s` starting exactly at position `i`.
fn match_at_exec(s: &str, t: &str, i: usize) -> (b: bool)
    requires
        i + t@.len() <= s@.len(),
        s@.len() <= usize::MAX,
    ensures
        b == match_at(s@, t@, i as int),
{
    let m = t.unicode_len();
    let mut k: usize = 0;
    while k < m
        invariant
            k <= m,
            m == t@.len(),
            i + m <= s@.len(),
            s@.len() <= usize::MAX,
            forall|j: int| 0 <= j < k ==> s@[i + j] == t@[j],
        decreases m - k,
    {
        if s.get_char(i + k) != t.get_char(k) {
            proof {
                if match_at(s@, t@, i as int) {
                    assert(s@.subrange(i as int, i + t@.len())[k as int] == s@[i + k]);
                }
            }
            return false;
        }
        k += 1;
    }
    proof {
        assert(s@.subrange(i as int, i + t@.len()) =~= t@);
    }
    true
}

/// The position of the first occurrence of `t` in `s`, if any.
pub fn find_first(s: &str, t: &str) -> (r: Option<usize>)
    ensures
        match r {
            Some(i) => spec_find(s@, t@) == Some(i as int),
            None => spec_find(s@, t@) is None,
        },
{
    let n = s.unicode_len();
    let m = t.unicode_len();
    if m > n {
        return None;
    }
    if m == 0 {
        proof {
            assert(s@.subrange(0, 0) =~= t@);
        }
        return Some(0);
    }
    let mut i: usize = 0;
    while i <= n - m
        invariant
            1 <= m <= n,
            n == s@.len(),
            m == t@.len(),
            i <= n - m + 1,
            spec_find_from(s@, t@, 0) == spec_find_from(s@, t@, i as int),
        decreases n - m - i + 1,
    {
        if match_at_exec(s, t, i) {
            return Some(i);
        }
        i += 1;
    }
    None
}

/// `s` contains `t` as a contiguous substring.
pub fn contains(s: &str, t: &str) -> (b: bool)
    ensures
        b == spec_contains(s@, t@),
{
    match find_first(s, t) {
        Some(_) => true,
        None => false,
    }
}

/// `s` with the first occurrence of `t` removed, or a copy of `s` when `t`
/// does not occur in it.
pub fn remove_first(s: &str, t: &str) -> (r: String)
    ensures
        r@ == spec_remove_first(s@, t@),
{
    match find_first(s, t) {
        None => s.to_owned(),
        Some(i) => {
            let n = s.unicode_len();
            let m = t.unicode_len();
            proof {
                lemma_find_from_props(s@, t@, 0);
            }
            let head = s.substring_char(0, i);
            let tail = s.substring_char(i + m, n);
            let mut r = head.to_owned();
            r.append(tail);
            r
        },
    }
}

/// Every character of `s` is horizontal or vertical whitespace.
pub open spec fn is_space(c: char) -> bool {
    c == ' ' || c == '\t' || c == '\n' || c == '\r'
}

/// `s` holds nothing but whitespace: trimming it would leave it empty.
pub open spec fn spec_blank(s: Seq<char>) -> bool {
    forall|i: int| 0 <= i < s.len() ==> is_space(s[i])
}

/// Whether `s` is empty up to whitespace.
pub fn is_blank(s: &str) -> (b: bool)
    ensures
        b == spec_blank(s@),
{
    let n = s.unicode_len();
    let mut i: usize = 0;
    while i < n
        invariant
            i <= n,
            n == s@.len(),
            forall|j: int| 0 <= j < i ==> is_space(s@[j]),
        decreases n - i,
    {
        let c = s.get_char(i);
        if !(c == ' ' || c == '\t' || c == '\n' || c == '\r') {
            return false;
        }
        i += 1;
    }
    true
}

/// The character for a single decimal digit.
pub open spec fn dec_digit(d: nat) -> char {
    if d == 0 {
        '0'
    } else if d == 1 {
        '1'
    } else if d == 2 {
        '2'
    } else if d == 3 {
        '3'
    } else if d == 4 {
        '4'
    } else if d == 5 {
        '5'
    } else if d == 6 {
        '6'
    } else if d == 7 {
        '7'
    } else if d == 8 {
        '8'
    } else {
        '9'
    }
}

/// The decimal rendering of `n`, most significant digit first, with no
/// leading zeros (a lone zero for `n == 0`).
pub open spec fn spec_dec(n: nat) -> Seq<char>
    decreases n,
{
    if n < 10 {
        seq![dec_digit(n)]
    } else {
        spec_dec(n / 10).push(dec_digit(n % 10))
    }
}

/// The character for the digit `d`.
fn digit_char(d: u8) -> (c: char)
    requires
        d < 10,
    ensures
        c == dec_digit(d as nat),
{
    if d == 0 {
        '0'
    } else if d == 1 {
        '1'
    } else if d == 2 {
        '2'
    } else if d == 3 {
        '3'
    } else if d == 4 {
        '4'
    } else if d == 5 {
        '5'
    } else if d == 6 {
        '6'
    } else if d == 7 {
        '7'
    } else if d == 8 {
        '8'
    } else {
        '9'
    }
}

/// Relies on `String::push` from std: appends exactly the given character
/// to the end of the string.
#[verifier::external_body]
pub(crate) fn push_char(s: &mut String, c: char)
    ensures
        final(s)@ == old(s)@.push(c),
{
    s.push(c);
}

/// Renders `n` in decimal.
pub fn u64_to_dec(n: u64) -> (r: String)
    ensures
        r@ == spec_dec(n as nat),
    decreases n,
{
    let d = digit_char((n % 10) as u8);
    if n < 10 {
        let mut s = String::new();
        push_char(&mut s, d);
        proof {
            assert(s@ =~= spec_dec(n as nat));
        }
        s
    } else {
        let mut s = u64_to_dec(n / 10);
        push_char(&mut s, d);
        s
    }
}

} // verus!
