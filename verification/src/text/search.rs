//! Searching one character sequence in another.

use vstd::prelude::*;

verus! {

/// `p` stands in `s` at position `i`.
pub open spec fn occurs_at(s: Seq<char>, p: Seq<char>, i: int) -> bool {
    0 <= i && i + p.len() <= s.len() && s.subrange(i, i + p.len()) == p
}

/// `s` begins with `p`.
pub open spec fn has_prefix(s: Seq<char>, p: Seq<char>) -> bool {
    occurs_at(s, p, 0)
}

/// `s` ends with `p`.
pub open spec fn has_suffix(s: Seq<char>, p: Seq<char>) -> bool {
    occurs_at(s, p, s.len() - p.len())
}

/// The least position at or after `from` where `p` stands in `s`, or
/// `s.len() + 1` where there is none.
pub open spec fn find_from(s: Seq<char>, p: Seq<char>, from: int) -> int
    decreases s.len() + 1 - from,
{
    if from < 0 || from + p.len() > s.len() {
        s.len() as int + 1
    } else if occurs_at(s, p, from) {
        from
    } else {
        find_from(s, p, from + 1)
    }
}

/// The least position where `p` stands in `s`.
pub open spec fn find(s: Seq<char>, p: Seq<char>) -> Option<int> {
    let i = find_from(s, p, 0);
    if i <= s.len() {
        Some(i)
    } else {
        None
    }
}

/// `p` stands somewhere in `s`.
pub open spec fn contains(s: Seq<char>, p: Seq<char>) -> bool {
    find(s, p) is Some
}

/// The text that follows the first occurrence of `p` in `s`.
pub open spec fn after_match(s: Seq<char>, p: Seq<char>) -> Option<Seq<char>> {
    match find(s, p) {
        Some(i) => Some(s.subrange(i + p.len(), s.len() as int)),
        None => None,
    }
}

/// The text that precedes the first occurrence of `p` in `s`.
pub open spec fn before_match(s: Seq<char>, p: Seq<char>) -> Option<Seq<char>> {
    match find(s, p) {
        Some(i) => Some(s.subrange(0, i)),
        None => None,
    }
}

/// What `find_from` returns is the least occurrence: `p` stands there, and
/// nowhere between `from` and there.
pub proof fn lemma_find_from(s: Seq<char>, p: Seq<char>, from: int)
    requires
        0 <= from,
    ensures
        find_from(s, p, from) <= s.len() + 1,
        find_from(s, p, from) <= s.len() ==> from <= find_from(s, p, from) && occurs_at(
            s,
            p,
            find_from(s, p, from),
        ),
        forall|j: int| from <= j < find_from(s, p, from) ==> !occurs_at(s, p, j),
    decreases s.len() + 1 - from,
{
    if from + p.len() > s.len() {
    } else if occurs_at(s, p, from) {
    } else {
        lemma_find_from(s, p, from + 1);
    }
}

/// `contains` holds exactly where some position carries `p`.
pub proof fn lemma_contains(s: Seq<char>, p: Seq<char>)
    ensures
        contains(s, p) <==> exists|i: int| occurs_at(s, p, i),
{
    lemma_find_from(s, p, 0);
    if contains(s, p) {
        assert(occurs_at(s, p, find_from(s, p, 0)));
    }
}

/// Whether `p` stands in `s` at position `i`.
pub fn matches_at(s: &Vec<char>, p: &Vec<char>, i: usize) -> (r: bool)
    ensures
        r == occurs_at(s@, p@, i as int),
{
    if p.len() > s.len() || i > s.len() - p.len() {
        return false;
    }
    let mut k: usize = 0;
    while k < p.len()
        invariant
            k <= p.len(),
            i + p.len() <= s.len(),
            forall|j: int| 0 <= j < k ==> s@[i + j] == p@[j],
        decreases p.len() - k,
    {
        if s[i + k] != p[k] {
            assert(s@.subrange(i as int, i + p.len())[k as int] == s@[i + k]);
            return false;
        }
        k += 1;
    }
    assert(s@.subrange(i as int, i + p.len()) =~= p@);
    true
}

/// The least position at or after `from` where `p` stands in `s`.
pub fn find_chars_from(s: &Vec<char>, p: &Vec<char>, from: usize) -> (r: Option<usize>)
    ensures
        match r {
            Some(i) => i as int == find_from(s@, p@, from as int) && i + p.len() <= s.len(),
            None => find_from(s@, p@, from as int) == s.len() + 1,
        },
{
    let mut i: usize = from;
    loop
        invariant
            from <= i,
            find_from(s@, p@, i as int) == find_from(s@, p@, from as int),
        decreases s.len() + 1 - i,
    {
        if p.len() > s.len() || i > s.len() - p.len() {
            return None;
        }
        if matches_at(s, p, i) {
            return Some(i);
        }
        assert(p.len() > 0) by {
            if p.len() == 0 {
                assert(s@.subrange(i as int, i as int) =~= p@);
            }
        }
        i += 1;
    }
}

/// The least position where `p` stands in `s`.
pub fn find_chars(s: &Vec<char>, p: &Vec<char>) -> (r: Option<usize>)
    ensures
        match r {
            Some(i) => find(s@, p@) == Some(i as int) && i + p@.len() <= s.len() && occurs_at(
                s@,
                p@,
                i as int,
            ) && forall|j: int| 0 <= j < i ==> !occurs_at(s@, p@, j),
            None => find(s@, p@) is None && forall|j: int| !occurs_at(s@, p@, j),
        },
{
    proof {
        lemma_find_from(s@, p@, 0);
        lemma_contains(s@, p@);
    }
    let r = find_chars_from(s, p, 0);
    r
}

/// The least position where the text `p` stands in `s`.
pub fn find_str(s: &Vec<char>, p: &str) -> (r: Option<usize>)
    ensures
        match r {
            Some(i) => find(s@, p@) == Some(i as int) && i + p@.len() <= s.len(),
            None => find(s@, p@) is None,
        },
{
    let pv = crate::text::chars::chars_of(p);
    find_chars(s, &pv)
}

/// Whether the text `p` stands somewhere in `s`.
pub fn contains_str(s: &Vec<char>, p: &str) -> (r: bool)
    ensures
        r == contains(s@, p@),
{
    find_str(s, p).is_some()
}

/// Whether `s` begins with the text `p`.
pub fn starts_with_str(s: &Vec<char>, p: &str) -> (r: bool)
    ensures
        r == has_prefix(s@, p@),
{
    let pv = crate::text::chars::chars_of(p);
    matches_at(s, &pv, 0)
}

/// Whether `s` ends with the text `p`.
pub fn ends_with_str(s: &Vec<char>, p: &str) -> (r: bool)
    ensures
        r == has_suffix(s@, p@),
{
    let pv = crate::text::chars::chars_of(p);
    if pv.len() > s.len() {
        return false;
    }
    matches_at(s, &pv, s.len() - pv.len())
}

/// The text that follows the first occurrence of the text `p` in `s`.
pub fn text_after_match(s: &Vec<char>, p: &str) -> (r: Option<Vec<char>>)
    ensures
        match r {
            Some(t) => after_match(s@, p@) == Some(t@),
            None => after_match(s@, p@) is None,
        },
{
    let pv = crate::text::chars::chars_of(p);
    match find_chars(s, &pv) {
        Some(i) => Some(crate::text::chars::slice_of(s, i + pv.len(), s.len())),
        None => None,
    }
}

/// The text that precedes the first occurrence of the text `p` in `s`.
pub fn text_before_match(s: &Vec<char>, p: &str) -> (r: Option<Vec<char>>)
    ensures
        match r {
            Some(t) => before_match(s@, p@) == Some(t@),
            None => before_match(s@, p@) is None,
        },
{
    match find_str(s, p) {
        Some(i) => Some(crate::text::chars::slice_of(s, 0, i)),
        None => None,
    }
}

} // verus!
