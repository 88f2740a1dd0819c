//! Runs of characters of one class, and the trimming built on them.

use vstd::prelude::*;
use crate::text::chars::{char_is_alphanumeric, char_is_whitespace, is_name_char, slice_of, unicode_whitespace};
use crate::text::search::{has_prefix, matches_at, occurs_at};

verus! {

/// A class of characters that a scanner skips or collects.
#[derive(Clone, Copy, Debug)]
pub enum CharClass {
    /// Unicode white space.
    Whitespace,
    /// Alphanumeric characters and `_`.
    Name,
    /// Every character that is not in `Name`.
    NotName,
    /// One given character.
    Exactly(char),
    /// Every character but the given one.
    Except(char),
}

impl CharClass {
    /// Whether `c` belongs to the class.
    pub open spec fn has(self, c: char) -> bool {
        match self {
            CharClass::Whitespace => unicode_whitespace(c),
            CharClass::Name => is_name_char(c),
            CharClass::NotName => !is_name_char(c),
            CharClass::Exactly(d) => c == d,
            CharClass::Except(d) => c != d,
        }
    }

    /// Whether `c` belongs to the class.
    pub fn test(&self, c: char) -> (b: bool)
        ensures
            b == self.has(c),
    {
        match self {
            CharClass::Whitespace => char_is_whitespace(c),
            CharClass::Name => c == '_' || char_is_alphanumeric(c),
            CharClass::NotName => !(c == '_' || char_is_alphanumeric(c)),
            CharClass::Exactly(d) => c == *d,
            CharClass::Except(d) => c != *d,
        }
    }
}

/// The end of the longest run of `k` characters that begins at `i`.
pub open spec fn run_end(s: Seq<char>, k: CharClass, i: int) -> int
    decreases s.len() - i,
{
    if 0 <= i < s.len() && k.has(s[i]) {
        run_end(s, k, i + 1)
    } else {
        i
    }
}

/// The start of the longest run of `k` characters that ends at `n`.
pub open spec fn run_start(s: Seq<char>, k: CharClass, n: int) -> int
    decreases n,
{
    if 0 < n <= s.len() && k.has(s[n - 1]) {
        run_start(s, k, n - 1)
    } else {
        n
    }
}

/// `s` without its leading white space.
pub open spec fn trimmed_start(s: Seq<char>) -> Seq<char> {
    s.subrange(run_end(s, CharClass::Whitespace, 0), s.len() as int)
}

/// `s` without its trailing white space.
pub open spec fn trimmed_end(s: Seq<char>) -> Seq<char> {
    s.subrange(0, run_start(s, CharClass::Whitespace, s.len() as int))
}

/// `s` without its leading and trailing white space.
pub open spec fn trimmed(s: Seq<char>) -> Seq<char> {
    trimmed_end(trimmed_start(s))
}

/// `s` without the characters `c` at its start.
pub open spec fn without_leading(s: Seq<char>, c: char) -> Seq<char> {
    s.subrange(run_end(s, CharClass::Exactly(c), 0), s.len() as int)
}

/// `s` without the characters `c` at its end.
pub open spec fn without_trailing(s: Seq<char>, c: char) -> Seq<char> {
    s.subrange(0, run_start(s, CharClass::Exactly(c), s.len() as int))
}

/// `s` without the characters `c` at either end.
pub open spec fn without_surrounding(s: Seq<char>, c: char) -> Seq<char> {
    without_trailing(without_leading(s, c), c)
}

/// The part of `s` after its last `c`; all of `s` where it holds none.
pub open spec fn after_last(s: Seq<char>, c: char) -> Seq<char> {
    s.subrange(run_start(s, CharClass::Except(c), s.len() as int), s.len() as int)
}

/// The name characters at the start of `s`.
pub open spec fn leading_name(s: Seq<char>) -> Seq<char> {
    s.subrange(0, run_end(s, CharClass::Name, 0))
}

/// The last run of name characters in `s`; empty where `s` has none.
pub open spec fn trailing_name(s: Seq<char>) -> Seq<char> {
    let e = run_start(s, CharClass::NotName, s.len() as int);
    s.subrange(run_start(s, CharClass::Name, e), e)
}

/// Every character of `s` is a name character.
pub open spec fn all_name_chars(s: Seq<char>) -> bool {
    run_end(s, CharClass::Name, 0) == s.len()
}

/// The position after the copies of `p` that stand one after another from `i`.
pub open spec fn repeats_end(s: Seq<char>, p: Seq<char>, i: int) -> int
    decreases s.len() - i,
{
    if p.len() > 0 && occurs_at(s, p, i) {
        repeats_end(s, p, i + p.len())
    } else {
        i
    }
}

/// `s` without the copies of `p` at its start.
pub open spec fn without_leading_text(s: Seq<char>, p: Seq<char>) -> Seq<char> {
    s.subrange(repeats_end(s, p, 0), s.len() as int)
}

/// `s` after its prefix `p`, where it has that prefix.
pub open spec fn after_prefix(s: Seq<char>, p: Seq<char>) -> Option<Seq<char>> {
    if has_prefix(s, p) {
        Some(s.subrange(p.len() as int, s.len() as int))
    } else {
        None
    }
}

/// A run that begins inside `s` ends inside `s`, at or after its start.
pub proof fn lemma_run_end(s: Seq<char>, k: CharClass, i: int)
    requires
        0 <= i <= s.len(),
    ensures
        i <= run_end(s, k, i) <= s.len(),
        forall|j: int| i <= j < run_end(s, k, i) ==> k.has(#[trigger] s[j]),
        run_end(s, k, i) < s.len() ==> !k.has(s[run_end(s, k, i)]),
    decreases s.len() - i,
{
    if i < s.len() && k.has(s[i]) {
        lemma_run_end(s, k, i + 1);
    }
}

/// A run that ends inside `s` begins inside `s`, at or before its end.
pub proof fn lemma_run_start(s: Seq<char>, k: CharClass, n: int)
    requires
        0 <= n <= s.len(),
    ensures
        0 <= run_start(s, k, n) <= n,
        forall|j: int| run_start(s, k, n) <= j < n ==> k.has(#[trigger] s[j]),
        run_start(s, k, n) > 0 ==> !k.has(s[run_start(s, k, n) - 1]),
    decreases n,
{
    if 0 < n && k.has(s[n - 1]) {
        lemma_run_start(s, k, n - 1);
    }
}

/// The end of the longest run of `k` characters that begins at `i`.
pub fn skip_run(s: &Vec<char>, k: CharClass, i: usize) -> (r: usize)
    requires
        i <= s.len(),
    ensures
        r as int == run_end(s@, k, i as int),
        i <= r <= s.len(),
        forall|j: int| i <= j < r ==> k.has(#[trigger] s@[j]),
        r < s.len() ==> !k.has(s@[r as int]),
{
    proof {
        lemma_run_end(s@, k, i as int);
    }
    let mut j: usize = i;
    while j < s.len() && k.test(s[j])
        invariant
            i <= j <= s.len(),
            run_end(s@, k, j as int) == run_end(s@, k, i as int),
        decreases s.len() - j,
    {
        j += 1;
    }
    j
}

/// The start of the longest run of `k` characters that ends at `n`.
pub fn skip_run_back(s: &Vec<char>, k: CharClass, n: usize) -> (r: usize)
    requires
        n <= s.len(),
    ensures
        r as int == run_start(s@, k, n as int),
        r <= n,
        forall|j: int| r <= j < n ==> k.has(#[trigger] s@[j]),
        r > 0 ==> !k.has(s@[r - 1]),
{
    proof {
        lemma_run_start(s@, k, n as int);
    }
    let mut j: usize = n;
    while j > 0 && k.test(s[j - 1])
        invariant
            j <= n <= s.len(),
            run_start(s@, k, j as int) == run_start(s@, k, n as int),
        decreases j,
    {
        j -= 1;
    }
    j
}

/// `s` without its leading white space.
pub fn trim_start(s: &Vec<char>) -> (r: Vec<char>)
    ensures
        r@ == trimmed_start(s@),
{
    let b = skip_run(s, CharClass::Whitespace, 0);
    slice_of(s, b, s.len())
}

/// `s` without its trailing white space.
pub fn trim_end(s: &Vec<char>) -> (r: Vec<char>)
    ensures
        r@ == trimmed_end(s@),
{
    let e = skip_run_back(s, CharClass::Whitespace, s.len());
    slice_of(s, 0, e)
}

/// `s` without its leading and trailing white space.
pub fn trim(s: &Vec<char>) -> (r: Vec<char>)
    ensures
        r@ == trimmed(s@),
{
    let t = trim_start(s);
    trim_end(&t)
}

/// `s` without the characters `c` at its start.
pub fn trim_leading(s: &Vec<char>, c: char) -> (r: Vec<char>)
    ensures
        r@ == without_leading(s@, c),
{
    let b = skip_run(s, CharClass::Exactly(c), 0);
    slice_of(s, b, s.len())
}

/// `s` without the characters `c` at its end.
pub fn trim_trailing(s: &Vec<char>, c: char) -> (r: Vec<char>)
    ensures
        r@ == without_trailing(s@, c),
{
    let e = skip_run_back(s, CharClass::Exactly(c), s.len());
    slice_of(s, 0, e)
}

/// `s` without the characters `c` at either end.
pub fn trim_surrounding(s: &Vec<char>, c: char) -> (r: Vec<char>)
    ensures
        r@ == without_surrounding(s@, c),
{
    let t = trim_leading(s, c);
    trim_trailing(&t, c)
}

/// The part of `s` after its last `c`.
pub fn take_after_last(s: &Vec<char>, c: char) -> (r: Vec<char>)
    ensures
        r@ == after_last(s@, c),
{
    let b = skip_run_back(s, CharClass::Except(c), s.len());
    slice_of(s, b, s.len())
}

/// The name characters at the start of `s`.
pub fn take_name(s: &Vec<char>) -> (r: Vec<char>)
    ensures
        r@ == leading_name(s@),
{
    let e = skip_run(s, CharClass::Name, 0);
    slice_of(s, 0, e)
}

/// The last run of name characters in `s`.
pub fn take_last_name(s: &Vec<char>) -> (r: Vec<char>)
    ensures
        r@ == trailing_name(s@),
{
    let e = skip_run_back(s, CharClass::NotName, s.len());
    let b = skip_run_back(s, CharClass::Name, e);
    slice_of(s, b, e)
}

/// Whether every character of `s` is a name character.
pub fn only_name_chars(s: &Vec<char>) -> (r: bool)
    ensures
        r == all_name_chars(s@),
{
    skip_run(s, CharClass::Name, 0) == s.len()
}

/// `s` without the copies of the text `p` at its start.
pub fn trim_leading_text(s: &Vec<char>, p: &str) -> (r: Vec<char>)
    ensures
        r@ == without_leading_text(s@, p@),
{
    let pv = crate::text::chars::chars_of(p);
    let mut i: usize = 0;
    while pv.len() > 0 && matches_at(s, &pv, i)
        invariant
            i <= s.len(),
            repeats_end(s@, pv@, i as int) == repeats_end(s@, pv@, 0),
        decreases s.len() - i,
    {
        i += pv.len();
    }
    slice_of(s, i, s.len())
}

/// `s` after its prefix `p`, where it has that prefix.
pub fn strip_prefix(s: &Vec<char>, p: &str) -> (r: Option<Vec<char>>)
    ensures
        match r {
            Some(t) => after_prefix(s@, p@) == Some(t@),
            None => after_prefix(s@, p@) is None,
        },
{
    let pv = crate::text::chars::chars_of(p);
    if matches_at(s, &pv, 0) {
        Some(slice_of(s, pv.len(), s.len()))
    } else {
        None
    }
}

} // verus!
