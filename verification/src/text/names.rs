//! Whole texts: comparison, concatenation, lines as strings, and lists of
//! names in which nothing occurs twice.

use vstd::prelude::*;
use crate::text::chars::{chars_of, same_chars, string_of};
use crate::text::split::{lemma_strings_push, lines, split, split_at_char, split_lines, strings, texts, words, split_words};

verus! {

/// `set` with `x` at its end, unless `x` stands in it already.
pub open spec fn with_name(set: Seq<Seq<char>>, x: Seq<char>) -> Seq<Seq<char>> {
    if set.contains(x) {
        set
    } else {
        set.push(x)
    }
}

/// `set` after the first `n` of `xs` were added to it, one after another.
pub open spec fn with_names_first(set: Seq<Seq<char>>, xs: Seq<Seq<char>>, n: int) -> Seq<
    Seq<char>,
>
    decreases n,
{
    if n <= 0 {
        set
    } else {
        with_name(with_names_first(set, xs, n - 1), xs[n - 1])
    }
}

/// `set` after all of `xs` were added to it, one after another.
pub open spec fn with_names(set: Seq<Seq<char>>, xs: Seq<Seq<char>>) -> Seq<Seq<char>> {
    with_names_first(set, xs, xs.len() as int)
}

/// `s` where it is not empty.
pub open spec fn nonempty(s: Seq<char>) -> Option<Seq<char>> {
    if s.len() > 0 {
        Some(s)
    } else {
        None
    }
}

/// The part of `s` from position `i` on.
pub open spec fn text_from(s: Seq<char>, i: int) -> Seq<char> {
    s.subrange(i, s.len() as int)
}

/// Adding a name keeps a list free of repetitions.
pub proof fn lemma_with_name_no_duplicates(set: Seq<Seq<char>>, x: Seq<char>)
    requires
        set.no_duplicates(),
    ensures
        with_name(set, x).no_duplicates(),
        with_name(set, x).contains(x),
        forall|y: Seq<char>| set.contains(y) ==> with_name(set, x).contains(y),
{
    if !set.contains(x) {
        let t = set.push(x);
        assert(t[set.len() as int] == x);
        assert forall|y: Seq<char>| set.contains(y) implies t.contains(y) by {
            let i = choose|i: int| 0 <= i < set.len() && set[i] == y;
            assert(t[i] == y);
        }
    }
}

/// Whether `a` and `b` are the same text.
pub fn same_text(a: &str, b: &str) -> (r: bool)
    ensures
        r == (a@ == b@),
{
    let av = chars_of(a);
    let bv = chars_of(b);
    same_chars(&av, &bv)
}

/// Whether the characters `a` spell the text `b`.
pub fn spells(a: &Vec<char>, b: &str) -> (r: bool)
    ensures
        r == (a@ == b@),
{
    let bv = chars_of(b);
    same_chars(a, &bv)
}

/// `a` followed by `b`.
pub fn concat2(a: &str, b: &str) -> (r: String)
    ensures
        r@ == a@ + b@,
{
    let mut s = String::from_str(a);
    s.append(b);
    s
}

/// `a` followed by `b` and `c`.
pub fn concat3(a: &str, b: &str, c: &str) -> (r: String)
    ensures
        r@ == a@ + b@ + c@,
{
    let mut s = String::from_str(a);
    s.append(b);
    s.append(c);
    s
}

/// Whether `x` stands in `set`.
pub fn has_name(set: &Vec<String>, x: &str) -> (r: bool)
    ensures
        r == strings(set@).contains(x@),
{
    let mut i: usize = 0;
    while i < set.len()
        invariant
            i <= set.len(),
            forall|j: int| 0 <= j < i ==> strings(set@)[j] != x@,
        decreases set.len() - i,
    {
        if same_text(set[i].as_str(), x) {
            assert(strings(set@)[i as int] == x@);
            return true;
        }
        i += 1;
    }
    false
}

/// Adds `x` to `set`, unless it stands there already.
pub fn insert_name(set: &mut Vec<String>, x: String)
    ensures
        strings(final(set)@) == with_name(strings(old(set)@), x@),
        strings(old(set)@).no_duplicates() ==> strings(final(set)@).no_duplicates(),
        strings(final(set)@).contains(x@),
{
    proof {
        if strings(set@).no_duplicates() {
            lemma_with_name_no_duplicates(strings(set@), x@);
        } else if !strings(set@).contains(x@) {
            assert(strings(set@).push(x@)[strings(set@).len() as int] == x@);
        }
    }
    if !has_name(set, x.as_str()) {
        proof {
            lemma_strings_push(set@, x);
        }
        set.push(x);
    }
}

/// Adds each of `xs` to `set`, in order.
pub fn insert_names(set: &mut Vec<String>, xs: Vec<String>)
    ensures
        strings(final(set)@) == with_names(strings(old(set)@), strings(xs@)),
        strings(old(set)@).no_duplicates() ==> strings(final(set)@).no_duplicates(),
{
    let mut i: usize = 0;
    while i < xs.len()
        invariant
            i <= xs.len(),
            strings(set@) == with_names_first(strings(old(set)@), strings(xs@), i as int),
            strings(old(set)@).no_duplicates() ==> strings(set@).no_duplicates(),
        decreases xs.len() - i,
    {
        let x = xs[i].clone();
        assert(strings(xs@)[i as int] == x@);
        insert_name(set, x);
        i += 1;
    }
}

/// The strings of a list of character vectors.
pub fn to_strings(v: &Vec<Vec<char>>) -> (r: Vec<String>)
    ensures
        strings(r@) == texts(v@),
{
    let mut out: Vec<String> = Vec::new();
    let mut i: usize = 0;
    while i < v.len()
        invariant
            i <= v.len(),
            strings(out@) == texts(v@).take(i as int),
        decreases v.len() - i,
    {
        let s = string_of(&v[i]);
        proof {
            lemma_strings_push(out@, s);
            assert(texts(v@).take(i as int).push(s@) =~= texts(v@).take(i + 1));
        }
        out.push(s);
        i += 1;
    }
    assert(texts(v@).take(v.len() as int) =~= texts(v@));
    out
}

/// The lines of `s`.
pub fn lines_of(s: &str) -> (r: Vec<String>)
    ensures
        strings(r@) == lines(s@),
{
    let v = chars_of(s);
    let pieces = split_lines(&v);
    to_strings(&pieces)
}

/// The pieces of `s` between the delimiters `d`.
pub fn split_text(s: &str, d: char) -> (r: Vec<String>)
    ensures
        strings(r@) == split(s@, d),
{
    let v = chars_of(s);
    let pieces = split_at_char(&v, d);
    to_strings(&pieces)
}

/// The words of `s`.
pub fn words_of(s: &str) -> (r: Vec<String>)
    ensures
        strings(r@) == words(s@),
{
    let v = chars_of(s);
    let pieces = split_words(&v);
    to_strings(&pieces)
}

/// A copy of a list of strings.
pub fn copy_strings(v: &Vec<String>) -> (r: Vec<String>)
    ensures
        strings(r@) == strings(v@),
{
    let mut out: Vec<String> = Vec::new();
    let mut i: usize = 0;
    while i < v.len()
        invariant
            i <= v.len(),
            strings(out@) == strings(v@).take(i as int),
        decreases v.len() - i,
    {
        let s = v[i].clone();
        proof {
            lemma_strings_push(out@, s);
            assert(strings(v@).take(i as int).push(s@) =~= strings(v@).take(i + 1));
        }
        out.push(s);
        i += 1;
    }
    assert(strings(v@).take(v.len() as int) =~= strings(v@));
    out
}

} // verus!
