//! Cutting a text into pieces: at a delimiter, into lines, into words.

use vstd::prelude::*;
use crate::text::chars::{char_is_whitespace, slice_of, unicode_whitespace};
use crate::text::compose::{joined, joined_first};

verus! {

/// The texts that a vector of character vectors holds.
pub open spec fn texts(v: Seq<Vec<char>>) -> Seq<Seq<char>> {
    v.map_values(|x: Vec<char>| x@)
}

/// The texts that a vector of strings holds.
pub open spec fn strings(v: Seq<String>) -> Seq<Seq<char>> {
    v.map_values(|x: String| x@)
}

/// Pushing onto a vector pushes onto its texts.
pub proof fn lemma_texts_push(v: Seq<Vec<char>>, x: Vec<char>)
    ensures
        texts(v.push(x)) == texts(v).push(x@),
{
    assert(texts(v.push(x)) =~= texts(v).push(x@));
}

/// Pushing onto a vector pushes onto its strings.
pub proof fn lemma_strings_push(v: Seq<String>, x: String)
    ensures
        strings(v.push(x)) == strings(v).push(x@),
{
    assert(strings(v.push(x)) =~= strings(v).push(x@));
}

/// The pieces of `s` between the delimiters `d`, where the piece in progress
/// began at `start` and the scan stands at `i`.
pub open spec fn split_scan(s: Seq<char>, d: char, start: int, i: int) -> Seq<Seq<char>>
    decreases s.len() - i,
{
    if i < 0 || i >= s.len() {
        seq![s.subrange(start, s.len() as int)]
    } else if s[i] == d {
        seq![s.subrange(start, i)] + split_scan(s, d, i + 1, i + 1)
    } else {
        split_scan(s, d, start, i + 1)
    }
}

/// The pieces of `s` between the delimiters `d`: one more than there are
/// delimiters, empty pieces included.
pub open spec fn split(s: Seq<char>, d: char) -> Seq<Seq<char>> {
    split_scan(s, d, 0, 0)
}

/// A line without the carriage return that stood before its line feed.
pub open spec fn without_cr(l: Seq<char>) -> Seq<char> {
    if l.len() > 0 && l.last() == '\r' {
        l.drop_last()
    } else {
        l
    }
}

/// The lines of `s`, where the line in progress began at `start` and the
/// scan stands at `i`.
pub open spec fn lines_scan(s: Seq<char>, start: int, i: int) -> Seq<Seq<char>>
    decreases s.len() - i,
{
    if i < 0 || i >= s.len() {
        if start < s.len() {
            seq![s.subrange(start, s.len() as int)]
        } else {
            seq![]
        }
    } else if s[i] == '\n' {
        seq![without_cr(s.subrange(start, i))] + lines_scan(s, i + 1, i + 1)
    } else {
        lines_scan(s, start, i + 1)
    }
}

/// The lines of `s`. A line ends at a line feed, which is dropped together
/// with a carriage return directly before it. Text after the last line feed
/// is a line as it stands; no text there is no line.
pub open spec fn lines(s: Seq<char>) -> Seq<Seq<char>> {
    lines_scan(s, 0, 0)
}

/// The words of `s`, where the word in progress began at `start` and the
/// scan stands at `i`.
pub open spec fn words_scan(s: Seq<char>, start: int, i: int) -> Seq<Seq<char>>
    decreases s.len() - i,
{
    let word = if start < i {
        seq![s.subrange(start, i)]
    } else {
        seq![]
    };
    if i < 0 || i >= s.len() {
        word
    } else if unicode_whitespace(s[i]) {
        word + words_scan(s, i + 1, i + 1)
    } else {
        words_scan(s, start, i + 1)
    }
}

/// The words of `s`: its longest runs of characters that are not white space.
pub open spec fn words(s: Seq<char>) -> Seq<Seq<char>> {
    words_scan(s, 0, 0)
}

/// The first position at or after `i` that holds `d`; the length of `s`
/// where none does.
pub open spec fn index_of_from(s: Seq<char>, d: char, i: int) -> int
    decreases s.len() - i,
{
    if i < 0 || i >= s.len() {
        s.len() as int
    } else if s[i] == d {
        i
    } else {
        index_of_from(s, d, i + 1)
    }
}

/// The part of `s` before its first `d`; all of `s` where it holds none.
pub open spec fn before_first(s: Seq<char>, d: char) -> Seq<char> {
    s.subrange(0, index_of_from(s, d, 0))
}

/// The part of `s` after its first `d`, where it holds one.
pub open spec fn after_first(s: Seq<char>, d: char) -> Option<Seq<char>> {
    let i = index_of_from(s, d, 0);
    if i < s.len() {
        Some(s.subrange(i + 1, s.len() as int))
    } else {
        None
    }
}

/// The first `d` at or after `i` stands inside `s`, and none stands before it.
pub proof fn lemma_index_of_from(s: Seq<char>, d: char, i: int)
    requires
        0 <= i <= s.len(),
    ensures
        i <= index_of_from(s, d, i) <= s.len(),
        index_of_from(s, d, i) < s.len() ==> s[index_of_from(s, d, i)] == d,
        forall|j: int| i <= j < index_of_from(s, d, i) ==> s[j] != d,
    decreases s.len() - i,
{
    if i < s.len() && s[i] != d {
        lemma_index_of_from(s, d, i + 1);
    }
}

/// The first position at or after `i` that holds `d`.
pub fn index_of(s: &Vec<char>, d: char, i: usize) -> (r: usize)
    requires
        i <= s.len(),
    ensures
        r as int == index_of_from(s@, d, i as int),
        i <= r <= s.len(),
        r < s.len() ==> s@[r as int] == d,
        forall|j: int| i <= j < r ==> s@[j] != d,
{
    proof {
        lemma_index_of_from(s@, d, i as int);
    }
    let mut j: usize = i;
    while j < s.len() && s[j] != d
        invariant
            i <= j <= s.len(),
            index_of_from(s@, d, j as int) == index_of_from(s@, d, i as int),
        decreases s.len() - j,
    {
        j += 1;
    }
    j
}

/// The part of `s` before its first `d`.
pub fn take_before(s: &Vec<char>, d: char) -> (r: Vec<char>)
    ensures
        r@ == before_first(s@, d),
{
    let i = index_of(s, d, 0);
    slice_of(s, 0, i)
}

/// The part of `s` after its first `d`, where it holds one.
pub fn take_after(s: &Vec<char>, d: char) -> (r: Option<Vec<char>>)
    ensures
        match r {
            Some(t) => after_first(s@, d) == Some(t@),
            None => after_first(s@, d) is None,
        },
{
    let i = index_of(s, d, 0);
    if i < s.len() {
        Some(slice_of(s, i + 1, s.len()))
    } else {
        None
    }
}

/// The pieces of `s` between the delimiters `d`.
pub fn split_at_char(s: &Vec<char>, d: char) -> (r: Vec<Vec<char>>)
    ensures
        texts(r@) == split(s@, d),
{
    let mut out: Vec<Vec<char>> = Vec::new();
    let mut start: usize = 0;
    let mut i: usize = 0;
    assert(texts(out@) =~= Seq::<Seq<char>>::empty());
    while i < s.len()
        invariant
            start <= i <= s.len(),
            texts(out@) + split_scan(s@, d, start as int, i as int) == split(s@, d),
        decreases s.len() - i,
    {
        if s[i] == d {
            let piece = slice_of(s, start, i);
            proof {
                lemma_texts_push(out@, piece);
                assert(texts(out@).push(piece@) + split_scan(s@, d, i + 1, i + 1) =~= texts(out@)
                    + split_scan(s@, d, start as int, i as int));
            }
            out.push(piece);
            start = i + 1;
        }
        i += 1;
    }
    let piece = slice_of(s, start, s.len());
    proof {
        lemma_texts_push(out@, piece);
        assert(texts(out@).push(piece@) =~= texts(out@) + split_scan(
            s@,
            d,
            start as int,
            i as int,
        ));
    }
    out.push(piece);
    out
}

/// The lines of `s`.
pub fn split_lines(s: &Vec<char>) -> (r: Vec<Vec<char>>)
    ensures
        texts(r@) == lines(s@),
{
    let mut out: Vec<Vec<char>> = Vec::new();
    let mut start: usize = 0;
    let mut i: usize = 0;
    assert(texts(out@) =~= Seq::<Seq<char>>::empty());
    while i < s.len()
        invariant
            start <= i <= s.len(),
            texts(out@) + lines_scan(s@, start as int, i as int) == lines(s@),
        decreases s.len() - i,
    {
        if s[i] == '\n' {
            let end = if start < i && s[i - 1] == '\r' {
                i - 1
            } else {
                i
            };
            let piece = slice_of(s, start, end);
            proof {
                let l = s@.subrange(start as int, i as int);
                assert(piece@ =~= without_cr(l));
                lemma_texts_push(out@, piece);
                assert(texts(out@).push(piece@) + lines_scan(s@, i + 1, i + 1) =~= texts(out@)
                    + lines_scan(s@, start as int, i as int));
            }
            out.push(piece);
            start = i + 1;
        }
        i += 1;
    }
    if start < s.len() {
        let piece = slice_of(s, start, s.len());
        proof {
            lemma_texts_push(out@, piece);
            assert(texts(out@).push(piece@) =~= texts(out@) + lines_scan(
                s@,
                start as int,
                i as int,
            ));
        }
        out.push(piece);
    } else {
        assert(texts(out@) =~= texts(out@) + lines_scan(s@, start as int, i as int));
    }
    out
}

/// The words of `s`.
pub fn split_words(s: &Vec<char>) -> (r: Vec<Vec<char>>)
    ensures
        texts(r@) == words(s@),
{
    let mut out: Vec<Vec<char>> = Vec::new();
    let mut start: usize = 0;
    let mut i: usize = 0;
    assert(texts(out@) =~= Seq::<Seq<char>>::empty());
    while i < s.len()
        invariant
            start <= i <= s.len(),
            texts(out@) + words_scan(s@, start as int, i as int) == words(s@),
        decreases s.len() - i,
    {
        if char_is_whitespace(s[i]) {
            if start < i {
                let piece = slice_of(s, start, i);
                proof {
                    lemma_texts_push(out@, piece);
                    assert(texts(out@).push(piece@) + words_scan(s@, i + 1, i + 1) =~= texts(
                        out@,
                    ) + words_scan(s@, start as int, i as int));
                }
                out.push(piece);
            } else {
                assert(texts(out@) + words_scan(s@, i + 1, i + 1) =~= texts(out@) + words_scan(
                    s@,
                    start as int,
                    i as int,
                ));
            }
            start = i + 1;
        }
        i += 1;
    }
    if start < s.len() {
        let piece = slice_of(s, start, s.len());
        proof {
            lemma_texts_push(out@, piece);
            assert(texts(out@).push(piece@) =~= texts(out@) + words_scan(
                s@,
                start as int,
                i as int,
            ));
        }
        out.push(piece);
    } else {
        assert(texts(out@) =~= texts(out@) + words_scan(s@, start as int, i as int));
    }
    out
}

/// No character of `t` is `d`.
pub open spec fn lacks(t: Seq<char>, d: char) -> bool {
    forall|k: int| 0 <= k < t.len() ==> #[trigger] t[k] != d
}

/// Joining a first part and further parts puts the separator between them.
pub proof fn lemma_joined_cons(first: Seq<char>, rest: Seq<Seq<char>>, sep: Seq<char>, n: int)
    requires
        1 <= n <= rest.len(),
    ensures
        joined_first(seq![first] + rest, sep, n + 1) == first + sep + joined_first(rest, sep, n),
    decreases n,
{
    let all = seq![first] + rest;
    assert(all[n] == rest[n - 1]);
    assert(all[0] == first);
    if n == 1 {
        assert(joined_first(all, sep, 1) == first);
        assert(joined_first(all, sep, 2) =~= first + sep + rest[0]);
        assert(joined_first(rest, sep, 1) == rest[0]);
    } else {
        lemma_joined_cons(first, rest, sep, n - 1);
        assert(joined_first(all, sep, n + 1) =~= first + sep + joined_first(rest, sep, n));
    }
}

/// The pieces of a split hold no delimiter, and joined by the delimiter
/// they give the text back.
pub proof fn lemma_split_scan(s: Seq<char>, d: char, start: int, i: int)
    requires
        0 <= start <= i <= s.len(),
        lacks(s.subrange(start, i), d),
    ensures
        split_scan(s, d, start, i).len() >= 1,
        forall|k: int|
            0 <= k < split_scan(s, d, start, i).len() ==> lacks(
                #[trigger] split_scan(s, d, start, i)[k],
                d,
            ),
        joined(split_scan(s, d, start, i), seq![d]) == s.subrange(start, s.len() as int),
    decreases s.len() - i,
{
    let pieces = split_scan(s, d, start, i);
    if i >= s.len() {
        assert(pieces[0] == s.subrange(start, s.len() as int));
        assert(joined_first(pieces, seq![d], 1) == pieces[0]);
    } else if s[i] == d {
        let first = s.subrange(start, i);
        let rest = split_scan(s, d, i + 1, i + 1);
        assert(s.subrange(i + 1, i + 1) =~= Seq::<char>::empty());
        lemma_split_scan(s, d, i + 1, i + 1);
        lemma_joined_cons(first, rest, seq![d], rest.len() as int);
        assert(pieces == seq![first] + rest);
        assert forall|k: int| 0 <= k < pieces.len() implies lacks(#[trigger] pieces[k], d) by {
            if k > 0 {
                assert(pieces[k] == rest[k - 1]);
            }
        }
        assert(first + seq![d] + s.subrange(i + 1, s.len() as int) =~= s.subrange(
            start,
            s.len() as int,
        ));
    } else {
        assert forall|k: int| 0 <= k < i + 1 - start implies #[trigger] s.subrange(start, i + 1)[k]
            != d by {
            if k < i - start {
                assert(s.subrange(start, i)[k] == s[start + k]);
            }
        }
        lemma_split_scan(s, d, start, i + 1);
    }
}

/// Splitting and joining are inverse: the pieces of `s` hold no delimiter,
/// and joined by the delimiter they are `s`.
pub proof fn lemma_split_join(s: Seq<char>, d: char)
    ensures
        split(s, d).len() >= 1,
        forall|k: int| 0 <= k < split(s, d).len() ==> lacks(#[trigger] split(s, d)[k], d),
        joined(split(s, d), seq![d]) == s,
{
    assert(s.subrange(0, 0) =~= Seq::<char>::empty());
    lemma_split_scan(s, d, 0, 0);
    assert(s.subrange(0, s.len() as int) =~= s);
}

/// No line holds a line feed.
pub proof fn lemma_lines_scan(s: Seq<char>, start: int, i: int)
    requires
        0 <= start <= i <= s.len(),
        lacks(s.subrange(start, i), '\n'),
    ensures
        forall|k: int|
            0 <= k < lines_scan(s, start, i).len() ==> lacks(
                #[trigger] lines_scan(s, start, i)[k],
                '\n',
            ),
        lines_scan(s, start, i).len() <= s.len() - start,
    decreases s.len() - i,
{
    let rows = lines_scan(s, start, i);
    if i >= s.len() {
    } else if s[i] == '\n' {
        let line = s.subrange(start, i);
        let rest = lines_scan(s, i + 1, i + 1);
        assert(s.subrange(i + 1, i + 1) =~= Seq::<char>::empty());
        lemma_lines_scan(s, i + 1, i + 1);
        assert(lacks(without_cr(line), '\n')) by {
            assert forall|k: int| 0 <= k < without_cr(line).len() implies #[trigger] without_cr(
                line,
            )[k] != '\n' by {
                assert(without_cr(line)[k] == line[k]);
            }
        }
        assert forall|k: int| 0 <= k < rows.len() implies lacks(#[trigger] rows[k], '\n') by {
            if k > 0 {
                assert(rows[k] == rest[k - 1]);
            }
        }
    } else {
        assert forall|k: int| 0 <= k < i + 1 - start implies #[trigger] s.subrange(
            start,
            i + 1,
        )[k] != '\n' by {
            if k < i - start {
                assert(s.subrange(start, i)[k] == s[start + k]);
            }
        }
        lemma_lines_scan(s, start, i + 1);
    }
}

/// No line of a text holds a line feed, and a text has no more lines than
/// characters.
pub proof fn lemma_lines(s: Seq<char>)
    ensures
        forall|k: int| 0 <= k < lines(s).len() ==> lacks(#[trigger] lines(s)[k], '\n'),
        lines(s).len() <= s.len(),
{
    assert(s.subrange(0, 0) =~= Seq::<char>::empty());
    lemma_lines_scan(s, 0, 0);
}

} // verus!
