//! Building texts: numbers in decimal, replacement, repetition, joining,
//! and the measures a report needs.

use vstd::prelude::*;
use crate::text::chars::{chars_of, string_of};

verus! {

/// The upper-case form of `s` that Unicode defines.
pub uninterp spec fn unicode_uppercase(s: Seq<char>) -> Seq<char>;

/// The lower-case form of `s` that Unicode defines.
pub uninterp spec fn unicode_lowercase(s: Seq<char>) -> Seq<char>;

/// Trusted: `str::to_uppercase`. The result is the Unicode upper-case form,
/// which this crate names and does not define.
#[verifier::external_body]
pub(crate) fn to_uppercase(s: &str) -> (r: String)
    ensures
        r@ == unicode_uppercase(s@),
{
    s.to_uppercase()
}

/// Trusted: `str::to_lowercase`. The result is the Unicode lower-case form,
/// which this crate names and does not define.
#[verifier::external_body]
pub(crate) fn to_lowercase(s: &str) -> (r: String)
    ensures
        r@ == unicode_lowercase(s@),
{
    s.to_lowercase()
}

/// The character of the decimal digit `d`.
pub open spec fn digit_char(d: int) -> char {
    if d == 0 {
        '0'
    } else if d == 1 {
        '1'
    } else if d == 2 {
        '2'
    } else if d == 3 {
        '3'
    } else if d == 4 {
        '4'
    } else if d == 5 {
        '5'
    } else if d == 6 {
        '6'
    } else if d == 7 {
        '7'
    } else if d == 8 {
        '8'
    } else {
        '9'
    }
}

/// `n` in decimal, without leading zeros.
pub open spec fn decimal(n: nat) -> Seq<char>
    decreases n,
{
    if n < 10 {
        seq![digit_char(n as int)]
    } else {
        decimal(n / 10).push(digit_char((n % 10) as int))
    }
}

/// `s` with each `c` replaced by the text `r`, from position `i` on.
pub open spec fn replaced_from(s: Seq<char>, c: char, r: Seq<char>, i: int) -> Seq<char>
    decreases s.len() - i,
{
    if i < 0 || i >= s.len() {
        Seq::<char>::empty()
    } else if s[i] == c {
        r + replaced_from(s, c, r, i + 1)
    } else {
        seq![s[i]] + replaced_from(s, c, r, i + 1)
    }
}

/// `s` with each `c` replaced by the text `r`.
pub open spec fn replaced(s: Seq<char>, c: char, r: Seq<char>) -> Seq<char> {
    replaced_from(s, c, r, 0)
}

/// `n` copies of `p`, one after another.
pub open spec fn repeated(p: Seq<char>, n: nat) -> Seq<char>
    decreases n,
{
    if n == 0 {
        Seq::<char>::empty()
    } else {
        repeated(p, (n - 1) as nat) + p
    }
}

/// The first `n` of `parts`, with `sep` between each two.
pub open spec fn joined_first(parts: Seq<Seq<char>>, sep: Seq<char>, n: int) -> Seq<char>
    decreases n,
{
    if n <= 0 {
        Seq::<char>::empty()
    } else if n == 1 {
        parts[0]
    } else {
        joined_first(parts, sep, n - 1) + sep + parts[n - 1]
    }
}

/// `parts` with `sep` between each two.
pub open spec fn joined(parts: Seq<Seq<char>>, sep: Seq<char>) -> Seq<char> {
    joined_first(parts, sep, parts.len() as int)
}

/// The number of bytes that `c` takes in UTF-8.
pub open spec fn utf8_width(c: char) -> int {
    if (c as u32) < 0x80 {
        1
    } else if (c as u32) < 0x800 {
        2
    } else if (c as u32) < 0x10000 {
        3
    } else {
        4
    }
}

/// The number of bytes that the first `n` characters of `s` take in UTF-8.
pub open spec fn byte_offset(s: Seq<char>, n: int) -> int
    decreases n,
{
    if n <= 0 || n > s.len() {
        0
    } else {
        byte_offset(s, n - 1) + utf8_width(s[n - 1])
    }
}

/// The column of the character at `n`: its byte offset, as far as a `usize`
/// can hold it.
pub open spec fn column_of(s: Seq<char>, n: int) -> int {
    if byte_offset(s, n) <= usize::MAX {
        byte_offset(s, n)
    } else {
        usize::MAX as int
    }
}

/// How often `c` stands among the first `n` characters of `s`.
pub open spec fn count_first(s: Seq<char>, c: char, n: int) -> int
    decreases n,
{
    if n <= 0 || n > s.len() {
        0
    } else if s[n - 1] == c {
        count_first(s, c, n - 1) + 1
    } else {
        count_first(s, c, n - 1)
    }
}

/// How often `c` stands in `s`.
pub open spec fn count(s: Seq<char>, c: char) -> int {
    count_first(s, c, s.len() as int)
}

/// A count lies between zero and the number of characters counted over.
pub proof fn lemma_count_bounds(s: Seq<char>, c: char, n: int)
    requires
        0 <= n <= s.len(),
    ensures
        0 <= count_first(s, c, n) <= n,
    decreases n,
{
    if n > 0 {
        lemma_count_bounds(s, c, n - 1);
    }
}

fn digit(d: u64) -> (c: char)
    requires
        d < 10,
    ensures
        c == digit_char(d as int),
{
    if d == 0 {
        '0'
    } else if d == 1 {
        '1'
    } else if d == 2 {
        '2'
    } else if d == 3 {
        '3'
    } else if d == 4 {
        '4'
    } else if d == 5 {
        '5'
    } else if d == 6 {
        '6'
    } else if d == 7 {
        '7'
    } else if d == 8 {
        '8'
    } else {
        '9'
    }
}

/// Appends `n` in decimal to `out`.
pub fn push_decimal(out: &mut Vec<char>, n: u64)
    ensures
        final(out)@ == old(out)@ + decimal(n as nat),
    decreases n,
{
    if n >= 10 {
        push_decimal(out, n / 10);
    }
    out.push(digit(n % 10));
    assert(final(out)@ =~= old(out)@ + decimal(n as nat));
}

/// `n` in decimal.
pub fn decimal_string(n: u64) -> (r: String)
    ensures
        r@ == decimal(n as nat),
{
    let mut out: Vec<char> = Vec::new();
    push_decimal(&mut out, n);
    assert(out@ =~= decimal(n as nat));
    string_of(&out)
}

/// Appends the characters of `t` to `out`.
pub fn push_chars(out: &mut Vec<char>, t: &Vec<char>)
    ensures
        final(out)@ == old(out)@ + t@,
{
    let mut i: usize = 0;
    while i < t.len()
        invariant
            i <= t.len(),
            out@ == old(out)@ + t@.take(i as int),
        decreases t.len() - i,
    {
        out.push(t[i]);
        assert(out@ =~= old(out)@ + t@.take(i + 1));
        i += 1;
    }
    assert(t@.take(t.len() as int) =~= t@);
}

/// `s` with each `c` replaced by the text `r`.
pub fn replace_char(s: &str, c: char, r: &str) -> (out: String)
    ensures
        out@ == replaced(s@, c, r@),
{
    let sv = chars_of(s);
    let rv = chars_of(r);
    let mut out: Vec<char> = Vec::new();
    let mut i: usize = 0;
    while i < sv.len()
        invariant
            i <= sv.len(),
            sv@ == s@,
            rv@ == r@,
            out@ + replaced_from(s@, c, r@, i as int) == replaced(s@, c, r@),
        decreases sv.len() - i,
    {
        let ghost before = out@;
        if sv[i] == c {
            push_chars(&mut out, &rv);
        } else {
            out.push(sv[i]);
        }
        assert(out@ + replaced_from(s@, c, r@, i + 1) =~= before + replaced_from(
            s@,
            c,
            r@,
            i as int,
        ));
        i += 1;
    }
    assert(out@ =~= out@ + replaced_from(s@, c, r@, i as int));
    string_of(&out)
}

/// `n` copies of the text `p`.
pub fn repeat(p: &str, n: usize) -> (out: String)
    ensures
        out@ == repeated(p@, n as nat),
{
    let pv = chars_of(p);
    let mut out: Vec<char> = Vec::new();
    let mut i: usize = 0;
    while i < n
        invariant
            i <= n,
            pv@ == p@,
            out@ == repeated(p@, i as nat),
        decreases n - i,
    {
        push_chars(&mut out, &pv);
        i += 1;
    }
    string_of(&out)
}

/// `parts` with the text `sep` between each two.
pub fn join(parts: &Vec<String>, sep: &str) -> (out: String)
    ensures
        out@ == joined(crate::text::split::strings(parts@), sep@),
{
    let sv = chars_of(sep);
    let mut out: Vec<char> = Vec::new();
    let mut i: usize = 0;
    let ghost ps = crate::text::split::strings(parts@);
    while i < parts.len()
        invariant
            i <= parts.len(),
            sv@ == sep@,
            ps == crate::text::split::strings(parts@),
            out@ == joined_first(ps, sep@, i as int),
        decreases parts.len() - i,
    {
        let ghost before = out@;
        if i > 0 {
            push_chars(&mut out, &sv);
        }
        let pv = chars_of(parts[i].as_str());
        push_chars(&mut out, &pv);
        assert(ps[i as int] == parts@[i as int]@);
        assert(out@ =~= joined_first(ps, sep@, i + 1));
        i += 1;
    }
    string_of(&out)
}

fn width_of(c: char) -> (w: u8)
    ensures
        w as int == utf8_width(c),
        1 <= w <= 4,
{
    let v: u32 = c as u32;
    if v < 0x80 {
        1
    } else if v < 0x800 {
        2
    } else if v < 0x10000 {
        3
    } else {
        4
    }
}

/// The column of the character at `n`.
pub fn byte_column(s: &Vec<char>, n: usize) -> (r: usize)
    requires
        n <= s.len(),
    ensures
        r as int == column_of(s@, n as int),
{
    let mut acc: u128 = 0;
    let mut k: usize = 0;
    while k < n
        invariant
            k <= n <= s.len(),
            acc as int == byte_offset(s@, k as int),
            acc <= 4 * k,
        decreases n - k,
    {
        let w = width_of(s[k]);
        acc = acc + w as u128;
        k += 1;
    }
    if acc <= usize::MAX as u128 {
        acc as usize
    } else {
        usize::MAX
    }
}

/// How often `c` stands in `s`.
pub fn count_char(s: &Vec<char>, c: char) -> (r: usize)
    ensures
        r as int == count(s@, c),
{
    let mut acc: usize = 0;
    let mut k: usize = 0;
    while k < s.len()
        invariant
            k <= s.len(),
            acc as int == count_first(s@, c, k as int),
            acc <= k,
        decreases s.len() - k,
    {
        if s[k] == c {
            acc += 1;
        }
        k += 1;
    }
    acc
}

/// A line that holds a label and a value.
pub open spec fn labelled(label: Seq<char>, value: Seq<char>) -> Seq<char> {
    label + value + "\n"@
}

/// A line that holds a label, a number and the text after it.
pub open spec fn counted(label: Seq<char>, n: nat, tail: Seq<char>) -> Seq<char> {
    label + decimal(n) + tail + "\n"@
}

/// Appends a line that holds a label and a value.
pub fn push_labelled(out: &mut String, label: &str, value: &str)
    ensures
        final(out)@ == old(out)@ + labelled(label@, value@),
{
    out.append(label);
    out.append(value);
    out.append("\n");
    assert(out@ =~= old(out)@ + labelled(label@, value@));
}

/// Appends a line that holds a label, a number and the text after it.
pub fn push_counted(out: &mut String, label: &str, n: u64, tail: &str)
    ensures
        final(out)@ == old(out)@ + counted(label@, n as nat, tail@),
{
    let number = decimal_string(n);
    out.append(label);
    out.append(number.as_str());
    out.append(tail);
    out.append("\n");
    assert(out@ =~= old(out)@ + counted(label@, n as nat, tail@));
}

} // verus!
