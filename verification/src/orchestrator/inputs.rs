//! The inputs that a bulk run feeds to every target.

use vstd::prelude::*;
use crate::text::compose::{decimal, decimal_string, repeat, repeated};
use crate::text::names::concat2;
use crate::text::split::strings;

verus! {

/// The number of seed inputs.
pub open spec fn seed_count() -> int {
    41
}

/// The seed input at position `i`: empty, numeric, boolean and null
/// literals, quotes, brackets, path traversal, injection templates, format
/// specifiers, concurrency keywords, and five repetition patterns.
pub open spec fn seed(i: int) -> Seq<char> {
    if i == 0 {
        ""@
    } else if i == 1 {
        "0"@
    } else if i == 2 {
        "-1"@
    } else if i == 3 {
        "1"@
    } else if i == 4 {
        "true"@
    } else if i == 5 {
        "false"@
    } else if i == 6 {
        "null"@
    } else if i == 7 {
        "undefined"@
    } else if i == 8 {
        "hello"@
    } else if i == 9 {
        "\\x00"@
    } else if i == 10 {
        "\\n"@
    } else if i == 11 {
        "\\t"@
    } else if i == 12 {
        "'"@
    } else if i == 13 {
        "\""@
    } else if i == 14 {
        "()"@
    } else if i == 15 {
        "[]"@
    } else if i == 16 {
        "{}"@
    } else if i == 17 {
        "../"@
    } else if i == 18 {
        "..\\"@
    } else if i == 19 {
        "${HOME}"@
    } else if i == 20 {
        "$(whoami)"@
    } else if i == 21 {
        "{{7*7}}"@
    } else if i == 22 {
        "%s"@
    } else if i == 23 {
        "error"@
    } else if i == 24 {
        "exception"@
    } else if i == 25 {
        "async"@
    } else if i == 26 {
        "await"@
    } else if i == 27 {
        "timeout"@
    } else if i == 28 {
        "deadlock"@
    } else if i == 29 {
        "race"@
    } else if i == 30 {
        "concurrent"@
    } else if i == 31 {
        "<script>alert(1)</script>"@
    } else if i == 32 {
        "'; DROP TABLE; --"@
    } else if i == 33 {
        "../../../etc/passwd"@
    } else if i == 34 {
        "\\x1b[31m"@
    } else if i == 35 {
        "\\u0000"@
    } else if i == 36 {
        repeated("A"@, 1024)
    } else if i == 37 {
        repeated("1"@, 100)
    } else if i == 38 {
        repeated("test"@, 50)
    } else if i == 39 {
        repeated(" "@, 1000)
    } else {
        repeated("\\n"@, 100)
    }
}

/// The input at position `i`: a seed as far as they reach, then `input_`
/// and the position counted from one.
pub open spec fn input_at(i: int) -> Seq<char> {
    if i < seed_count() {
        seed(i)
    } else {
        "input_"@ + decimal((i + 1) as nat)
    }
}

/// The inputs for a requested count: the first `count` of the endless list
/// that `input_at` describes, and the one empty input where none is asked
/// for.
pub open spec fn generated_inputs(count: nat) -> Seq<Seq<char>> {
    Seq::new(
        if count == 0 {
            1
        } else {
            count
        },
        |i: int| input_at(i),
    )
}

/// The seed input at position `i`.
pub fn seed_at(i: usize) -> (r: String)
    requires
        i < seed_count(),
    ensures
        r@ == seed(i as int),
{
    if i == 0 {
        String::from_str("")
    } else if i == 1 {
        String::from_str("0")
    } else if i == 2 {
        String::from_str("-1")
    } else if i == 3 {
        String::from_str("1")
    } else if i == 4 {
        String::from_str("true")
    } else if i == 5 {
        String::from_str("false")
    } else if i == 6 {
        String::from_str("null")
    } else if i == 7 {
        String::from_str("undefined")
    } else if i == 8 {
        String::from_str("hello")
    } else if i == 9 {
        String::from_str("\\x00")
    } else if i == 10 {
        String::from_str("\\n")
    } else if i == 11 {
        String::from_str("\\t")
    } else if i == 12 {
        String::from_str("'")
    } else if i == 13 {
        String::from_str("\"")
    } else if i == 14 {
        String::from_str("()")
    } else if i == 15 {
        String::from_str("[]")
    } else if i == 16 {
        String::from_str("{}")
    } else if i == 17 {
        String::from_str("../")
    } else if i == 18 {
        String::from_str("..\\")
    } else if i == 19 {
        String::from_str("${HOME}")
    } else if i == 20 {
        String::from_str("$(whoami)")
    } else if i == 21 {
        String::from_str("{{7*7}}")
    } else if i == 22 {
        String::from_str("%s")
    } else if i == 23 {
        String::from_str("error")
    } else if i == 24 {
        String::from_str("exception")
    } else if i == 25 {
        String::from_str("async")
    } else if i == 26 {
        String::from_str("await")
    } else if i == 27 {
        String::from_str("timeout")
    } else if i == 28 {
        String::from_str("deadlock")
    } else if i == 29 {
        String::from_str("race")
    } else if i == 30 {
        String::from_str("concurrent")
    } else if i == 31 {
        String::from_str("<script>alert(1)</script>")
    } else if i == 32 {
        String::from_str("'; DROP TABLE; --")
    } else if i == 33 {
        String::from_str("../../../etc/passwd")
    } else if i == 34 {
        String::from_str("\\x1b[31m")
    } else if i == 35 {
        String::from_str("\\u0000")
    } else if i == 36 {
        repeat("A", 1024)
    } else if i == 37 {
        repeat("1", 100)
    } else if i == 38 {
        repeat("test", 50)
    } else if i == 39 {
        repeat(" ", 1000)
    } else {
        repeat("\\n", 100)
    }
}

/// The inputs for a requested count. The list depends on the count alone.
pub fn generate_inputs(count: usize) -> (r: Vec<String>)
    ensures
        strings(r@) == generated_inputs(count as nat),
        r@.len() == if count == 0 {
            1
        } else {
            count as int
        },
{
    let n: usize = if count == 0 {
        1
    } else {
        count
    };
    let mut out: Vec<String> = Vec::new();
    let mut i: usize = 0;
    while i < n
        invariant
            i <= n,
            out@.len() == i,
            forall|j: int| 0 <= j < i ==> (#[trigger] out@[j])@ == input_at(j),
        decreases n - i,
    {
        let s = if i < 41 {
            seed_at(i)
        } else {
            let number = decimal_string((i + 1) as u64);
            concat2("input_", number.as_str())
        };
        out.push(s);
        i += 1;
    }
    assert(strings(out@) =~= generated_inputs(count as nat));
    out
}

} // verus!
