//! The scanner for Python source text. It finds the function that a target
//! names; no pattern is looked for inside it.

use vstd::prelude::*;
use crate::protocol::{escapes_of, StaticAnalysisResult, StaticEscape, StaticEscapeView};
use crate::static_analyzer::{assemble, StaticEscapeAnalyzer};
use crate::text::chars::{chars_of, string_of};
use crate::text::names::{concat3, lines_of, nonempty, same_text};
use crate::text::runs::{
    after_last, after_prefix, leading_name, strip_prefix, take_after_last, take_name, trim,
    trimmed,
};
use crate::text::search::{contains, contains_str};
use crate::text::split::{lemma_strings_push, lines, strings};

verus! {

/// The function that a target names: what follows its last colon, where the
/// target holds a colon.
pub open spec fn target_function(target: Seq<char>) -> Option<Seq<char>> {
    if contains(target, ":"@) {
        Some(trimmed(after_last(target, ':')))
    } else {
        None
    }
}

/// The name of the function that a line defines: what follows `def ` or
/// `async def ` at the start of the trimmed line.
pub open spec fn def_name(line: Seq<char>) -> Option<Seq<char>> {
    match after_prefix(trimmed(line), "def "@) {
        Some(rest) => nonempty(leading_name(rest)),
        None => match after_prefix(trimmed(line), "async def "@) {
            Some(rest) => nonempty(leading_name(rest)),
            None => None,
        },
    }
}

/// One of the lines from `i` on defines the function.
pub open spec fn defined_from(lines: Seq<Seq<char>>, function: Seq<char>, i: int) -> bool
    decreases lines.len() - i,
{
    if i < 0 || i >= lines.len() {
        false
    } else {
        def_name(lines[i]) == Some(function) || defined_from(lines, function, i + 1)
    }
}

/// The warnings of a scan: one where the target names a function that no
/// line defines.
pub open spec fn analysis_warnings(target: Seq<char>, source: Seq<char>) -> Seq<Seq<char>> {
    match target_function(target) {
        Some(f) => if defined_from(lines(source), f, 0) {
            Seq::<Seq<char>>::empty()
        } else {
            seq!["Target function '"@ + f + "' not found in source file"@]
        },
        None => Seq::<Seq<char>>::empty(),
    }
}

/// The function of a target.
pub fn parse_target_function(target: &str) -> (r: Option<String>)
    ensures
        crate::protocol::opt_text(r) == target_function(target@),
{
    let v = chars_of(target);
    if contains_str(&v, ":") {
        Some(string_of(&trim(&take_after_last(&v, ':'))))
    } else {
        None
    }
}

/// The name of the function that a line defines.
pub fn extract_def_name(line: &str) -> (r: Option<String>)
    ensures
        crate::protocol::opt_text(r) == def_name(line@),
{
    let t = trim(&chars_of(line));
    let rest = match strip_prefix(&t, "def ") {
        Some(r) => r,
        None => match strip_prefix(&t, "async def ") {
            Some(r) => r,
            None => {
                return None;
            },
        },
    };
    let name = take_name(&rest);
    if name.len() > 0 {
        Some(string_of(&name))
    } else {
        None
    }
}

/// Whether one of the lines of the source defines the function.
pub fn defines(source: &str, function_name: &str) -> (r: bool)
    ensures
        r == defined_from(lines(source@), function_name@, 0),
{
    let rows = lines_of(source);
    let mut i: usize = 0;
    while i < rows.len()
        invariant
            i <= rows.len(),
            strings(rows@) == lines(source@),
            defined_from(lines(source@), function_name@, i as int) == defined_from(
                lines(source@),
                function_name@,
                0,
            ),
        decreases rows.len() - i,
    {
        assert(strings(rows@)[i as int] == rows@[i as int]@);
        let hit = match extract_def_name(rows[i].as_str()) {
            Some(name) => same_text(name.as_str(), function_name),
            None => false,
        };
        if hit {
            return true;
        }
        i += 1;
    }
    false
}

/// The scanner for Python source text.
#[derive(Debug, Clone, Copy)]
pub struct PythonStaticAnalyzer;

impl PythonStaticAnalyzer {
    /// The scanner.
    pub fn new() -> (r: Self)
        ensures
            r == PythonStaticAnalyzer,
    {
        PythonStaticAnalyzer
    }

    /// Scans a source text: it reports no escape, and warns where the
    /// function that the target names is not defined.
    pub fn analyze_source(&self, target: &str, source_file: &str, source: &str, elapsed_ms: u64)
        -> (r: StaticAnalysisResult)
        ensures
            r@.target == target@,
            r@.source_file == source_file@,
            r@.escapes == Seq::<StaticEscapeView>::empty(),
            r@.warnings == analysis_warnings(target@, source@),
            r@.analysis_time_ms == elapsed_ms,
            r@.summary.counts(r@.escapes),
            r@.summary.consistent(),
    {
        let mut warnings: Vec<String> = Vec::new();
        assert(strings(warnings@) =~= Seq::<Seq<char>>::empty());
        match parse_target_function(target) {
            Some(function_name) => {
                if !defines(source, function_name.as_str()) {
                    let w = concat3(
                        "Target function '",
                        function_name.as_str(),
                        "' not found in source file",
                    );
                    proof {
                        lemma_strings_push(warnings@, w);
                    }
                    warnings.push(w);
                    assert(strings(warnings@) =~= analysis_warnings(target@, source@));
                }
            },
            None => {},
        }
        let escapes: Vec<StaticEscape> = Vec::new();
        assert(escapes_of(escapes@) =~= Seq::<StaticEscapeView>::empty());
        assemble(target, source_file, escapes, warnings, elapsed_ms)
    }
}

impl StaticEscapeAnalyzer for PythonStaticAnalyzer {
    open spec fn language_name(&self) -> Seq<char> {
        "python"@
    }

    open spec fn toolchain_command(&self) -> (Seq<char>, Seq<char>) {
        ("python3"@, "--version"@)
    }

    fn language(&self) -> (r: &'static str) {
        "python"
    }

    fn availability_command(&self) -> (r: (&'static str, &'static str)) {
        ("python3", "--version")
    }
}

} // verus!
