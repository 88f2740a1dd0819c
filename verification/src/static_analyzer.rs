//! Scanning source text for escapes, one scanner for each language.

use vstd::prelude::*;
use crate::protocol::{
    escapes_of, ConfidenceLevel, EscapeType, SourceLocation, SourceLocationView,
    StaticAnalysisResult, StaticEscape, StaticEscapeSummary, StaticEscapeView,
};
use crate::static_analyzer::go::GoStaticAnalyzer;
use crate::static_analyzer::java::JavaStaticAnalyzer;
use crate::static_analyzer::nodejs::NodeJsStaticAnalyzer;
use crate::static_analyzer::python::PythonStaticAnalyzer;
use crate::static_analyzer::rust::RustStaticAnalyzer;
use crate::text::compose::{to_lowercase, unicode_lowercase};
use crate::text::names::same_text;
use crate::text::split::strings;

pub mod go;
pub mod java;
pub mod nodejs;
pub mod python;
pub mod rust;

verus! {

/// The finding that the given parts make up, with no data flow recorded.
pub open spec fn finding(
    kind: EscapeType,
    file: Seq<char>,
    line: int,
    column: int,
    function: Seq<char>,
    snippet: Option<Seq<char>>,
    variable: Seq<char>,
    reason: Seq<char>,
    confidence: ConfidenceLevel,
) -> StaticEscapeView {
    StaticEscapeView {
        escape_type: kind,
        location: SourceLocationView {
            file,
            line: line as usize,
            column: column as usize,
            function,
            code_snippet: snippet,
        },
        variable_name: variable,
        reason,
        confidence,
        data_flow: Seq::<Seq<char>>::empty(),
    }
}

/// The finding lies in the given file and function, on one of the lines
/// from the first to the one numbered `count`.
pub open spec fn located(e: StaticEscapeView, file: Seq<char>, function: Seq<char>, count: int)
    -> bool {
    e.location.file == file && e.location.function == function && 1 <= e.location.line <= count
}

/// Every finding lies in the given file and function, on one of its lines.
pub open spec fn all_located(
    es: Seq<StaticEscapeView>,
    file: Seq<char>,
    function: Seq<char>,
    count: int,
) -> bool {
    forall|k: int| 0 <= k < es.len() ==> located(#[trigger] es[k], file, function, count)
}

/// Builds a finding from its parts.
pub fn new_finding(
    kind: EscapeType,
    file: &str,
    line: usize,
    column: usize,
    function: &str,
    snippet: Option<String>,
    variable: String,
    reason: String,
    confidence: ConfidenceLevel,
) -> (r: StaticEscape)
    ensures
        r@ == finding(
            kind,
            file@,
            line as int,
            column as int,
            function@,
            crate::protocol::opt_text(snippet),
            variable@,
            reason@,
            confidence,
        ),
{
    let data_flow: Vec<String> = Vec::new();
    assert(strings(data_flow@) =~= Seq::<Seq<char>>::empty());
    StaticEscape {
        escape_type: kind,
        location: SourceLocation {
            file: String::from_str(file),
            line,
            column,
            function: String::from_str(function),
            code_snippet: snippet,
        },
        variable_name: variable,
        reason,
        confidence,
        data_flow,
    }
}

/// The result of a scan with the given findings and warnings: its summary
/// is the tally of the findings.
pub fn assemble(
    target: &str,
    source_file: &str,
    escapes: Vec<StaticEscape>,
    warnings: Vec<String>,
    elapsed_ms: u64,
) -> (r: StaticAnalysisResult)
    ensures
        r@.target == target@,
        r@.source_file == source_file@,
        r@.escapes == escapes_of(escapes@),
        r@.warnings == strings(warnings@),
        r@.analysis_time_ms == elapsed_ms,
        r@.summary.counts(r@.escapes),
        r@.summary.consistent(),
{
    let summary = StaticEscapeSummary::of(&escapes);
    StaticAnalysisResult {
        target: String::from_str(target),
        source_file: String::from_str(source_file),
        escapes,
        analysis_time_ms: elapsed_ms,
        warnings,
        summary,
    }
}

/// What every scanner tells of itself.
pub trait StaticEscapeAnalyzer {
    /// The language that the scanner reads.
    spec fn language_name(&self) -> Seq<char>;

    /// The program, and its one argument, whose start shows that the
    /// toolchain of the language is present.
    spec fn toolchain_command(&self) -> (Seq<char>, Seq<char>);

    /// The language that the scanner reads.
    fn language(&self) -> (r: &'static str)
        ensures
            r@ == self.language_name(),
    ;

    /// The program, and its one argument, whose start shows that the
    /// toolchain of the language is present.
    fn availability_command(&self) -> (r: (&'static str, &'static str))
        ensures
            (r.0@, r.1@) == self.toolchain_command(),
    ;
}

/// A scanner for one of the languages.
#[derive(Debug, Clone, Copy)]
pub enum StaticAnalyzer {
    Python(PythonStaticAnalyzer),
    Java(JavaStaticAnalyzer),
    NodeJs(NodeJsStaticAnalyzer),
    Go(GoStaticAnalyzer),
    Rust(RustStaticAnalyzer),
}

impl StaticEscapeAnalyzer for StaticAnalyzer {
    open spec fn language_name(&self) -> Seq<char> {
        match self {
            StaticAnalyzer::Python(a) => a.language_name(),
            StaticAnalyzer::Java(a) => a.language_name(),
            StaticAnalyzer::NodeJs(a) => a.language_name(),
            StaticAnalyzer::Go(a) => a.language_name(),
            StaticAnalyzer::Rust(a) => a.language_name(),
        }
    }

    open spec fn toolchain_command(&self) -> (Seq<char>, Seq<char>) {
        match self {
            StaticAnalyzer::Python(a) => a.toolchain_command(),
            StaticAnalyzer::Java(a) => a.toolchain_command(),
            StaticAnalyzer::NodeJs(a) => a.toolchain_command(),
            StaticAnalyzer::Go(a) => a.toolchain_command(),
            StaticAnalyzer::Rust(a) => a.toolchain_command(),
        }
    }

    fn language(&self) -> (r: &'static str) {
        match self {
            StaticAnalyzer::Python(a) => a.language(),
            StaticAnalyzer::Java(a) => a.language(),
            StaticAnalyzer::NodeJs(a) => a.language(),
            StaticAnalyzer::Go(a) => a.language(),
            StaticAnalyzer::Rust(a) => a.language(),
        }
    }

    fn availability_command(&self) -> (r: (&'static str, &'static str)) {
        match self {
            StaticAnalyzer::Python(a) => a.availability_command(),
            StaticAnalyzer::Java(a) => a.availability_command(),
            StaticAnalyzer::NodeJs(a) => a.availability_command(),
            StaticAnalyzer::Go(a) => a.availability_command(),
            StaticAnalyzer::Rust(a) => a.availability_command(),
        }
    }
}

/// The scanner for a language given in lower case.
pub open spec fn analyzer_for(tag: Seq<char>) -> Option<StaticAnalyzer> {
    if tag == "python"@ {
        Some(StaticAnalyzer::Python(PythonStaticAnalyzer))
    } else if tag == "java"@ {
        Some(StaticAnalyzer::Java(JavaStaticAnalyzer))
    } else if tag == "javascript"@ || tag == "nodejs"@ {
        Some(StaticAnalyzer::NodeJs(NodeJsStaticAnalyzer))
    } else if tag == "go"@ {
        Some(StaticAnalyzer::Go(GoStaticAnalyzer))
    } else if tag == "rust"@ {
        Some(StaticAnalyzer::Rust(RustStaticAnalyzer))
    } else {
        None
    }
}

/// Makes the scanner for a language.
pub struct StaticAnalyzerFactory;

impl StaticAnalyzerFactory {
    /// The scanner for a language given in lower case.
    pub fn for_tag(tag: &str) -> (r: Option<StaticAnalyzer>)
        ensures
            r == analyzer_for(tag@),
    {
        if same_text(tag, "python") {
            Some(StaticAnalyzer::Python(PythonStaticAnalyzer::new()))
        } else if same_text(tag, "java") {
            Some(StaticAnalyzer::Java(JavaStaticAnalyzer::new()))
        } else if same_text(tag, "javascript") || same_text(tag, "nodejs") {
            Some(StaticAnalyzer::NodeJs(NodeJsStaticAnalyzer::new()))
        } else if same_text(tag, "go") {
            Some(StaticAnalyzer::Go(GoStaticAnalyzer::new()))
        } else if same_text(tag, "rust") {
            Some(StaticAnalyzer::Rust(RustStaticAnalyzer::new()))
        } else {
            None
        }
    }

    /// The scanner for a language, in whatever case it is written.
    pub fn create(language: &str) -> (r: Option<StaticAnalyzer>)
        ensures
            r == analyzer_for(unicode_lowercase(language@)),
    {
        let tag = to_lowercase(language);
        StaticAnalyzerFactory::for_tag(tag.as_str())
    }
}

} // verus!
