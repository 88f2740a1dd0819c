//! The scanner for JavaScript, which takes its findings from an external
//! scanner and brings them into the common shape.

use vstd::prelude::*;
use crate::error::{EscapeError, EscapeErrorView};
use crate::protocol::{
    escapes_of, lemma_escapes_push, opt_text, ConfidenceLevel, EscapeType, SourceLocation,
    SourceLocationView, StaticAnalysisResult, StaticEscape, StaticEscapeView,
};
use crate::static_analyzer::{assemble, StaticEscapeAnalyzer};
use crate::text::names::{same_text, split_text};
use crate::text::split::{split, strings};

verus! {

/// One finding as the external scanner reports it.
#[derive(Debug, Clone)]
pub struct JsEscape {
    pub escape_type: String,
    pub line: usize,
    pub column: usize,
    pub variable_name: String,
    pub reason: String,
    pub confidence: String,
    pub code_snippet: Option<String>,
}

/// What the external scanner reports.
#[derive(Debug, Clone)]
pub struct JsAnalysis {
    pub escapes: Vec<JsEscape>,
    pub success: bool,
    pub error: Option<String>,
}

/// The kind that the external scanner's word stands for; unknown for any
/// other word.
pub open spec fn kind_of(word: Seq<char>) -> EscapeType {
    if word == "return"@ {
        EscapeType::ReturnEscape
    } else if word == "parameter"@ {
        EscapeType::ParameterEscape
    } else if word == "global"@ {
        EscapeType::GlobalEscape
    } else if word == "closure"@ {
        EscapeType::ClosureEscape
    } else if word == "heap"@ {
        EscapeType::HeapEscape
    } else if word == "concurrency"@ {
        EscapeType::ConcurrencyEscape
    } else {
        EscapeType::UnknownEscape
    }
}

/// The confidence that the external scanner's word stands for; low for any
/// other word.
pub open spec fn confidence_of(word: Seq<char>) -> ConfidenceLevel {
    if word == "high"@ {
        ConfidenceLevel::High
    } else if word == "medium"@ {
        ConfidenceLevel::Medium
    } else {
        ConfidenceLevel::Low
    }
}

/// The finding that a report of the external scanner stands for, in the
/// given file and function.
pub open spec fn converted(je: JsEscape, file: Seq<char>, function: Seq<char>) -> StaticEscapeView {
    StaticEscapeView {
        escape_type: kind_of(je.escape_type@),
        location: SourceLocationView {
            file,
            line: je.line,
            column: je.column,
            function,
            code_snippet: opt_text(je.code_snippet),
        },
        variable_name: je.variable_name@,
        reason: je.reason@,
        confidence: confidence_of(je.confidence@),
        data_flow: Seq::<Seq<char>>::empty(),
    }
}

/// The findings that a list of reports stands for, in order.
pub open spec fn converted_all(v: Seq<JsEscape>, file: Seq<char>, function: Seq<char>) -> Seq<
    StaticEscapeView,
> {
    v.map_values(|je: JsEscape| converted(je, file, function))
}

/// The module and the function of a target: the two parts around its one
/// colon.
pub open spec fn target_parts(target: Seq<char>) -> Option<(Seq<char>, Seq<char>)> {
    let parts = split(target, ':');
    if parts.len() == 2 {
        Some((parts[0], parts[1]))
    } else {
        None
    }
}

/// The function of a target: what follows its one colon, and nothing
/// where the target has another form.
pub open spec fn target_function(target: Seq<char>) -> Seq<char> {
    match target_parts(target) {
        Some(p) => p.1,
        None => Seq::<char>::empty(),
    }
}

/// The kind that the external scanner's word stands for.
pub fn escape_kind(word: &str) -> (r: EscapeType)
    ensures
        r == kind_of(word@),
{
    if same_text(word, "return") {
        EscapeType::ReturnEscape
    } else if same_text(word, "parameter") {
        EscapeType::ParameterEscape
    } else if same_text(word, "global") {
        EscapeType::GlobalEscape
    } else if same_text(word, "closure") {
        EscapeType::ClosureEscape
    } else if same_text(word, "heap") {
        EscapeType::HeapEscape
    } else if same_text(word, "concurrency") {
        EscapeType::ConcurrencyEscape
    } else {
        EscapeType::UnknownEscape
    }
}

/// The confidence that the external scanner's word stands for.
pub fn confidence_level(word: &str) -> (r: ConfidenceLevel)
    ensures
        r == confidence_of(word@),
{
    if same_text(word, "high") {
        ConfidenceLevel::High
    } else if same_text(word, "medium") {
        ConfidenceLevel::Medium
    } else {
        ConfidenceLevel::Low
    }
}

/// The finding that a report of the external scanner stands for; file and
/// function are left empty for the caller to fill.
pub fn static_escape_from(je: JsEscape) -> (r: StaticEscape)
    ensures
        r@ == converted(je, Seq::<char>::empty(), Seq::<char>::empty()),
{
    let data_flow: Vec<String> = Vec::new();
    assert(strings(data_flow@) =~= Seq::<Seq<char>>::empty());
    let escape_type = escape_kind(je.escape_type.as_str());
    let confidence = confidence_level(je.confidence.as_str());
    StaticEscape {
        escape_type,
        location: SourceLocation {
            file: String::new(),
            line: je.line,
            column: je.column,
            function: String::new(),
            code_snippet: je.code_snippet,
        },
        variable_name: je.variable_name,
        reason: je.reason,
        confidence,
        data_flow,
    }
}

fn copy_report(je: &JsEscape) -> (r: JsEscape)
    ensures
        r == *je,
{
    JsEscape {
        escape_type: je.escape_type.clone(),
        line: je.line,
        column: je.column,
        variable_name: je.variable_name.clone(),
        reason: je.reason.clone(),
        confidence: je.confidence.clone(),
        code_snippet: match &je.code_snippet {
            Some(s) => Some(s.clone()),
            None => None,
        },
    }
}

/// The module and the function of a target.
pub fn parse_target(target: &str) -> (r: Result<(String, String), EscapeError>)
    ensures
        match r {
            Ok(p) => target_parts(target@) == Some((p.0@, p.1@)),
            Err(e) => target_parts(target@) is None && e@ == EscapeErrorView::InvalidTarget,
        },
{
    let mut parts = split_text(target, ':');
    if parts.len() != 2 {
        return Err(EscapeError::InvalidTarget);
    }
    assert(strings(parts@)[0] == parts@[0]@);
    assert(strings(parts@)[1] == parts@[1]@);
    let function = parts[1].clone();
    let module = parts[0].clone();
    Ok((module, function))
}

/// The findings of a report of the external scanner, each with the given
/// file and function. A report that tells of a failure and names its cause
/// is an error.
pub fn convert_analysis(analysis: JsAnalysis, source_file: &str, function_name: &str) -> (r:
    Result<Vec<StaticEscape>, EscapeError>)
    ensures
        match r {
            Ok(v) => (analysis.success || analysis.error is None) && escapes_of(v@)
                == converted_all(analysis.escapes@, source_file@, function_name@),
            Err(e) => !analysis.success && analysis.error is Some && e@
                == EscapeErrorView::ScanFailed(analysis.error->0@),
        },
{
    if !analysis.success {
        match analysis.error {
            Some(error) => {
                return Err(EscapeError::ScanFailed(error));
            },
            None => {},
        }
    }
    let reports = analysis.escapes;
    let mut out: Vec<StaticEscape> = Vec::new();
    let mut i: usize = 0;
    while i < reports.len()
        invariant
            i <= reports.len(),
            escapes_of(out@) == converted_all(reports@, source_file@, function_name@).take(
                i as int,
            ),
        decreases reports.len() - i,
    {
        let mut escape = static_escape_from(copy_report(&reports[i]));
        escape.location.file = String::from_str(source_file);
        escape.location.function = String::from_str(function_name);
        proof {
            lemma_escapes_push(out@, escape);
            assert(converted_all(reports@, source_file@, function_name@).take(i as int).push(
                escape@,
            ) =~= converted_all(reports@, source_file@, function_name@).take(i + 1));
        }
        out.push(escape);
        i += 1;
    }
    assert(converted_all(reports@, source_file@, function_name@).take(reports.len() as int)
        =~= converted_all(reports@, source_file@, function_name@));
    Ok(out)
}

/// The scanner for JavaScript source text.
#[derive(Debug, Clone, Copy)]
pub struct NodeJsStaticAnalyzer;

impl NodeJsStaticAnalyzer {
    /// The scanner.
    pub fn new() -> (r: Self)
        ensures
            r == NodeJsStaticAnalyzer,
    {
        NodeJsStaticAnalyzer
    }

    /// The result of a scan from what the external scanner reported.
    pub fn analyze_report(
        &self,
        target: &str,
        source_file: &str,
        analysis: JsAnalysis,
        elapsed_ms: u64,
    ) -> (r: Result<StaticAnalysisResult, EscapeError>)
        ensures
            match r {
                Ok(res) => {
                    &&& target_parts(target@) is Some
                    &&& analysis.success || analysis.error is None
                    &&& res@.target == target@
                    &&& res@.source_file == source_file@
                    &&& res@.escapes == converted_all(
                        analysis.escapes@,
                        source_file@,
                        target_function(target@),
                    )
                    &&& res@.warnings == Seq::<Seq<char>>::empty()
                    &&& res@.analysis_time_ms == elapsed_ms
                    &&& res@.summary.counts(res@.escapes)
                    &&& res@.summary.consistent()
                },
                Err(e) => if target_parts(target@) is None {
                    e@ == EscapeErrorView::InvalidTarget
                } else {
                    !analysis.success && analysis.error is Some && e@
                        == EscapeErrorView::ScanFailed(analysis.error->0@)
                },
            },
    {
        let parts = match parse_target(target) {
            Ok(p) => p,
            Err(e) => {
                return Err(e);
            },
        };
        let escapes = match convert_analysis(analysis, source_file, parts.1.as_str()) {
            Ok(v) => v,
            Err(e) => {
                return Err(e);
            },
        };
        let warnings: Vec<String> = Vec::new();
        assert(strings(warnings@) =~= Seq::<Seq<char>>::empty());
        Ok(assemble(target, source_file, escapes, warnings, elapsed_ms))
    }
}

impl StaticEscapeAnalyzer for NodeJsStaticAnalyzer {
    open spec fn language_name(&self) -> Seq<char> {
        "javascript"@
    }

    open spec fn toolchain_command(&self) -> (Seq<char>, Seq<char>) {
        ("node"@, "--version"@)
    }

    fn language(&self) -> (r: &'static str) {
        "javascript"
    }

    fn availability_command(&self) -> (r: (&'static str, &'static str)) {
        ("node", "--version")
    }
}

} // verus!
