//! Requests and responses of a session: what is asked of a probe, and how
//! the answer of a scan and the answer of a run make one response.

use vstd::prelude::*;
use crate::error::{EscapeError, EscapeErrorView};
use crate::protocol::{
    vulnerabilities_of, AnalysisMode, AnalyzeRequest, AnalyzeRequestView, AnalyzeResponse,
    AnalyzeResponseView, ExecutionResultView, ExecutionSummary, StaticAnalysisResult,
    VulnerabilityView,
};
use crate::text::names::copy_strings;
use crate::text::split::strings;

verus! {

/// Trusted: `uuid::Uuid::new_v4`, written out as its `Display` gives it. The
/// identifier is random; of every outcome it holds that the text is 36
/// characters long. The call panics where the system has no random bytes
/// to give.
#[verifier::external_body]
pub(crate) fn fresh_session_id() -> (r: String)
    ensures
        r@.len() == 36,
{
    uuid::Uuid::new_v4().to_string()
}

/// The mode asks for a scan of the source.
pub open spec fn wants_static(mode: AnalysisMode) -> bool {
    mode == AnalysisMode::Static || mode == AnalysisMode::Both
}

/// The mode asks for a run of the target.
pub open spec fn wants_dynamic(mode: AnalysisMode) -> bool {
    mode == AnalysisMode::Dynamic || mode == AnalysisMode::Both
}

/// The counts of a session without runs.
pub open spec fn no_runs() -> ExecutionSummary {
    ExecutionSummary {
        total_tests: 0,
        successes: 0,
        crashes: 0,
        timeouts: 0,
        escapes: 0,
        genuine_escapes: 0,
    }
}

/// The response of a scan alone: no runs, no findings, and the result of
/// the scan.
pub open spec fn scan_response(
    session_id: Seq<char>,
    language: Seq<char>,
    mode: AnalysisMode,
    result: StaticAnalysisResult,
) -> AnalyzeResponseView {
    AnalyzeResponseView {
        session_id,
        language,
        analyzer_version: "1.0.0-static"@,
        analysis_mode: mode,
        results: Seq::<ExecutionResultView>::empty(),
        vulnerabilities: Seq::<VulnerabilityView>::empty(),
        summary: no_runs(),
        static_analysis: Some(result@),
        error: None,
    }
}

/// The response of a scan and a run together: that of the scan, with the
/// results and the counts of the run, and the findings of the run after
/// its own.
pub open spec fn merged(scan: AnalyzeResponseView, run: AnalyzeResponseView) -> AnalyzeResponseView {
    AnalyzeResponseView {
        session_id: scan.session_id,
        language: scan.language,
        analyzer_version: scan.analyzer_version,
        analysis_mode: scan.analysis_mode,
        results: run.results,
        vulnerabilities: scan.vulnerabilities + run.vulnerabilities,
        summary: run.summary,
        static_analysis: scan.static_analysis,
        error: scan.error,
    }
}

/// Whether the mode asks for a scan of the source.
pub fn runs_static(mode: AnalysisMode) -> (r: bool)
    ensures
        r == wants_static(mode),
{
    match mode {
        AnalysisMode::Static => true,
        AnalysisMode::Both => true,
        AnalysisMode::Dynamic => false,
    }
}

/// Whether the mode asks for a run of the target.
pub fn runs_dynamic(mode: AnalysisMode) -> (r: bool)
    ensures
        r == wants_dynamic(mode),
{
    match mode {
        AnalysisMode::Dynamic => true,
        AnalysisMode::Both => true,
        AnalysisMode::Static => false,
    }
}

/// The response of a scan alone, under the given session identifier.
pub fn static_response_with(
    session_id: String,
    language: String,
    mode: AnalysisMode,
    result: StaticAnalysisResult,
) -> (r: AnalyzeResponse)
    ensures
        r@ == scan_response(session_id@, language@, mode, result),
{
    let r = AnalyzeResponse {
        session_id,
        language,
        analyzer_version: String::from_str("1.0.0-static"),
        analysis_mode: mode,
        results: Vec::new(),
        vulnerabilities: Vec::new(),
        summary: ExecutionSummary {
            total_tests: 0,
            successes: 0,
            crashes: 0,
            timeouts: 0,
            escapes: 0,
            genuine_escapes: 0,
        },
        static_analysis: Some(result),
        error: None,
    };
    proof {
        assert(r@.results =~= Seq::<ExecutionResultView>::empty());
        assert(r@.vulnerabilities =~= Seq::<VulnerabilityView>::empty());
    }
    r
}

/// The response of a scan alone, under a fresh session identifier.
pub fn static_response(language: String, mode: AnalysisMode, result: StaticAnalysisResult) -> (r:
    AnalyzeResponse)
    ensures
        r@ == scan_response(r@.session_id, language@, mode, result),
        r@.session_id.len() == 36,
{
    static_response_with(fresh_session_id(), language, mode, result)
}

/// The request for a run under the given session identifier. The core sets
/// no options.
pub fn request_with(
    session_id: String,
    target: &str,
    inputs: &Vec<String>,
    repeat: usize,
    timeout_ms: u64,
    mode: AnalysisMode,
) -> (r: AnalyzeRequest)
    ensures
        r@ == (AnalyzeRequestView {
            session_id: session_id@,
            target: target@,
            inputs: strings(inputs@),
            repeat,
            timeout_ms,
            options: Seq::empty(),
            analysis_mode: mode,
        }),
{
    let r = AnalyzeRequest {
        session_id,
        target: String::from_str(target),
        inputs: copy_strings(inputs),
        repeat,
        timeout_ms,
        options: Vec::new(),
        analysis_mode: mode,
    };
    assert(r@.options =~= Seq::empty());
    r
}

/// The request for a run under a fresh session identifier.
pub fn new_request(
    target: &str,
    inputs: &Vec<String>,
    repeat: usize,
    timeout_ms: u64,
    mode: AnalysisMode,
) -> (r: AnalyzeRequest)
    ensures
        r@ == (AnalyzeRequestView {
            session_id: r@.session_id,
            target: target@,
            inputs: strings(inputs@),
            repeat,
            timeout_ms,
            options: Seq::empty(),
            analysis_mode: mode,
        }),
        r@.session_id.len() == 36,
{
    request_with(fresh_session_id(), target, inputs, repeat, timeout_ms, mode)
}

/// The request that a bulk run makes for one target: each input once, five
/// seconds for a run, and a run only.
pub fn bulk_request(target: &str, inputs: &Vec<String>) -> (r: AnalyzeRequest)
    ensures
        r@ == (AnalyzeRequestView {
            session_id: r@.session_id,
            target: target@,
            inputs: strings(inputs@),
            repeat: 1,
            timeout_ms: 5000,
            options: Seq::empty(),
            analysis_mode: AnalysisMode::Dynamic,
        }),
        r@.session_id.len() == 36,
{
    new_request(target, inputs, 1, 5000, AnalysisMode::Dynamic)
}

/// The response of a scan and a run together.
pub fn merge_responses(scan: AnalyzeResponse, run: AnalyzeResponse) -> (r: AnalyzeResponse)
    ensures
        r@ == merged(scan@, run@),
{
    let mut findings = scan.vulnerabilities;
    let mut more = run.vulnerabilities;
    let ghost a = findings@;
    let ghost b = more@;
    findings.append(&mut more);
    assert(vulnerabilities_of(a + b) =~= vulnerabilities_of(a) + vulnerabilities_of(b));
    AnalyzeResponse {
        session_id: scan.session_id,
        language: scan.language,
        analyzer_version: scan.analyzer_version,
        analysis_mode: scan.analysis_mode,
        results: run.results,
        vulnerabilities: findings,
        summary: run.summary,
        static_analysis: scan.static_analysis,
        error: scan.error,
    }
}

/// The one response of a session, from the answer of the scan and the
/// answer of the run, as far as each was made.
pub fn combine(scan: Option<AnalyzeResponse>, run: Option<AnalyzeResponse>) -> (r: Result<
    AnalyzeResponse,
    EscapeError,
>)
    ensures
        match r {
            Ok(resp) => match (scan, run) {
                (Some(s), Some(d)) => resp@ == merged(s@, d@),
                (Some(s), None) => resp@ == s@,
                (None, Some(d)) => resp@ == d@,
                (None, None) => false,
            },
            Err(e) => scan is None && run is None && e@ == EscapeErrorView::NothingAnalyzed,
        },
{
    match scan {
        Some(s) => match run {
            Some(d) => Ok(merge_responses(s, d)),
            None => Ok(s),
        },
        None => match run {
            Some(d) => Ok(d),
            None => Err(EscapeError::NothingAnalyzed),
        },
    }
}

} // verus!
