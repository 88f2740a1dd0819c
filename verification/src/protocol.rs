//! The data exchanged between the orchestrator and the language probes, and
//! the mathematical value each piece of it stands for.

use vstd::prelude::*;
use crate::text::compose::{decimal, joined, push_chars, push_decimal};
use crate::text::chars::{chars_of, string_of};
use crate::text::names::copy_strings;
use crate::text::split::strings;

verus! {

/// How a target is analyzed.
#[derive(Debug, Clone, Copy, PartialEq, Eq, Structural)]
pub enum AnalysisMode {
    /// Run the target and watch for workers left behind.
    Dynamic,
    /// Scan the source text.
    Static,
    /// Both of the above.
    Both,
}

impl Default for AnalysisMode {
    fn default() -> (r: Self)
        ensures
            r == AnalysisMode::Dynamic,
    {
        AnalysisMode::Dynamic
    }
}

/// A request to run one target on a list of inputs.
#[derive(Debug, Clone)]
pub struct AnalyzeRequest {
    pub session_id: String,
    pub target: String,
    pub inputs: Vec<String>,
    pub repeat: usize,
    /// The time allowed for one run, in milliseconds.
    pub timeout_ms: u64,
    /// Reserved for probe extensions, as pairs of key and value.
    pub options: Vec<(String, String)>,
    pub analysis_mode: AnalysisMode,
}

/// A thread left behind by a run.
#[derive(Debug, Clone)]
pub struct ThreadEscape {
    pub thread_id: String,
    pub name: String,
    pub is_daemon: bool,
    pub state: String,
    pub stack_trace: Option<Vec<String>>,
}

/// A process left behind by a run.
#[derive(Debug, Clone)]
pub struct ProcessEscape {
    pub pid: u32,
    pub name: String,
    pub cmdline: Option<String>,
}

/// An asynchronous task left behind by a run.
#[derive(Debug, Clone)]
pub struct AsyncTaskEscape {
    pub task_id: String,
    pub task_type: String,
    pub state: String,
}

/// A goroutine left behind by a run.
#[derive(Debug, Clone)]
pub struct GoroutineEscape {
    pub goroutine_id: u64,
    pub state: String,
    pub function: String,
}

/// The workers left behind by a run, by kind.
#[derive(Debug, Clone)]
pub struct EscapeDetails {
    pub threads: Vec<ThreadEscape>,
    pub processes: Vec<ProcessEscape>,
    pub async_tasks: Vec<AsyncTaskEscape>,
    pub goroutines: Vec<GoroutineEscape>,
    pub other: Vec<String>,
}

/// The outcome of one run of the target on one input.
#[derive(Debug, Clone)]
pub struct ExecutionResult {
    pub input_data: String,
    pub success: bool,
    pub crashed: bool,
    pub output: String,
    pub error: String,
    pub execution_time_ms: u64,
    pub escape_detected: bool,
    pub escape_details: EscapeDetails,
}

/// An escape reported as a finding.
#[derive(Debug, Clone)]
pub struct Vulnerability {
    pub input: String,
    pub vulnerability_type: String,
    pub severity: String,
    pub description: String,
    pub escape_details: EscapeDetails,
}

/// The counts over all runs of a session. The crash rate is the quotient of
/// `crashes` and `total_tests`, and zero where no test ran.
#[derive(Debug, Clone, Copy, PartialEq, Eq, Structural)]
pub struct ExecutionSummary {
    pub total_tests: usize,
    pub successes: usize,
    pub crashes: usize,
    pub timeouts: usize,
    pub escapes: usize,
    pub genuine_escapes: usize,
}

/// The kind of an escape found in source text.
#[derive(Debug, Clone, Copy, PartialEq, Eq, Structural)]
pub enum EscapeType {
    /// A variable returned from the function.
    ReturnEscape,
    /// A variable passed to another function.
    ParameterEscape,
    /// A variable stored in global scope.
    GlobalEscape,
    /// A variable captured by a closure.
    ClosureEscape,
    /// A variable stored in a heap-allocated structure.
    HeapEscape,
    /// A thread or another concurrency primitive created.
    ConcurrencyEscape,
    /// A pattern of no known kind.
    UnknownEscape,
}

/// How much a finding of the source scan can be relied on.
#[derive(Debug, Clone, Copy, PartialEq, Eq, Structural)]
pub enum ConfidenceLevel {
    Low,
    Medium,
    High,
}

/// A place in source text.
#[derive(Debug, Clone)]
pub struct SourceLocation {
    pub file: String,
    pub line: usize,
    pub column: usize,
    pub function: String,
    pub code_snippet: Option<String>,
}

/// One escape found in source text.
#[derive(Debug, Clone)]
pub struct StaticEscape {
    pub escape_type: EscapeType,
    pub location: SourceLocation,
    pub variable_name: String,
    pub reason: String,
    pub confidence: ConfidenceLevel,
    pub data_flow: Vec<String>,
}

/// The escapes of a source scan, counted by kind and by confidence.
#[derive(Debug, Clone, Copy, PartialEq, Eq, Structural)]
pub struct StaticEscapeSummary {
    pub total_escapes: usize,
    pub return_escapes: usize,
    pub parameter_escapes: usize,
    pub global_escapes: usize,
    pub closure_escapes: usize,
    pub heap_escapes: usize,
    pub concurrency_escapes: usize,
    pub high_confidence: usize,
    pub medium_confidence: usize,
    pub low_confidence: usize,
}

/// The result of a source scan.
#[derive(Debug, Clone)]
pub struct StaticAnalysisResult {
    pub target: String,
    pub source_file: String,
    pub escapes: Vec<StaticEscape>,
    pub analysis_time_ms: u64,
    pub warnings: Vec<String>,
    pub summary: StaticEscapeSummary,
}

/// What an analysis answers.
#[derive(Debug, Clone)]
pub struct AnalyzeResponse {
    pub session_id: String,
    pub language: String,
    pub analyzer_version: String,
    pub analysis_mode: AnalysisMode,
    pub results: Vec<ExecutionResult>,
    pub vulnerabilities: Vec<Vulnerability>,
    pub summary: ExecutionSummary,
    pub static_analysis: Option<StaticAnalysisResult>,
    /// What kept the probe from doing its work, where something did.
    pub error: Option<String>,
}

/// What an analyzer is and can do.
#[derive(Debug, Clone)]
pub struct AnalyzerInfo {
    pub name: String,
    pub language: String,
    pub version: String,
    pub supported_features: Vec<String>,
    pub executable_path: String,
}

/// A request for a sign of life.
#[derive(Debug, Clone)]
pub struct HealthCheckRequest {
    pub ping: String,
}

/// The sign of life of an analyzer.
#[derive(Debug, Clone)]
pub struct HealthCheckResponse {
    pub pong: String,
    pub analyzer_info: AnalyzerInfo,
}

/// The value of a `ThreadEscape`.
pub struct ThreadEscapeView {
    pub thread_id: Seq<char>,
    pub name: Seq<char>,
    pub is_daemon: bool,
    pub state: Seq<char>,
    pub stack_trace: Option<Seq<Seq<char>>>,
}

/// The value of a `ProcessEscape`.
pub struct ProcessEscapeView {
    pub pid: u32,
    pub name: Seq<char>,
    pub cmdline: Option<Seq<char>>,
}

/// The value of an `AsyncTaskEscape`.
pub struct AsyncTaskEscapeView {
    pub task_id: Seq<char>,
    pub task_type: Seq<char>,
    pub state: Seq<char>,
}

/// The value of a `GoroutineEscape`.
pub struct GoroutineEscapeView {
    pub goroutine_id: u64,
    pub state: Seq<char>,
    pub function: Seq<char>,
}

/// The value of an `EscapeDetails`.
pub struct EscapeDetailsView {
    pub threads: Seq<ThreadEscapeView>,
    pub processes: Seq<ProcessEscapeView>,
    pub async_tasks: Seq<AsyncTaskEscapeView>,
    pub goroutines: Seq<GoroutineEscapeView>,
    pub other: Seq<Seq<char>>,
}

/// The value of an `ExecutionResult`.
pub struct ExecutionResultView {
    pub input_data: Seq<char>,
    pub success: bool,
    pub crashed: bool,
    pub output: Seq<char>,
    pub error: Seq<char>,
    pub execution_time_ms: u64,
    pub escape_detected: bool,
    pub escape_details: EscapeDetailsView,
}

/// The value of a `Vulnerability`.
pub struct VulnerabilityView {
    pub input: Seq<char>,
    pub vulnerability_type: Seq<char>,
    pub severity: Seq<char>,
    pub description: Seq<char>,
    pub escape_details: EscapeDetailsView,
}

/// The value of a `SourceLocation`.
pub struct SourceLocationView {
    pub file: Seq<char>,
    pub line: usize,
    pub column: usize,
    pub function: Seq<char>,
    pub code_snippet: Option<Seq<char>>,
}

/// The value of a `StaticEscape`.
pub struct StaticEscapeView {
    pub escape_type: EscapeType,
    pub location: SourceLocationView,
    pub variable_name: Seq<char>,
    pub reason: Seq<char>,
    pub confidence: ConfidenceLevel,
    pub data_flow: Seq<Seq<char>>,
}

/// The value of a `StaticAnalysisResult`.
pub struct StaticAnalysisResultView {
    pub target: Seq<char>,
    pub source_file: Seq<char>,
    pub escapes: Seq<StaticEscapeView>,
    pub analysis_time_ms: u64,
    pub warnings: Seq<Seq<char>>,
    pub summary: StaticEscapeSummary,
}

/// The value of an `AnalyzeResponse`.
pub struct AnalyzeResponseView {
    pub session_id: Seq<char>,
    pub language: Seq<char>,
    pub analyzer_version: Seq<char>,
    pub analysis_mode: AnalysisMode,
    pub results: Seq<ExecutionResultView>,
    pub vulnerabilities: Seq<VulnerabilityView>,
    pub summary: ExecutionSummary,
    pub static_analysis: Option<StaticAnalysisResultView>,
    pub error: Option<Seq<char>>,
}

/// The value of an `AnalyzeRequest`.
pub struct AnalyzeRequestView {
    pub session_id: Seq<char>,
    pub target: Seq<char>,
    pub inputs: Seq<Seq<char>>,
    pub repeat: usize,
    pub timeout_ms: u64,
    pub options: Seq<(Seq<char>, Seq<char>)>,
    pub analysis_mode: AnalysisMode,
}

/// The value of an `AnalyzerInfo`.
pub struct AnalyzerInfoView {
    pub name: Seq<char>,
    pub language: Seq<char>,
    pub version: Seq<char>,
    pub supported_features: Seq<Seq<char>>,
    pub executable_path: Seq<char>,
}

/// The text of an optional string.
pub open spec fn opt_text(o: Option<String>) -> Option<Seq<char>> {
    match o {
        Some(s) => Some(s@),
        None => None,
    }
}

/// The texts of an optional list of strings.
pub open spec fn opt_texts(o: Option<Vec<String>>) -> Option<Seq<Seq<char>>> {
    match o {
        Some(v) => Some(strings(v@)),
        None => None,
    }
}

impl View for ThreadEscape {
    type V = ThreadEscapeView;

    open spec fn view(&self) -> ThreadEscapeView {
        ThreadEscapeView {
            thread_id: self.thread_id@,
            name: self.name@,
            is_daemon: self.is_daemon,
            state: self.state@,
            stack_trace: opt_texts(self.stack_trace),
        }
    }
}

impl View for ProcessEscape {
    type V = ProcessEscapeView;

    open spec fn view(&self) -> ProcessEscapeView {
        ProcessEscapeView { pid: self.pid, name: self.name@, cmdline: opt_text(self.cmdline) }
    }
}

impl View for AsyncTaskEscape {
    type V = AsyncTaskEscapeView;

    open spec fn view(&self) -> AsyncTaskEscapeView {
        AsyncTaskEscapeView {
            task_id: self.task_id@,
            task_type: self.task_type@,
            state: self.state@,
        }
    }
}

impl View for GoroutineEscape {
    type V = GoroutineEscapeView;

    open spec fn view(&self) -> GoroutineEscapeView {
        GoroutineEscapeView {
            goroutine_id: self.goroutine_id,
            state: self.state@,
            function: self.function@,
        }
    }
}

impl View for EscapeDetails {
    type V = EscapeDetailsView;

    open spec fn view(&self) -> EscapeDetailsView {
        EscapeDetailsView {
            threads: threads_of(self.threads@),
            processes: processes_of(self.processes@),
            async_tasks: tasks_of(self.async_tasks@),
            goroutines: goroutines_of(self.goroutines@),
            other: strings(self.other@),
        }
    }
}

impl View for ExecutionResult {
    type V = ExecutionResultView;

    open spec fn view(&self) -> ExecutionResultView {
        ExecutionResultView {
            input_data: self.input_data@,
            success: self.success,
            crashed: self.crashed,
            output: self.output@,
            error: self.error@,
            execution_time_ms: self.execution_time_ms,
            escape_detected: self.escape_detected,
            escape_details: self.escape_details@,
        }
    }
}

impl View for Vulnerability {
    type V = VulnerabilityView;

    open spec fn view(&self) -> VulnerabilityView {
        VulnerabilityView {
            input: self.input@,
            vulnerability_type: self.vulnerability_type@,
            severity: self.severity@,
            description: self.description@,
            escape_details: self.escape_details@,
        }
    }
}

impl View for SourceLocation {
    type V = SourceLocationView;

    open spec fn view(&self) -> SourceLocationView {
        SourceLocationView {
            file: self.file@,
            line: self.line,
            column: self.column,
            function: self.function@,
            code_snippet: opt_text(self.code_snippet),
        }
    }
}

impl View for StaticEscape {
    type V = StaticEscapeView;

    open spec fn view(&self) -> StaticEscapeView {
        StaticEscapeView {
            escape_type: self.escape_type,
            location: self.location@,
            variable_name: self.variable_name@,
            reason: self.reason@,
            confidence: self.confidence,
            data_flow: strings(self.data_flow@),
        }
    }
}

impl View for StaticAnalysisResult {
    type V = StaticAnalysisResultView;

    open spec fn view(&self) -> StaticAnalysisResultView {
        StaticAnalysisResultView {
            target: self.target@,
            source_file: self.source_file@,
            escapes: escapes_of(self.escapes@),
            analysis_time_ms: self.analysis_time_ms,
            warnings: strings(self.warnings@),
            summary: self.summary,
        }
    }
}

impl View for AnalyzeResponse {
    type V = AnalyzeResponseView;

    open spec fn view(&self) -> AnalyzeResponseView {
        AnalyzeResponseView {
            session_id: self.session_id@,
            language: self.language@,
            analyzer_version: self.analyzer_version@,
            analysis_mode: self.analysis_mode,
            results: results_of(self.results@),
            vulnerabilities: vulnerabilities_of(self.vulnerabilities@),
            summary: self.summary,
            static_analysis: match self.static_analysis {
                Some(s) => Some(s@),
                None => None,
            },
            error: opt_text(self.error),
        }
    }
}

impl View for AnalyzeRequest {
    type V = AnalyzeRequestView;

    open spec fn view(&self) -> AnalyzeRequestView {
        AnalyzeRequestView {
            session_id: self.session_id@,
            target: self.target@,
            inputs: strings(self.inputs@),
            repeat: self.repeat,
            timeout_ms: self.timeout_ms,
            options: self.options@.map_values(|p: (String, String)| (p.0@, p.1@)),
            analysis_mode: self.analysis_mode,
        }
    }
}

impl View for AnalyzerInfo {
    type V = AnalyzerInfoView;

    open spec fn view(&self) -> AnalyzerInfoView {
        AnalyzerInfoView {
            name: self.name@,
            language: self.language@,
            version: self.version@,
            supported_features: strings(self.supported_features@),
            executable_path: self.executable_path@,
        }
    }
}

/// The values of a list of threads.
pub open spec fn threads_of(v: Seq<ThreadEscape>) -> Seq<ThreadEscapeView> {
    v.map_values(|t: ThreadEscape| t@)
}

/// The values of a list of processes.
pub open spec fn processes_of(v: Seq<ProcessEscape>) -> Seq<ProcessEscapeView> {
    v.map_values(|t: ProcessEscape| t@)
}

/// The values of a list of tasks.
pub open spec fn tasks_of(v: Seq<AsyncTaskEscape>) -> Seq<AsyncTaskEscapeView> {
    v.map_values(|t: AsyncTaskEscape| t@)
}

/// The values of a list of goroutines.
pub open spec fn goroutines_of(v: Seq<GoroutineEscape>) -> Seq<GoroutineEscapeView> {
    v.map_values(|t: GoroutineEscape| t@)
}

/// The values of a list of escapes found in source text.
pub open spec fn escapes_of(v: Seq<StaticEscape>) -> Seq<StaticEscapeView> {
    v.map_values(|e: StaticEscape| e@)
}

/// The values of a list of results.
pub open spec fn results_of(v: Seq<ExecutionResult>) -> Seq<ExecutionResultView> {
    v.map_values(|e: ExecutionResult| e@)
}

/// The values of a list of vulnerabilities.
pub open spec fn vulnerabilities_of(v: Seq<Vulnerability>) -> Seq<VulnerabilityView> {
    v.map_values(|e: Vulnerability| e@)
}

impl EscapeDetailsView {
    /// No worker of any kind was left behind.
    pub open spec fn is_empty(self) -> bool {
        self.threads.len() == 0 && self.processes.len() == 0 && self.async_tasks.len() == 0
            && self.goroutines.len() == 0 && self.other.len() == 0
    }

    /// The parts of the one-line summary, one for each kind that is present.
    pub open spec fn summary_parts(self) -> Seq<Seq<char>> {
        count_part(self.threads.len(), " thread(s)"@) + count_part(
            self.processes.len(),
            " process(es)"@,
        ) + count_part(self.async_tasks.len(), " async task(s)"@) + count_part(
            self.goroutines.len(),
            " goroutine(s)"@,
        ) + count_part(self.other.len(), " other"@)
    }

    /// The one-line summary: the count of each kind that is present, the
    /// kinds parted by a comma and a space.
    pub open spec fn summary(self) -> Seq<char> {
        joined(self.summary_parts(), ", "@)
    }
}

/// The summary part of a kind of which `n` are present: none for zero.
pub open spec fn count_part(n: nat, label: Seq<char>) -> Seq<Seq<char>> {
    if n == 0 {
        seq![]
    } else {
        seq![decimal(n) + label]
    }
}

fn push_count_part(parts: &mut Vec<String>, n: usize, label: &str)
    ensures
        strings(final(parts)@) == strings(old(parts)@) + count_part(n as nat, label@),
{
    if n > 0 {
        let mut buf: Vec<char> = Vec::new();
        push_decimal(&mut buf, n as u64);
        let lv = chars_of(label);
        push_chars(&mut buf, &lv);
        let s = string_of(&buf);
        assert(s@ =~= decimal(n as nat) + label@);
        proof {
            crate::text::split::lemma_strings_push(parts@, s);
        }
        parts.push(s);
        assert(strings(parts@) =~= strings(old(parts)@) + count_part(n as nat, label@));
    } else {
        assert(strings(parts@) =~= strings(old(parts)@) + count_part(n as nat, label@));
    }
}

impl EscapeDetails {
    /// Details that hold no worker.
    pub fn empty() -> (r: Self)
        ensures
            r@.is_empty(),
    {
        EscapeDetails {
            threads: Vec::new(),
            processes: Vec::new(),
            async_tasks: Vec::new(),
            goroutines: Vec::new(),
            other: Vec::new(),
        }
    }

    /// Whether no worker of any kind was left behind.
    pub fn is_empty(&self) -> (r: bool)
        ensures
            r == self@.is_empty(),
    {
        self.threads.len() == 0 && self.processes.len() == 0 && self.async_tasks.len() == 0
            && self.goroutines.len() == 0 && self.other.len() == 0
    }

    /// The one-line summary of the workers left behind.
    pub fn summary(&self) -> (r: String)
        ensures
            r@ == self@.summary(),
    {
        let mut parts: Vec<String> = Vec::new();
        assert(strings(parts@) =~= Seq::<Seq<char>>::empty());
        push_count_part(&mut parts, self.threads.len(), " thread(s)");
        push_count_part(&mut parts, self.processes.len(), " process(es)");
        push_count_part(&mut parts, self.async_tasks.len(), " async task(s)");
        push_count_part(&mut parts, self.goroutines.len(), " goroutine(s)");
        push_count_part(&mut parts, self.other.len(), " other");
        assert(strings(parts@) =~= self@.summary_parts());
        crate::text::compose::join(&parts, ", ")
    }
}

/// How many of the first `n` escapes are of kind `k`.
pub open spec fn kind_count_first(escapes: Seq<StaticEscapeView>, k: EscapeType, n: int) -> int
    decreases n,
{
    if n <= 0 || n > escapes.len() {
        0
    } else if escapes[n - 1].escape_type == k {
        kind_count_first(escapes, k, n - 1) + 1
    } else {
        kind_count_first(escapes, k, n - 1)
    }
}

/// How many of the escapes are of kind `k`.
pub open spec fn kind_count(escapes: Seq<StaticEscapeView>, k: EscapeType) -> int {
    kind_count_first(escapes, k, escapes.len() as int)
}

/// How many of the first `n` escapes carry the confidence `c`.
pub open spec fn confidence_count_first(
    escapes: Seq<StaticEscapeView>,
    c: ConfidenceLevel,
    n: int,
) -> int
    decreases n,
{
    if n <= 0 || n > escapes.len() {
        0
    } else if escapes[n - 1].confidence == c {
        confidence_count_first(escapes, c, n - 1) + 1
    } else {
        confidence_count_first(escapes, c, n - 1)
    }
}

/// How many of the escapes carry the confidence `c`.
pub open spec fn confidence_count(escapes: Seq<StaticEscapeView>, c: ConfidenceLevel) -> int {
    confidence_count_first(escapes, c, escapes.len() as int)
}

/// `n`, or its successor where `b` holds.
pub open spec fn bumped(n: usize, b: bool) -> usize {
    if b {
        (n + 1) as usize
    } else {
        n
    }
}

impl StaticEscapeSummary {
    /// Every counter is the count of its kind or confidence among the first
    /// `n` of `escapes`.
    pub open spec fn counts_first(self, escapes: Seq<StaticEscapeView>, n: int) -> bool {
        &&& self.total_escapes == n
        &&& self.return_escapes == kind_count_first(escapes, EscapeType::ReturnEscape, n)
        &&& self.parameter_escapes == kind_count_first(escapes, EscapeType::ParameterEscape, n)
        &&& self.global_escapes == kind_count_first(escapes, EscapeType::GlobalEscape, n)
        &&& self.closure_escapes == kind_count_first(escapes, EscapeType::ClosureEscape, n)
        &&& self.heap_escapes == kind_count_first(escapes, EscapeType::HeapEscape, n)
        &&& self.concurrency_escapes == kind_count_first(
            escapes,
            EscapeType::ConcurrencyEscape,
            n,
        )
        &&& self.high_confidence == confidence_count_first(escapes, ConfidenceLevel::High, n)
        &&& self.medium_confidence == confidence_count_first(escapes, ConfidenceLevel::Medium, n)
        &&& self.low_confidence == confidence_count_first(escapes, ConfidenceLevel::Low, n)
    }

    /// The summary is the tally of `escapes`: each escape is counted once in
    /// the total, once under its confidence, and once under its kind unless
    /// that is unknown.
    pub open spec fn counts(self, escapes: Seq<StaticEscapeView>) -> bool {
        self.counts_first(escapes, escapes.len() as int)
    }

    /// The counters agree with one another: those by confidence add up to the
    /// total, and those by kind to no more.
    pub open spec fn consistent(self) -> bool {
        &&& self.high_confidence + self.medium_confidence + self.low_confidence
            == self.total_escapes
        &&& self.return_escapes + self.parameter_escapes + self.global_escapes
            + self.closure_escapes + self.heap_escapes + self.concurrency_escapes
            <= self.total_escapes
    }

    /// The summary after one more escape of the given kind and confidence.
    pub open spec fn with(self, kind: EscapeType, confidence: ConfidenceLevel) -> Self {
        StaticEscapeSummary {
            total_escapes: (self.total_escapes + 1) as usize,
            return_escapes: bumped(self.return_escapes, kind == EscapeType::ReturnEscape),
            parameter_escapes: bumped(
                self.parameter_escapes,
                kind == EscapeType::ParameterEscape,
            ),
            global_escapes: bumped(self.global_escapes, kind == EscapeType::GlobalEscape),
            closure_escapes: bumped(self.closure_escapes, kind == EscapeType::ClosureEscape),
            heap_escapes: bumped(self.heap_escapes, kind == EscapeType::HeapEscape),
            concurrency_escapes: bumped(
                self.concurrency_escapes,
                kind == EscapeType::ConcurrencyEscape,
            ),
            high_confidence: bumped(self.high_confidence, confidence == ConfidenceLevel::High),
            medium_confidence: bumped(
                self.medium_confidence,
                confidence == ConfidenceLevel::Medium,
            ),
            low_confidence: bumped(self.low_confidence, confidence == ConfidenceLevel::Low),
        }
    }

    /// The summary of no escapes.
    pub fn new() -> (r: Self)
        ensures
            r.counts(Seq::<StaticEscapeView>::empty()),
            r.consistent(),
            r.total_escapes == 0,
    {
        StaticEscapeSummary {
            total_escapes: 0,
            return_escapes: 0,
            parameter_escapes: 0,
            global_escapes: 0,
            closure_escapes: 0,
            heap_escapes: 0,
            concurrency_escapes: 0,
            high_confidence: 0,
            medium_confidence: 0,
            low_confidence: 0,
        }
    }

    /// Counts one more escape.
    pub fn add_escape(&mut self, escape: &StaticEscape)
        requires
            old(self).consistent(),
            old(self).total_escapes < usize::MAX,
        ensures
            *final(self) == old(self).with(escape.escape_type, escape.confidence),
            final(self).consistent(),
            final(self).total_escapes == old(self).total_escapes + 1,
    {
        self.total_escapes += 1;
        match escape.escape_type {
            EscapeType::ReturnEscape => self.return_escapes += 1,
            EscapeType::ParameterEscape => self.parameter_escapes += 1,
            EscapeType::GlobalEscape => self.global_escapes += 1,
            EscapeType::ClosureEscape => self.closure_escapes += 1,
            EscapeType::HeapEscape => self.heap_escapes += 1,
            EscapeType::ConcurrencyEscape => self.concurrency_escapes += 1,
            EscapeType::UnknownEscape => {},
        }
        match escape.confidence {
            ConfidenceLevel::High => self.high_confidence += 1,
            ConfidenceLevel::Medium => self.medium_confidence += 1,
            ConfidenceLevel::Low => self.low_confidence += 1,
        }
    }

    /// The tally of `escapes`.
    pub fn of(escapes: &Vec<StaticEscape>) -> (r: Self)
        ensures
            r.counts(escapes_of(escapes@)),
            r.consistent(),
    {
        let mut summary = StaticEscapeSummary::new();
        let mut i: usize = 0;
        let ghost es = escapes_of(escapes@);
        while i < escapes.len()
            invariant
                i <= escapes.len(),
                es == escapes_of(escapes@),
                summary.counts_first(es, i as int),
                summary.consistent(),
            decreases escapes.len() - i,
        {
            proof {
                lemma_count_bounds(es, i as int + 1);
                assert(es[i as int] == escapes@[i as int]@);
            }
            summary.add_escape(&escapes[i]);
            i += 1;
        }
        summary
    }
}

proof fn lemma_kind_count_bounds(escapes: Seq<StaticEscapeView>, k: EscapeType, n: int)
    requires
        0 <= n <= escapes.len(),
    ensures
        0 <= kind_count_first(escapes, k, n) <= n,
    decreases n,
{
    if n > 0 {
        lemma_kind_count_bounds(escapes, k, n - 1);
    }
}

proof fn lemma_confidence_count_bounds(
    escapes: Seq<StaticEscapeView>,
    c: ConfidenceLevel,
    n: int,
)
    requires
        0 <= n <= escapes.len(),
    ensures
        0 <= confidence_count_first(escapes, c, n) <= n,
    decreases n,
{
    if n > 0 {
        lemma_confidence_count_bounds(escapes, c, n - 1);
    }
}

/// No count exceeds the number of escapes counted over.
pub proof fn lemma_count_bounds(escapes: Seq<StaticEscapeView>, n: int)
    requires
        0 <= n <= escapes.len(),
    ensures
        forall|k: EscapeType| 0 <= #[trigger] kind_count_first(escapes, k, n) <= n,
        forall|c: ConfidenceLevel| 0 <= #[trigger] confidence_count_first(escapes, c, n) <= n,
{
    assert forall|k: EscapeType| 0 <= #[trigger] kind_count_first(escapes, k, n) <= n by {
        lemma_kind_count_bounds(escapes, k, n);
    }
    assert forall|c: ConfidenceLevel| 0 <= #[trigger] confidence_count_first(escapes, c, n)
        <= n by {
        lemma_confidence_count_bounds(escapes, c, n);
    }
}

/// Among the first `n` escapes, the counts by confidence add up to `n`, and
/// the counts by kind to `n` less the number of escapes of unknown kind.
pub proof fn lemma_counts_add_up(escapes: Seq<StaticEscapeView>, n: int)
    requires
        0 <= n <= escapes.len(),
    ensures
        confidence_count_first(escapes, ConfidenceLevel::High, n) + confidence_count_first(
            escapes,
            ConfidenceLevel::Medium,
            n,
        ) + confidence_count_first(escapes, ConfidenceLevel::Low, n) == n,
        kind_count_first(escapes, EscapeType::ReturnEscape, n) + kind_count_first(
            escapes,
            EscapeType::ParameterEscape,
            n,
        ) + kind_count_first(escapes, EscapeType::GlobalEscape, n) + kind_count_first(
            escapes,
            EscapeType::ClosureEscape,
            n,
        ) + kind_count_first(escapes, EscapeType::HeapEscape, n) + kind_count_first(
            escapes,
            EscapeType::ConcurrencyEscape,
            n,
        ) == n - kind_count_first(escapes, EscapeType::UnknownEscape, n),
    decreases n,
{
    if n > 0 {
        lemma_counts_add_up(escapes, n - 1);
    }
}

/// In the tally of any list of escapes, the counts by confidence add up to
/// the total, and the counts by kind add up to the total less the number of
/// escapes of unknown kind.
pub proof fn lemma_summary_sums(summary: StaticEscapeSummary, escapes: Seq<StaticEscapeView>)
    requires
        summary.counts(escapes),
    ensures
        summary.high_confidence + summary.medium_confidence + summary.low_confidence
            == summary.total_escapes,
        summary.return_escapes + summary.parameter_escapes + summary.global_escapes
            + summary.closure_escapes + summary.heap_escapes + summary.concurrency_escapes
            == summary.total_escapes - kind_count(escapes, EscapeType::UnknownEscape),
        summary.total_escapes == escapes.len(),
{
    lemma_counts_add_up(escapes, escapes.len() as int);
}

/// Pushing onto a vector of escapes pushes onto their values.
pub proof fn lemma_escapes_push(v: Seq<StaticEscape>, e: StaticEscape)
    ensures
        escapes_of(v.push(e)) == escapes_of(v).push(e@),
{
    assert(escapes_of(v.push(e)) =~= escapes_of(v).push(e@));
}

/// Pushing onto a vector of results pushes onto their values.
pub proof fn lemma_results_push(v: Seq<ExecutionResult>, e: ExecutionResult)
    ensures
        results_of(v.push(e)) == results_of(v).push(e@),
{
    assert(results_of(v.push(e)) =~= results_of(v).push(e@));
}

/// Pushing onto a vector of vulnerabilities pushes onto their values.
pub proof fn lemma_vulnerabilities_push(v: Seq<Vulnerability>, e: Vulnerability)
    ensures
        vulnerabilities_of(v.push(e)) == vulnerabilities_of(v).push(e@),
{
    assert(vulnerabilities_of(v.push(e)) =~= vulnerabilities_of(v).push(e@));
}

/// A copy of an optional string.
pub fn copy_opt_string(o: &Option<String>) -> (r: Option<String>)
    ensures
        opt_text(r) == opt_text(*o),
{
    match o {
        Some(s) => Some(s.clone()),
        None => None,
    }
}

impl ThreadEscape {
    /// A copy of the thread.
    pub fn duplicate(&self) -> (r: Self)
        ensures
            r@ == self@,
    {
        ThreadEscape {
            thread_id: self.thread_id.clone(),
            name: self.name.clone(),
            is_daemon: self.is_daemon,
            state: self.state.clone(),
            stack_trace: match &self.stack_trace {
                Some(v) => Some(copy_strings(v)),
                None => None,
            },
        }
    }
}

impl ProcessEscape {
    /// A copy of the process.
    pub fn duplicate(&self) -> (r: Self)
        ensures
            r@ == self@,
    {
        ProcessEscape {
            pid: self.pid,
            name: self.name.clone(),
            cmdline: copy_opt_string(&self.cmdline),
        }
    }
}

impl AsyncTaskEscape {
    /// A copy of the task.
    pub fn duplicate(&self) -> (r: Self)
        ensures
            r@ == self@,
    {
        AsyncTaskEscape {
            task_id: self.task_id.clone(),
            task_type: self.task_type.clone(),
            state: self.state.clone(),
        }
    }
}

impl GoroutineEscape {
    /// A copy of the goroutine.
    pub fn duplicate(&self) -> (r: Self)
        ensures
            r@ == self@,
    {
        GoroutineEscape {
            goroutine_id: self.goroutine_id,
            state: self.state.clone(),
            function: self.function.clone(),
        }
    }
}

impl EscapeDetails {
    /// A copy of the details.
    pub fn duplicate(&self) -> (r: Self)
        ensures
            r@ == self@,
    {
        let mut threads: Vec<ThreadEscape> = Vec::new();
        let mut i: usize = 0;
        while i < self.threads.len()
            invariant
                i <= self.threads.len(),
                threads_of(threads@) == threads_of(self.threads@).take(i as int),
            decreases self.threads.len() - i,
        {
            let t = self.threads[i].duplicate();
            assert(threads_of(threads@.push(t)) =~= threads_of(threads@).push(t@));
            assert(threads_of(self.threads@).take(i + 1) =~= threads_of(self.threads@).take(i as int).push(
                self.threads@[i as int]@,
            ));
            threads.push(t);
            i += 1;
        }
        assert(threads_of(self.threads@).take(self.threads.len() as int) =~= threads_of(self.threads@));
        let mut processes: Vec<ProcessEscape> = Vec::new();
        let mut i: usize = 0;
        while i < self.processes.len()
            invariant
                i <= self.processes.len(),
                processes_of(processes@) == processes_of(self.processes@).take(i as int),
            decreases self.processes.len() - i,
        {
            let t = self.processes[i].duplicate();
            assert(processes_of(processes@.push(t)) =~= processes_of(processes@).push(t@));
            assert(processes_of(self.processes@).take(i + 1) =~= processes_of(self.processes@).take(i as int).push(
                self.processes@[i as int]@,
            ));
            processes.push(t);
            i += 1;
        }
        assert(processes_of(self.processes@).take(self.processes.len() as int) =~= processes_of(self.processes@));
        let mut async_tasks: Vec<AsyncTaskEscape> = Vec::new();
        let mut i: usize = 0;
        while i < self.async_tasks.len()
            invariant
                i <= self.async_tasks.len(),
                tasks_of(async_tasks@) == tasks_of(self.async_tasks@).take(i as int),
            decreases self.async_tasks.len() - i,
        {
            let t = self.async_tasks[i].duplicate();
            assert(tasks_of(async_tasks@.push(t)) =~= tasks_of(async_tasks@).push(t@));
            assert(tasks_of(self.async_tasks@).take(i + 1) =~= tasks_of(self.async_tasks@).take(i as int).push(
                self.async_tasks@[i as int]@,
            ));
            async_tasks.push(t);
            i += 1;
        }
        assert(tasks_of(self.async_tasks@).take(self.async_tasks.len() as int) =~= tasks_of(self.async_tasks@));
        let mut goroutines: Vec<GoroutineEscape> = Vec::new();
        let mut i: usize = 0;
        while i < self.goroutines.len()
            invariant
                i <= self.goroutines.len(),
                goroutines_of(goroutines@) == goroutines_of(self.goroutines@).take(i as int),
            decreases self.goroutines.len() - i,
        {
            let t = self.goroutines[i].duplicate();
            assert(goroutines_of(goroutines@.push(t)) =~= goroutines_of(goroutines@).push(t@));
            assert(goroutines_of(self.goroutines@).take(i + 1) =~= goroutines_of(self.goroutines@).take(i as int).push(
                self.goroutines@[i as int]@,
            ));
            goroutines.push(t);
            i += 1;
        }
        assert(goroutines_of(self.goroutines@).take(self.goroutines.len() as int) =~= goroutines_of(self.goroutines@));
        let other = copy_strings(&self.other);
        EscapeDetails { threads, processes, async_tasks, goroutines, other }
    }
}

impl AnalyzerInfo {
    /// A copy of the information.
    pub fn duplicate(&self) -> (r: Self)
        ensures
            r@ == self@,
    {
        AnalyzerInfo {
            name: self.name.clone(),
            language: self.language.clone(),
            version: self.version.clone(),
            supported_features: copy_strings(&self.supported_features),
            executable_path: self.executable_path.clone(),
        }
    }
}

} // verus!
