//! The supervised run of a target: what one run amounts to, given its
//! outcome and the workers seen before and after it, and the tally that a
//! probe keeps over the runs of a session.

use vstd::prelude::*;
use crate::protocol::{
    lemma_results_push, lemma_vulnerabilities_push, results_of, threads_of,
    vulnerabilities_of, AnalysisMode, AnalyzeRequest, AnalyzeResponse, EscapeDetails,
    EscapeDetailsView, ExecutionResult, ExecutionResultView, ExecutionSummary, ThreadEscape,
    ThreadEscapeView, Vulnerability, VulnerabilityView,
};
use crate::text::chars::string_of;
use crate::text::compose::{decimal, decimal_string, push_decimal};
use crate::text::names::{concat2, concat3, copy_strings};
use crate::text::split::strings;

verus! {

/// The time, in milliseconds, that a probe waits after a run before it
/// looks for the workers left behind. A request cannot change it.
pub const SETTLE_GRACE_MS: u64 = 100;

/// How the run of a target ended.
#[derive(Debug, Clone)]
pub enum Outcome {
    /// The target returned, with this value.
    Completed(String),
    /// The target failed, with this message.
    Faulted(String),
    /// The target did not end in the time allowed.
    TimedOut,
}

/// The value of an `Outcome`.
pub enum OutcomeView {
    Completed(Seq<char>),
    Faulted(Seq<char>),
    TimedOut,
}

impl View for Outcome {
    type V = OutcomeView;

    open spec fn view(&self) -> OutcomeView {
        match self {
            Outcome::Completed(v) => OutcomeView::Completed(v@),
            Outcome::Faulted(m) => OutcomeView::Faulted(m@),
            Outcome::TimedOut => OutcomeView::TimedOut,
        }
    }
}

/// The workers among the first `n` of `current` that are not in
/// `baseline`, each once, in the order in which they first occur.
pub open spec fn new_ids_first(baseline: Seq<u32>, current: Seq<u32>, n: int) -> Seq<u32>
    decreases n,
{
    if n <= 0 {
        Seq::<u32>::empty()
    } else {
        let prev = new_ids_first(baseline, current, n - 1);
        if baseline.contains(current[n - 1]) || prev.contains(current[n - 1]) {
            prev
        } else {
            prev.push(current[n - 1])
        }
    }
}

/// The workers of `current` that are not in `baseline`, each once.
pub open spec fn new_ids(baseline: Seq<u32>, current: Seq<u32>) -> Seq<u32> {
    new_ids_first(baseline, current, current.len() as int)
}

/// `x` is among the first `n` of `current`.
pub open spec fn seen_in(current: Seq<u32>, n: int, x: u32) -> bool {
    exists|j: int| 0 <= j < n && #[trigger] current[j] == x
}

/// The new workers are those seen after and not before, and none is listed
/// twice.
pub proof fn lemma_new_ids(baseline: Seq<u32>, current: Seq<u32>, n: int)
    requires
        0 <= n <= current.len(),
    ensures
        new_ids_first(baseline, current, n).no_duplicates(),
        forall|x: u32| #[trigger]
            new_ids_first(baseline, current, n).contains(x) <==> (seen_in(current, n, x)
                && !baseline.contains(x)),
    decreases n,
{
    if n > 0 {
        lemma_new_ids(baseline, current, n - 1);
        let prev = new_ids_first(baseline, current, n - 1);
        let now = new_ids_first(baseline, current, n);
        let c = current[n - 1];
        assert forall|x: u32| #[trigger]
            now.contains(x) <==> (seen_in(current, n, x) && !baseline.contains(x)) by {
            if now.contains(x) {
                if prev.contains(x) {
                    let j = choose|j: int| 0 <= j < n - 1 && #[trigger] current[j] == x;
                    assert(0 <= j < n && current[j] == x);
                } else {
                    let i = choose|i: int| 0 <= i < now.len() && now[i] == x;
                    if i < prev.len() {
                        assert(prev[i] == x);
                    }
                    assert(current[n - 1] == x);
                }
            }
            if seen_in(current, n, x) && !baseline.contains(x) {
                let j = choose|j: int| 0 <= j < n && #[trigger] current[j] == x;
                if j < n - 1 {
                    assert(seen_in(current, n - 1, x));
                }
                if prev.contains(x) {
                    let i = choose|i: int| 0 <= i < prev.len() && prev[i] == x;
                    assert(now[i] == x);
                } else {
                    assert(now[prev.len() as int] == c);
                }
            }
        }
        assert forall|i: int, j: int|
            0 <= i < now.len() && 0 <= j < now.len() && i != j implies now[i] != now[j] by {
            if now.len() > prev.len() {
                if i == prev.len() {
                    assert(prev[j] == now[j]);
                    if now[i] == now[j] {
                        assert(prev.contains(c));
                    }
                } else if j == prev.len() {
                    assert(prev[i] == now[i]);
                    if now[i] == now[j] {
                        assert(prev.contains(c));
                    }
                }
            }
        }
    }
}

/// The record of a thread known by its number alone.
pub open spec fn thread_view(id: u32) -> ThreadEscapeView {
    ThreadEscapeView {
        thread_id: decimal(id as nat),
        name: "thread_"@ + decimal(id as nat),
        is_daemon: false,
        state: "unknown"@,
        stack_trace: None,
    }
}

/// The details that hold the threads `ids` and nothing else.
pub open spec fn thread_details_of(ids: Seq<u32>) -> EscapeDetailsView {
    EscapeDetailsView {
        threads: ids.map_values(|id: u32| thread_view(id)),
        processes: Seq::empty(),
        async_tasks: Seq::empty(),
        goroutines: Seq::empty(),
        other: Seq::empty(),
    }
}

/// What a run amounts to: it succeeded where it completed, and crashed
/// where it faulted or timed out; an escape was detected where a worker was
/// left behind.
pub open spec fn classified(
    input: Seq<char>,
    outcome: OutcomeView,
    elapsed_ms: u64,
    details: EscapeDetailsView,
) -> ExecutionResultView {
    ExecutionResultView {
        input_data: input,
        success: outcome is Completed,
        crashed: !(outcome is Completed),
        output: match outcome {
            OutcomeView::Completed(v) => v,
            _ => Seq::<char>::empty(),
        },
        error: match outcome {
            OutcomeView::Completed(_) => Seq::<char>::empty(),
            OutcomeView::Faulted(m) => "Panic: "@ + m,
            OutcomeView::TimedOut => "Timeout exceeded"@,
        },
        execution_time_ms: elapsed_ms,
        escape_detected: !details.is_empty(),
        escape_details: details,
    }
}

/// The workers of `current` that are not in `baseline`, each once.
pub fn escaped_threads(baseline: &Vec<u32>, current: &Vec<u32>) -> (r: Vec<u32>)
    ensures
        r@ == new_ids(baseline@, current@),
        r@.no_duplicates(),
        forall|x: u32| #[trigger] r@.contains(x) <==> (current@.contains(x) && !baseline@.contains(x)),
{
    let mut out: Vec<u32> = Vec::new();
    let mut i: usize = 0;
    while i < current.len()
        invariant
            i <= current.len(),
            out@ == new_ids_first(baseline@, current@, i as int),
        decreases current.len() - i,
    {
        let c = current[i];
        if !holds(baseline, c) && !holds(&out, c) {
            out.push(c);
        }
        i += 1;
    }
    proof {
        lemma_new_ids(baseline@, current@, current@.len() as int);
        assert forall|x: u32| #[trigger]
            out@.contains(x) <==> (current@.contains(x) && !baseline@.contains(x)) by {
            if current@.contains(x) {
                let j = choose|j: int| 0 <= j < current@.len() && current@[j] == x;
                assert(seen_in(current@, current@.len() as int, x));
            }
        }
    }
    out
}

fn holds(v: &Vec<u32>, x: u32) -> (r: bool)
    ensures
        r == v@.contains(x),
{
    let mut i: usize = 0;
    while i < v.len()
        invariant
            i <= v.len(),
            forall|j: int| 0 <= j < i ==> v@[j] != x,
        decreases v.len() - i,
    {
        if v[i] == x {
            return true;
        }
        i += 1;
    }
    false
}

/// The record of a thread known by its number alone.
pub fn thread_escape(id: u32) -> (r: ThreadEscape)
    ensures
        r@ == thread_view(id),
{
    let mut digits: Vec<char> = Vec::new();
    push_decimal(&mut digits, id as u64);
    assert(digits@ =~= decimal(id as nat));
    let thread_id = string_of(&digits);
    let name = concat2("thread_", thread_id.as_str());
    ThreadEscape {
        thread_id,
        name,
        is_daemon: false,
        state: String::from_str("unknown"),
        stack_trace: None,
    }
}

/// The details of a run in which the threads `baseline` were seen before
/// and the threads `current` after.
pub fn thread_details(baseline: &Vec<u32>, current: &Vec<u32>) -> (r: EscapeDetails)
    ensures
        r@ == thread_details_of(new_ids(baseline@, current@)),
        r@.is_empty() <==> forall|x: u32| current@.contains(x) ==> baseline@.contains(x),
{
    let ids = escaped_threads(baseline, current);
    let mut threads: Vec<ThreadEscape> = Vec::new();
    let mut i: usize = 0;
    while i < ids.len()
        invariant
            i <= ids.len(),
            threads_of(threads@) == ids@.map_values(|id: u32| thread_view(id)).take(i as int),
        decreases ids.len() - i,
    {
        let t = thread_escape(ids[i]);
        assert(threads_of(threads@.push(t)) =~= threads_of(threads@).push(t@));
        assert(ids@.map_values(|id: u32| thread_view(id)).take(i + 1) =~= ids@.map_values(
            |id: u32| thread_view(id),
        ).take(i as int).push(thread_view(ids@[i as int])));
        threads.push(t);
        i += 1;
    }
    assert(ids@.map_values(|id: u32| thread_view(id)).take(ids.len() as int) =~= ids@.map_values(
        |id: u32| thread_view(id),
    ));
    let r = EscapeDetails {
        threads,
        processes: Vec::new(),
        async_tasks: Vec::new(),
        goroutines: Vec::new(),
        other: Vec::new(),
    };
    proof {
        assert(r@.processes =~= Seq::empty());
        assert(r@.async_tasks =~= Seq::empty());
        assert(r@.goroutines =~= Seq::empty());
        assert(r@.other =~= Seq::empty());
        if ids@.len() > 0 {
            assert(ids@.contains(ids@[0]));
        }
        if r@.is_empty() {
            assert forall|x: u32| current@.contains(x) implies baseline@.contains(x) by {
                if !baseline@.contains(x) {
                    assert(ids@.contains(x));
                }
            }
        }
    }
    r
}

/// The details of a run for which only the number of threads before and
/// after is known: a note where the number grew, and nothing else.
pub open spec fn count_details_of(baseline: nat, current: nat) -> EscapeDetailsView {
    EscapeDetailsView {
        threads: Seq::empty(),
        processes: Seq::empty(),
        async_tasks: Seq::empty(),
        goroutines: Seq::empty(),
        other: if current > baseline {
            seq!["Thread count increased: "@ + decimal(baseline) + " -> "@ + decimal(current)]
        } else {
            Seq::empty()
        },
    }
}

/// The details of a run for which only the number of threads before and
/// after is known.
pub fn count_details(baseline: usize, current: usize) -> (r: EscapeDetails)
    ensures
        r@ == count_details_of(baseline as nat, current as nat),
        r@.is_empty() <==> current <= baseline,
{
    let mut r = EscapeDetails::empty();
    assert(r@.threads =~= Seq::empty());
    assert(r@.processes =~= Seq::empty());
    assert(r@.async_tasks =~= Seq::empty());
    assert(r@.goroutines =~= Seq::empty());
    assert(r@.other =~= Seq::empty());
    if current > baseline {
        let before = decimal_string(baseline as u64);
        let after = decimal_string(current as u64);
        let head = concat2("Thread count increased: ", before.as_str());
        let note = concat3(head.as_str(), " -> ", after.as_str());
        assert(note@ =~= "Thread count increased: "@ + decimal(baseline as nat) + " -> "@
            + decimal(current as nat));
        proof {
            crate::text::split::lemma_strings_push(r.other@, note);
        }
        r.other.push(note);
        assert(r@.other =~= seq![note@]);
    }
    r
}

/// What a run on `input` amounts to.
pub fn classify(input: &str, outcome: Outcome, elapsed_ms: u64, details: EscapeDetails) -> (r:
    ExecutionResult)
    ensures
        r@ == classified(input@, outcome@, elapsed_ms, details@),
        r.success != r.crashed,
        r.escape_detected == !r@.escape_details.is_empty(),
{
    let escape_detected = !details.is_empty();
    match outcome {
        Outcome::Completed(value) => ExecutionResult {
            input_data: String::from_str(input),
            success: true,
            crashed: false,
            output: value,
            error: String::new(),
            execution_time_ms: elapsed_ms,
            escape_detected,
            escape_details: details,
        },
        Outcome::Faulted(message) => ExecutionResult {
            input_data: String::from_str(input),
            success: false,
            crashed: true,
            output: String::new(),
            error: concat2("Panic: ", message.as_str()),
            execution_time_ms: elapsed_ms,
            escape_detected,
            escape_details: details,
        },
        Outcome::TimedOut => ExecutionResult {
            input_data: String::from_str(input),
            success: false,
            crashed: true,
            output: String::new(),
            error: String::from_str("Timeout exceeded"),
            execution_time_ms: elapsed_ms,
            escape_detected,
            escape_details: details,
        },
    }
}

/// The counts over the runs of a session.
pub struct Tally {
    pub successes: int,
    pub crashes: int,
    pub timeouts: int,
    pub escapes: int,
    pub genuine_escapes: int,
}

/// One if `b` holds, zero if not.
pub open spec fn one_if(b: bool) -> int {
    if b {
        1
    } else {
        0
    }
}

/// The counts over the first `n` runs. A run counts as a genuine escape
/// where an escape was detected and the run did not time out.
pub open spec fn tally_first(rs: Seq<ExecutionResultView>, timed_out: Seq<bool>, n: int) -> Tally
    decreases n,
{
    if n <= 0 {
        Tally { successes: 0, crashes: 0, timeouts: 0, escapes: 0, genuine_escapes: 0 }
    } else {
        let prev = tally_first(rs, timed_out, n - 1);
        Tally {
            successes: prev.successes + one_if(rs[n - 1].success),
            crashes: prev.crashes + one_if(rs[n - 1].crashed),
            timeouts: prev.timeouts + one_if(timed_out[n - 1]),
            escapes: prev.escapes + one_if(rs[n - 1].escape_detected),
            genuine_escapes: prev.genuine_escapes + one_if(
                rs[n - 1].escape_detected && !timed_out[n - 1],
            ),
        }
    }
}

/// The finding that an escape detected in a run is reported as.
pub open spec fn finding_of(r: ExecutionResultView, description: Seq<char>) -> VulnerabilityView {
    VulnerabilityView {
        input: r.input_data,
        vulnerability_type: "concurrent_escape"@,
        severity: "high"@,
        description,
        escape_details: r.escape_details,
    }
}

/// The findings of the first `n` runs: one for each run in which an escape
/// was detected, in the order of the runs.
pub open spec fn findings_first(rs: Seq<ExecutionResultView>, description: Seq<char>, n: int)
    -> Seq<VulnerabilityView>
    decreases n,
{
    if n <= 0 {
        Seq::<VulnerabilityView>::empty()
    } else if rs[n - 1].escape_detected {
        findings_first(rs, description, n - 1).push(finding_of(rs[n - 1], description))
    } else {
        findings_first(rs, description, n - 1)
    }
}

/// The summary holds the counts over the runs `rs`.
pub open spec fn summarizes(summary: ExecutionSummary, rs: Seq<ExecutionResultView>, timed_out: Seq<
    bool,
>) -> bool {
    let t = tally_first(rs, timed_out, rs.len() as int);
    &&& summary.total_tests == rs.len()
    &&& summary.successes == t.successes
    &&& summary.crashes == t.crashes
    &&& summary.timeouts == t.timeouts
    &&& summary.escapes == t.escapes
    &&& summary.genuine_escapes == t.genuine_escapes
}

/// Every run either succeeded or crashed, and a run that timed out crashed.
pub open spec fn all_classified(rs: Seq<ExecutionResultView>, timed_out: Seq<bool>) -> bool {
    &&& timed_out.len() == rs.len()
    &&& forall|i: int|
        0 <= i < rs.len() ==> {
            &&& (#[trigger] rs[i]).success != rs[i].crashed
            &&& rs[i].escape_detected == !rs[i].escape_details.is_empty()
            &&& timed_out[i] ==> rs[i].crashed
        }
}

/// The runs were made in the order of the inputs, each input `repeat`
/// times before the next: the run at position `k` took the input at
/// position `k / repeat`.
pub open spec fn in_order(rs: Seq<ExecutionResultView>, inputs: Seq<Seq<char>>, repeat: int)
    -> bool {
    forall|k: int|
        0 <= k < rs.len() ==> (#[trigger] rs[k]).input_data == inputs[k / repeat]
}

/// No count exceeds the number of runs, and the genuine escapes are among
/// the escapes. Where every run either succeeded or crashed, successes and
/// crashes add up to the number of runs, and the timeouts are among the
/// crashes.
pub proof fn lemma_tally_bounds(rs: Seq<ExecutionResultView>, timed_out: Seq<bool>, n: int)
    requires
        0 <= n <= rs.len(),
    ensures
        0 <= tally_first(rs, timed_out, n).successes <= n,
        0 <= tally_first(rs, timed_out, n).crashes <= n,
        0 <= tally_first(rs, timed_out, n).timeouts <= n,
        0 <= tally_first(rs, timed_out, n).genuine_escapes <= tally_first(
            rs,
            timed_out,
            n,
        ).escapes <= n,
        all_classified(rs, timed_out) ==> tally_first(rs, timed_out, n).successes + tally_first(
            rs,
            timed_out,
            n,
        ).crashes == n && tally_first(rs, timed_out, n).timeouts <= tally_first(
            rs,
            timed_out,
            n,
        ).crashes,
    decreases n,
{
    if n > 0 {
        lemma_tally_bounds(rs, timed_out, n - 1);
        if all_classified(rs, timed_out) {
            assert(rs[n - 1].success != rs[n - 1].crashed);
        }
    }
}

/// There are as many findings as there are runs with an escape detected.
pub proof fn lemma_findings_count(
    rs: Seq<ExecutionResultView>,
    timed_out: Seq<bool>,
    description: Seq<char>,
    n: int,
)
    requires
        0 <= n <= rs.len(),
    ensures
        findings_first(rs, description, n).len() == tally_first(rs, timed_out, n).escapes,
    decreases n,
{
    if n > 0 {
        lemma_findings_count(rs, timed_out, description, n - 1);
    }
}

/// The counts and findings over the first `n` runs do not depend on the
/// runs that follow.
pub proof fn lemma_prefix(
    rs: Seq<ExecutionResultView>,
    timed_out: Seq<bool>,
    r: ExecutionResultView,
    t: bool,
    description: Seq<char>,
    n: int,
)
    requires
        0 <= n <= rs.len(),
        timed_out.len() == rs.len(),
    ensures
        tally_first(rs.push(r), timed_out.push(t), n) == tally_first(rs, timed_out, n),
        findings_first(rs.push(r), description, n) == findings_first(rs, description, n),
    decreases n,
{
    if n > 0 {
        lemma_prefix(rs, timed_out, r, t, description, n - 1);
    }
}

/// The state of a probe in the course of a session: the runs made so far,
/// in the order of the inputs, each input repeated before the next is
/// taken, and the counts over them.
pub struct ProbeSession {
    pub session_id: String,
    pub language: String,
    pub analyzer_version: String,
    pub analysis_mode: AnalysisMode,
    /// The words that describe an escape in a finding.
    pub description: String,
    pub inputs: Vec<String>,
    pub repeat: usize,
    /// The input that the next run takes.
    pub input_index: usize,
    /// How often that input was run already.
    pub repeat_index: usize,
    pub results: Vec<ExecutionResult>,
    pub vulnerabilities: Vec<Vulnerability>,
    pub summary: ExecutionSummary,
    /// For each run, whether it timed out.
    pub timed_out: Ghost<Seq<bool>>,
}

impl ProbeSession {
    /// Counts, findings and position agree with the runs made so far.
    pub open spec fn wf(&self) -> bool {
        &&& self.input_index <= self.inputs.len()
        &&& self.repeat_index < self.repeat || self.repeat_index == 0
        &&& self.input_index == self.inputs.len() ==> self.repeat_index == 0
        &&& self.results.len() == self.input_index * self.repeat + self.repeat_index
        &&& in_order(results_of(self.results@), strings(self.inputs@), self.repeat as int)
        &&& all_classified(results_of(self.results@), self.timed_out@)
        &&& summarizes(self.summary, results_of(self.results@), self.timed_out@)
        &&& vulnerabilities_of(self.vulnerabilities@) == findings_first(
            results_of(self.results@),
            self.description@,
            self.results.len() as int,
        )
    }

    /// Every input was run as often as asked.
    pub open spec fn complete(&self) -> bool {
        self.repeat == 0 || self.input_index == self.inputs.len()
    }

    /// The session for a request, before its first run.
    pub fn new(request: &AnalyzeRequest, language: &str, version: &str, description: &str) -> (r:
        Self)
        ensures
            r.wf(),
            r.results@.len() == 0,
            r.input_index == 0,
            r.repeat_index == 0,
            r.session_id@ == request.session_id@,
            r.language@ == language@,
            r.analyzer_version@ == version@,
            r.description@ == description@,
            r.analysis_mode == request.analysis_mode,
            strings(r.inputs@) == strings(request.inputs@),
            r.repeat == request.repeat,
    {
        let r = ProbeSession {
            session_id: request.session_id.clone(),
            language: String::from_str(language),
            analyzer_version: String::from_str(version),
            analysis_mode: request.analysis_mode,
            description: String::from_str(description),
            inputs: copy_strings(&request.inputs),
            repeat: request.repeat,
            input_index: 0,
            repeat_index: 0,
            results: Vec::new(),
            vulnerabilities: Vec::new(),
            summary: ExecutionSummary {
                total_tests: 0,
                successes: 0,
                crashes: 0,
                timeouts: 0,
                escapes: 0,
                genuine_escapes: 0,
            },
            timed_out: Ghost(Seq::empty()),
        };
        proof {
            assert(strings(r.inputs@).len() == r.inputs@.len());
            assert(vulnerabilities_of(r.vulnerabilities@) =~= Seq::<VulnerabilityView>::empty());
            assert(0 * r.repeat == 0) by (nonlinear_arith);
        }
        r
    }

    /// Whether every input was run as often as asked.
    pub fn is_complete(&self) -> (r: bool)
        ensures
            r == self.complete(),
    {
        self.repeat == 0 || self.input_index == self.inputs.len()
    }

    /// The input of the next run, where one is left to make.
    pub fn next_input(&self) -> (r: Option<String>)
        requires
            self.wf(),
        ensures
            match r {
                Some(input) => !self.complete() && input@ == self.inputs@[self.input_index as int]@,
                None => self.complete(),
            },
    {
        if self.is_complete() {
            None
        } else {
            Some(self.inputs[self.input_index].clone())
        }
    }

    /// Takes in the run just made on the next input: its result joins the
    /// results, a finding joins the findings where an escape was detected,
    /// and the counts follow.
    pub fn record(&mut self, outcome: Outcome, elapsed_ms: u64, details: EscapeDetails)
        requires
            old(self).wf(),
            !old(self).complete(),
        ensures
            final(self).wf(),
            results_of(final(self).results@) == results_of(old(self).results@).push(
                classified(
                    old(self).inputs@[old(self).input_index as int]@,
                    outcome@,
                    elapsed_ms,
                    details@,
                ),
            ),
            final(self).timed_out@ == old(self).timed_out@.push(outcome is TimedOut),
            final(self).repeat_index == if old(self).repeat_index + 1 == old(self).repeat {
                0
            } else {
                old(self).repeat_index + 1
            },
            final(self).input_index == if old(self).repeat_index + 1 == old(self).repeat {
                old(self).input_index + 1
            } else {
                old(self).input_index as int
            },
            final(self).inputs == old(self).inputs,
            final(self).repeat == old(self).repeat,
            final(self).session_id == old(self).session_id,
            final(self).language == old(self).language,
            final(self).analyzer_version == old(self).analyzer_version,
            final(self).analysis_mode == old(self).analysis_mode,
            final(self).description == old(self).description,
    {
        let timed_out = match &outcome {
            Outcome::TimedOut => true,
            _ => false,
        };
        let ghost rs = results_of(self.results@);
        let ghost ts = self.timed_out@;
        let ghost n = self.results@.len() as int;
        let ghost d = self.description@;
        let result = classify(self.inputs[self.input_index].as_str(), outcome, elapsed_ms, details);
        let ghost rs1 = rs.push(result@);
        let ghost ts1 = ts.push(timed_out);
        proof {
            lemma_results_push(self.results@, result);
            lemma_prefix(rs, ts, result@, timed_out, d, n);
            lemma_tally_bounds(rs1, ts1, n + 1);
            assert(all_classified(rs1, ts1));
            vstd::arithmetic::div_mod::lemma_fundamental_div_mod_converse(
                n,
                self.repeat as int,
                self.input_index as int,
                self.repeat_index as int,
            );
            assert(strings(self.inputs@)[self.input_index as int]
                == self.inputs@[self.input_index as int]@);
            assert(in_order(rs1, strings(self.inputs@), self.repeat as int)) by {
                assert forall|k: int| 0 <= k < rs1.len() implies (#[trigger] rs1[k]).input_data
                    == strings(self.inputs@)[k / (self.repeat as int)] by {
                    if k < n {
                        assert(rs1[k] == rs[k]);
                    }
                }
            }
        }
        let success = result.success;
        let crashed = result.crashed;
        let escaped = result.escape_detected;
        if escaped {
            let finding = Vulnerability {
                input: result.input_data.clone(),
                vulnerability_type: String::from_str("concurrent_escape"),
                severity: String::from_str("high"),
                description: self.description.clone(),
                escape_details: result.escape_details.duplicate(),
            };
            proof {
                lemma_vulnerabilities_push(self.vulnerabilities@, finding);
                assert(finding@ == finding_of(result@, d));
            }
            self.vulnerabilities.push(finding);
        }
        self.results.push(result);
        self.timed_out = Ghost(ts1);
        let total = self.results.len();
        self.summary.total_tests = total;
        if success {
            self.summary.successes = self.summary.successes + 1;
        }
        if crashed {
            self.summary.crashes = self.summary.crashes + 1;
        }
        if timed_out {
            self.summary.timeouts = self.summary.timeouts + 1;
        }
        if escaped {
            self.summary.escapes = self.summary.escapes + 1;
            if !timed_out {
                self.summary.genuine_escapes = self.summary.genuine_escapes + 1;
            }
        }
        proof {
            let i = self.input_index as int;
            let k = self.repeat as int;
            assert((i + 1) * k == i * k + k) by (nonlinear_arith);
        }
        if self.repeat_index + 1 == self.repeat {
            self.repeat_index = 0;
            self.input_index = self.input_index + 1;
        } else {
            self.repeat_index = self.repeat_index + 1;
        }
    }

    /// The response of the session: the runs, the findings and the counts,
    /// and what kept the probe from its work, where something did.
    pub fn finish(self, error: Option<String>) -> (r: AnalyzeResponse)
        requires
            self.wf(),
        ensures
            r@.session_id == self.session_id@,
            r@.language == self.language@,
            r@.analyzer_version == self.analyzer_version@,
            r@.analysis_mode == self.analysis_mode,
            r@.results == results_of(self.results@),
            r@.vulnerabilities == findings_first(
                r@.results,
                self.description@,
                r@.results.len() as int,
            ),
            summarizes(r@.summary, r@.results, self.timed_out@),
            r@.summary.total_tests == r@.results.len(),
            r@.summary.genuine_escapes <= r@.summary.escapes,
            r@.summary.successes + r@.summary.crashes == r@.summary.total_tests,
            r@.summary.timeouts <= r@.summary.crashes,
            r@.vulnerabilities.len() == r@.summary.escapes,
            self.complete() ==> r@.summary.total_tests == self.inputs@.len() * self.repeat,
            in_order(r@.results, strings(self.inputs@), self.repeat as int),
            r@.static_analysis is None,
            r@.error == crate::protocol::opt_text(error),
    {
        proof {
            let rs = results_of(self.results@);
            lemma_tally_bounds(rs, self.timed_out@, rs.len() as int);
            lemma_findings_count(rs, self.timed_out@, self.description@, rs.len() as int);
            if self.repeat == 0 {
                assert(self.input_index * 0 == 0) by (nonlinear_arith);
                assert(self.inputs@.len() * 0 == 0) by (nonlinear_arith);
            }
        }
        AnalyzeResponse {
            session_id: self.session_id,
            language: self.language,
            analyzer_version: self.analyzer_version,
            analysis_mode: self.analysis_mode,
            results: self.results,
            vulnerabilities: self.vulnerabilities,
            summary: self.summary,
            static_analysis: None,
            error,
        }
    }
}

/// In every state of a session: there are as many results as tests counted;
/// the genuine escapes are among the escapes; every result either succeeded
/// or crashed, and never both; an escape is detected in a result exactly
/// where one of its five lists holds a worker; there is one finding for each
/// result with an escape detected, in the order of the results; and once
/// every input was run as often as asked, the tests counted are the number of
/// inputs times the repeats.
pub proof fn lemma_session_invariants(s: ProbeSession)
    requires
        s.wf(),
    ensures
        s.summary.total_tests == s.results@.len(),
        s.complete() ==> s.summary.total_tests == s.inputs@.len() * s.repeat,
        s.summary.genuine_escapes <= s.summary.escapes <= s.summary.total_tests,
        s.summary.successes + s.summary.crashes == s.summary.total_tests,
        s.summary.timeouts <= s.summary.crashes,
        forall|i: int|
            0 <= i < s.results@.len() ==> {
                &&& !((#[trigger] s.results@[i]).success && s.results@[i].crashed)
                &&& s.results@[i].success || s.results@[i].crashed
                &&& s.results@[i].escape_detected == !s.results@[i].escape_details@.is_empty()
            },
        vulnerabilities_of(s.vulnerabilities@) == findings_first(
            results_of(s.results@),
            s.description@,
            s.results@.len() as int,
        ),
        s.vulnerabilities@.len() == s.summary.escapes,
{
    let rs = results_of(s.results@);
    lemma_tally_bounds(rs, s.timed_out@, rs.len() as int);
    lemma_findings_count(rs, s.timed_out@, s.description@, rs.len() as int);
    if s.repeat == 0 {
        assert(s.input_index * 0 == 0) by (nonlinear_arith);
        assert(s.inputs@.len() * 0 == 0) by (nonlinear_arith);
    }
    assert forall|i: int| 0 <= i < s.results@.len() implies {
        &&& !((#[trigger] s.results@[i]).success && s.results@[i].crashed)
        &&& s.results@[i].success || s.results@[i].crashed
        &&& s.results@[i].escape_detected == !s.results@[i].escape_details@.is_empty()
    } by {
        assert(rs[i] == s.results@[i]@);
    }
    assert(vulnerabilities_of(s.vulnerabilities@).len() == s.vulnerabilities@.len());
}

} // verus!
