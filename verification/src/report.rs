//! The documents of a session report: a summary, a table of the runs, and
//! the findings.

use vstd::prelude::*;
use crate::protocol::{
    results_of, vulnerabilities_of, AnalyzeResponse, AnalyzeResponseView, AsyncTaskEscapeView,
    EscapeDetails, EscapeDetailsView, ExecutionResult, ExecutionResultView, ExecutionSummary,
    GoroutineEscapeView, ProcessEscapeView, ThreadEscapeView, Vulnerability, VulnerabilityView,
};
use crate::text::compose::{
    counted, decimal, decimal_string, labelled, push_counted, push_labelled, replace_char,
    replaced, to_uppercase, unicode_uppercase,
};
use crate::text::names::concat2;

verus! {

/// The line of a thread in the findings document.
pub open spec fn thread_line(t: ThreadEscapeView) -> Seq<char> {
    "- "@ + t.name + " ("@ + t.thread_id + "): "@ + t.state + " "@ + (if t.is_daemon {
        "[daemon]"@
    } else {
        "[non-daemon]"@
    }) + "\n"@
}

/// The line of a process in the findings document.
pub open spec fn process_line(p: ProcessEscapeView) -> Seq<char> {
    "- PID "@ + decimal(p.pid as nat) + ": "@ + p.name + "\n"@
}

/// The line of a task in the findings document.
pub open spec fn task_line(t: AsyncTaskEscapeView) -> Seq<char> {
    "- "@ + t.task_type + ": "@ + t.state + "\n"@
}

/// The line of a goroutine in the findings document.
pub open spec fn goroutine_line(g: GoroutineEscapeView) -> Seq<char> {
    "- #"@ + decimal(g.goroutine_id as nat) + ": "@ + g.function + " ("@ + g.state + ")\n"@
}

/// The lines of the first `n` threads.
pub open spec fn thread_lines(ts: Seq<ThreadEscapeView>, n: int) -> Seq<char>
    decreases n,
{
    if n <= 0 {
        Seq::<char>::empty()
    } else {
        thread_lines(ts, n - 1) + thread_line(ts[n - 1])
    }
}

/// The lines of the first `n` processes.
pub open spec fn process_lines(ps: Seq<ProcessEscapeView>, n: int) -> Seq<char>
    decreases n,
{
    if n <= 0 {
        Seq::<char>::empty()
    } else {
        process_lines(ps, n - 1) + process_line(ps[n - 1])
    }
}

/// The lines of the first `n` tasks.
pub open spec fn task_lines(ts: Seq<AsyncTaskEscapeView>, n: int) -> Seq<char>
    decreases n,
{
    if n <= 0 {
        Seq::<char>::empty()
    } else {
        task_lines(ts, n - 1) + task_line(ts[n - 1])
    }
}

/// The lines of the first `n` goroutines.
pub open spec fn goroutine_lines(gs: Seq<GoroutineEscapeView>, n: int) -> Seq<char>
    decreases n,
{
    if n <= 0 {
        Seq::<char>::empty()
    } else {
        goroutine_lines(gs, n - 1) + goroutine_line(gs[n - 1])
    }
}

/// A heading and the lines under it, where there are any.
pub open spec fn section(present: bool, heading: Seq<char>, lines: Seq<char>) -> Seq<char> {
    if present {
        heading + lines
    } else {
        Seq::<char>::empty()
    }
}

/// The details of an escape as the findings document shows them: threads,
/// processes, tasks and goroutines, each kind under its heading, and a note
/// where there is none of them.
pub open spec fn escape_details_text(d: EscapeDetailsView) -> Seq<char> {
    if d.threads.len() == 0 && d.processes.len() == 0 && d.async_tasks.len() == 0
        && d.goroutines.len() == 0 {
        "No escape details available"@
    } else {
        section(
            d.threads.len() > 0,
            "**Threads:**\n"@,
            thread_lines(d.threads, d.threads.len() as int),
        ) + section(
            d.processes.len() > 0,
            "\n**Processes:**\n"@,
            process_lines(d.processes, d.processes.len() as int),
        ) + section(
            d.async_tasks.len() > 0,
            "\n**Async Tasks:**\n"@,
            task_lines(d.async_tasks, d.async_tasks.len() as int),
        ) + section(
            d.goroutines.len() > 0,
            "\n**Goroutines:**\n"@,
            goroutine_lines(d.goroutines, d.goroutines.len() as int),
        )
    }
}

/// The line of a finding in the summary document.
pub open spec fn vulnerability_line(v: VulnerabilityView, number: nat) -> Seq<char> {
    decimal(number) + ". **["@ + unicode_uppercase(v.severity) + "]** "@ + v.vulnerability_type
        + " - Input: `"@ + v.input + "`\n"@
}

/// The lines of the first `n` findings, numbered from one.
pub open spec fn vulnerability_lines(vs: Seq<VulnerabilityView>, n: int) -> Seq<char>
    decreases n,
{
    if n <= 0 {
        Seq::<char>::empty()
    } else {
        vulnerability_lines(vs, n - 1) + vulnerability_line(vs[n - 1], n as nat)
    }
}

/// The findings as the summary document lists them.
pub open spec fn vulnerabilities_text(vs: Seq<VulnerabilityView>) -> Seq<char> {
    if vs.len() == 0 {
        "✅ **No vulnerabilities detected**"@
    } else {
        "⚠️ **"@ + decimal(vs.len()) + " vulnerabilities found:**\n\n"@ + vulnerability_lines(
            vs,
            vs.len() as int,
        )
    }
}

/// The status of a run in the table of runs.
pub open spec fn status_text(r: ExecutionResultView) -> Seq<char> {
    if r.crashed {
        "❌ CRASH"@
    } else if r.success {
        "✅ OK"@
    } else {
        "⚠️ FAIL"@
    }
}

/// The row of a run in the table of runs.
pub open spec fn result_row(r: ExecutionResultView) -> Seq<char> {
    "| `"@ + r.input_data + "` | "@ + status_text(r) + " | "@ + (if r.escape_detected {
        "🚨 YES"@
    } else {
        "✓ NO"@
    }) + " | "@ + r.escape_details.summary() + " |\n"@
}

/// The rows of the first `n` runs.
pub open spec fn result_rows(rs: Seq<ExecutionResultView>, n: int) -> Seq<char>
    decreases n,
{
    if n <= 0 {
        Seq::<char>::empty()
    } else {
        result_rows(rs, n - 1) + result_row(rs[n - 1])
    }
}

/// The table of runs of the summary document.
pub open spec fn results_text(rs: Seq<ExecutionResultView>) -> Seq<char> {
    "| Input | Status | Escape | Details |\n"@ + "|-------|--------|--------|----------|\n"@
        + result_rows(rs, rs.len() as int)
}

/// `true` or `false`.
pub open spec fn bool_text(b: bool) -> Seq<char> {
    if b {
        "true"@
    } else {
        "false"@
    }
}

/// A text as a field of the table file: each double quote doubled.
pub open spec fn quoted(s: Seq<char>) -> Seq<char> {
    replaced(s, '"', "\"\""@)
}

/// The row of a run in the table file.
pub open spec fn csv_row(r: ExecutionResultView) -> Seq<char> {
    "\""@ + quoted(r.input_data) + "\","@ + bool_text(r.success) + ","@ + bool_text(r.crashed)
        + ","@ + bool_text(r.escape_detected) + ",\""@ + quoted(r.escape_details.summary())
        + "\",\""@ + quoted(r.error) + "\","@ + decimal(r.execution_time_ms as nat) + "\n"@
}

/// The rows of the first `n` runs in the table file.
pub open spec fn csv_rows(rs: Seq<ExecutionResultView>, n: int) -> Seq<char>
    decreases n,
{
    if n <= 0 {
        Seq::<char>::empty()
    } else {
        csv_rows(rs, n - 1) + csv_row(rs[n - 1])
    }
}

/// The table file: a heading, and one row for each run.
pub open spec fn csv_text(rs: Seq<ExecutionResultView>) -> Seq<char> {
    "input,success,crashed,escape_detected,escape_summary,error,execution_time_ms\n"@ + csv_rows(
        rs,
        rs.len() as int,
    )
}

/// The section of a finding in the findings document.
pub open spec fn vulnerability_section(v: VulnerabilityView, number: nat) -> Seq<char> {
    "## Vulnerability #"@ + decimal(number) + " - "@ + v.vulnerability_type + "\n\n**Type:** `"@
        + v.vulnerability_type + "`\n**Severity:** "@ + unicode_uppercase(v.severity)
        + "\n**Input:** `"@ + v.input + "`\n\n**Description:**\n"@ + v.description
        + "\n\n**Escape Details:**\n"@ + escape_details_text(v.escape_details) + "\n\n---\n\n"@
}

/// The sections of the first `n` findings.
pub open spec fn vulnerability_sections(vs: Seq<VulnerabilityView>, n: int) -> Seq<char>
    decreases n,
{
    if n <= 0 {
        Seq::<char>::empty()
    } else {
        vulnerability_sections(vs, n - 1) + vulnerability_section(vs[n - 1], n as nat)
    }
}

/// The findings document.
pub open spec fn vulnerability_report_text(vs: Seq<VulnerabilityView>) -> Seq<char> {
    "# Vulnerability Report\n\n"@ + vulnerability_sections(vs, vs.len() as int)
}

/// The head of the summary document.
pub open spec fn summary_head(
    r: AnalyzeResponseView,
    target: Seq<char>,
    generated: Seq<char>,
) -> Seq<char> {
    "# Escape Analysis Report\n\n"@ + labelled("**Target:** `"@ + target, "`"@) + labelled(
        "**Language:** "@,
        r.language,
    ) + labelled("**Analyzer Version:** "@, r.analyzer_version) + labelled(
        "**Session ID:** "@,
        r.session_id,
    ) + labelled("**Generated:** "@, generated)
}

/// The table of counts of the summary document, in six rows.
pub open spec fn summary_metrics(s: ExecutionSummary) -> Seq<char> {
    "\n## Summary\n\n| Metric | Value |\n|--------|-------|\n"@ + counted(
        "| Total Tests | "@,
        s.total_tests as nat,
        " |"@,
    ) + counted("| Successes | "@, s.successes as nat, " ✓ |"@) + counted(
        "| Crashes | "@,
        s.crashes as nat,
        " ✗ |"@,
    ) + counted("| Timeouts | "@, s.timeouts as nat, " ⏱ |"@) + counted(
        "| Escapes Detected | "@,
        s.escapes as nat,
        " 🚨 |"@,
    ) + counted("| Genuine Escapes | "@, s.genuine_escapes as nat, " |"@)
}

/// The summary document: head, counts, findings and the table of runs.
pub open spec fn summary_text(r: AnalyzeResponseView, target: Seq<char>, generated: Seq<char>)
    -> Seq<char> {
    summary_head(r, target, generated) + summary_metrics(r.summary)
        + "\n## Vulnerabilities\n\n"@ + vulnerabilities_text(r.vulnerabilities)
        + "\n\n## Test Results\n\n"@ + results_text(r.results) + "\n"@
}

/// A document of a report: the name of its file, and its text.
#[derive(Debug, Clone)]
pub struct ReportFile {
    pub name: String,
    pub content: String,
}

/// Writes the documents of a session under an output directory.
#[derive(Debug, Clone)]
pub struct ReportGenerator {
    pub output_dir: String,
}

fn thread_text(t: &crate::protocol::ThreadEscape) -> (r: String)
    ensures
        r@ == thread_line(t@),
{
    let mut s = String::from_str("- ");
    s.append(t.name.as_str());
    s.append(" (");
    s.append(t.thread_id.as_str());
    s.append("): ");
    s.append(t.state.as_str());
    s.append(" ");
    if t.is_daemon {
        s.append("[daemon]");
    } else {
        s.append("[non-daemon]");
    }
    s.append("\n");
    assert(s@ =~= thread_line(t@));
    s
}

fn process_text(p: &crate::protocol::ProcessEscape) -> (r: String)
    ensures
        r@ == process_line(p@),
{
    let number = decimal_string(p.pid as u64);
    let mut s = String::from_str("- PID ");
    s.append(number.as_str());
    s.append(": ");
    s.append(p.name.as_str());
    s.append("\n");
    assert(s@ =~= process_line(p@));
    s
}

fn task_text(t: &crate::protocol::AsyncTaskEscape) -> (r: String)
    ensures
        r@ == task_line(t@),
{
    let mut s = String::from_str("- ");
    s.append(t.task_type.as_str());
    s.append(": ");
    s.append(t.state.as_str());
    s.append("\n");
    assert(s@ =~= task_line(t@));
    s
}

fn goroutine_text(g: &crate::protocol::GoroutineEscape) -> (r: String)
    ensures
        r@ == goroutine_line(g@),
{
    let number = decimal_string(g.goroutine_id);
    let mut s = String::from_str("- #");
    s.append(number.as_str());
    s.append(": ");
    s.append(g.function.as_str());
    s.append(" (");
    s.append(g.state.as_str());
    s.append(")\n");
    assert(s@ =~= goroutine_line(g@));
    s
}

fn threads_section(d: &EscapeDetails) -> (r: String)
    ensures
        r@ == section(
            d@.threads.len() > 0,
            "**Threads:**\n"@,
            thread_lines(d@.threads, d@.threads.len() as int),
        ),
{
    let mut out = String::new();
    if d.threads.len() > 0 {
        out.append("**Threads:**\n");
        let mut i: usize = 0;
        while i < d.threads.len()
            invariant
                i <= d.threads.len(),
                out@ == "**Threads:**\n"@ + thread_lines(d@.threads, i as int),
            decreases d.threads.len() - i,
        {
            assert(d@.threads[i as int] == d.threads@[i as int]@);
            let line = thread_text(&d.threads[i]);
            out.append(line.as_str());
            assert(out@ =~= "**Threads:**\n"@ + thread_lines(d@.threads, i + 1));
            i += 1;
        }
    }
    out
}

fn processes_section(d: &EscapeDetails) -> (r: String)
    ensures
        r@ == section(
            d@.processes.len() > 0,
            "\n**Processes:**\n"@,
            process_lines(d@.processes, d@.processes.len() as int),
        ),
{
    let mut out = String::new();
    if d.processes.len() > 0 {
        out.append("\n**Processes:**\n");
        let mut i: usize = 0;
        while i < d.processes.len()
            invariant
                i <= d.processes.len(),
                out@ == "\n**Processes:**\n"@ + process_lines(d@.processes, i as int),
            decreases d.processes.len() - i,
        {
            assert(d@.processes[i as int] == d.processes@[i as int]@);
            let line = process_text(&d.processes[i]);
            out.append(line.as_str());
            assert(out@ =~= "\n**Processes:**\n"@ + process_lines(d@.processes, i + 1));
            i += 1;
        }
    }
    out
}

fn tasks_section(d: &EscapeDetails) -> (r: String)
    ensures
        r@ == section(
            d@.async_tasks.len() > 0,
            "\n**Async Tasks:**\n"@,
            task_lines(d@.async_tasks, d@.async_tasks.len() as int),
        ),
{
    let mut out = String::new();
    if d.async_tasks.len() > 0 {
        out.append("\n**Async Tasks:**\n");
        let mut i: usize = 0;
        while i < d.async_tasks.len()
            invariant
                i <= d.async_tasks.len(),
                out@ == "\n**Async Tasks:**\n"@ + task_lines(d@.async_tasks, i as int),
            decreases d.async_tasks.len() - i,
        {
            assert(d@.async_tasks[i as int] == d.async_tasks@[i as int]@);
            let line = task_text(&d.async_tasks[i]);
            out.append(line.as_str());
            assert(out@ =~= "\n**Async Tasks:**\n"@ + task_lines(d@.async_tasks, i + 1));
            i += 1;
        }
    }
    out
}

fn goroutines_section(d: &EscapeDetails) -> (r: String)
    ensures
        r@ == section(
            d@.goroutines.len() > 0,
            "\n**Goroutines:**\n"@,
            goroutine_lines(d@.goroutines, d@.goroutines.len() as int),
        ),
{
    let mut out = String::new();
    if d.goroutines.len() > 0 {
        out.append("\n**Goroutines:**\n");
        let mut i: usize = 0;
        while i < d.goroutines.len()
            invariant
                i <= d.goroutines.len(),
                out@ == "\n**Goroutines:**\n"@ + goroutine_lines(d@.goroutines, i as int),
            decreases d.goroutines.len() - i,
        {
            assert(d@.goroutines[i as int] == d.goroutines@[i as int]@);
            let line = goroutine_text(&d.goroutines[i]);
            out.append(line.as_str());
            assert(out@ =~= "\n**Goroutines:**\n"@ + goroutine_lines(d@.goroutines, i + 1));
            i += 1;
        }
    }
    out
}

fn vulnerability_text(v: &Vulnerability, number: usize) -> (r: String)
    ensures
        r@ == vulnerability_line(v@, number as nat),
{
    let n = decimal_string(number as u64);
    let severity = to_uppercase(v.severity.as_str());
    let mut s = String::new();
    s.append(n.as_str());
    s.append(". **[");
    s.append(severity.as_str());
    s.append("]** ");
    s.append(v.vulnerability_type.as_str());
    s.append(" - Input: `");
    s.append(v.input.as_str());
    s.append("`\n");
    assert(s@ =~= vulnerability_line(v@, number as nat));
    s
}

fn result_text(r: &ExecutionResult) -> (out: String)
    ensures
        out@ == result_row(r@),
{
    let summary = r.escape_details.summary();
    let mut s = String::from_str("| `");
    s.append(r.input_data.as_str());
    s.append("` | ");
    if r.crashed {
        s.append("❌ CRASH");
    } else if r.success {
        s.append("✅ OK");
    } else {
        s.append("⚠️ FAIL");
    }
    s.append(" | ");
    if r.escape_detected {
        s.append("🚨 YES");
    } else {
        s.append("✓ NO");
    }
    s.append(" | ");
    s.append(summary.as_str());
    s.append(" |\n");
    assert(s@ =~= result_row(r@));
    s
}

fn bool_word(b: bool) -> (r: &'static str)
    ensures
        r@ == bool_text(b),
{
    if b {
        "true"
    } else {
        "false"
    }
}

fn csv_line(r: &ExecutionResult) -> (out: String)
    ensures
        out@ == csv_row(r@),
{
    let summary = r.escape_details.summary();
    let input = replace_char(r.input_data.as_str(), '"', "\"\"");
    let details = replace_char(summary.as_str(), '"', "\"\"");
    let error = replace_char(r.error.as_str(), '"', "\"\"");
    let time = decimal_string(r.execution_time_ms);
    let mut s = String::from_str("\"");
    s.append(input.as_str());
    s.append("\",");
    s.append(bool_word(r.success));
    s.append(",");
    s.append(bool_word(r.crashed));
    s.append(",");
    s.append(bool_word(r.escape_detected));
    s.append(",\"");
    s.append(details.as_str());
    s.append("\",\"");
    s.append(error.as_str());
    s.append("\",");
    s.append(time.as_str());
    s.append("\n");
    assert(s@ =~= csv_row(r@));
    s
}

impl ReportGenerator {
    /// A generator that writes under `output_dir`.
    pub fn new(output_dir: String) -> (r: Self)
        ensures
            r.output_dir == output_dir,
    {
        ReportGenerator { output_dir }
    }

    /// The name of the directory of a session that began at `timestamp`.
    pub fn session_dir_name(&self, timestamp: &str) -> (r: String)
        ensures
            r@ == "session_"@ + timestamp@,
    {
        concat2("session_", timestamp)
    }

    /// The details of an escape as the findings document shows them.
    pub fn format_escape_details(&self, details: &EscapeDetails) -> (r: String)
        ensures
            r@ == escape_details_text(details@),
    {
        if details.threads.len() == 0 && details.processes.len() == 0
            && details.async_tasks.len() == 0 && details.goroutines.len() == 0 {
            return String::from_str("No escape details available");
        }
        let mut out = threads_section(details);
        let processes = processes_section(details);
        let tasks = tasks_section(details);
        let goroutines = goroutines_section(details);
        out.append(processes.as_str());
        out.append(tasks.as_str());
        out.append(goroutines.as_str());
        out
    }

    /// The findings as the summary document lists them.
    pub fn format_vulnerabilities(&self, vulnerabilities: &Vec<Vulnerability>) -> (r: String)
        ensures
            r@ == vulnerabilities_text(vulnerabilities_of(vulnerabilities@)),
    {
        if vulnerabilities.len() == 0 {
            return String::from_str("✅ **No vulnerabilities detected**");
        }
        let ghost vs = vulnerabilities_of(vulnerabilities@);
        let count = decimal_string(vulnerabilities.len() as u64);
        let mut out = String::from_str("⚠️ **");
        out.append(count.as_str());
        out.append(" vulnerabilities found:**\n\n");
        let ghost head = out@;
        let mut i: usize = 0;
        while i < vulnerabilities.len()
            invariant
                i <= vulnerabilities.len(),
                vs == vulnerabilities_of(vulnerabilities@),
                out@ == head + vulnerability_lines(vs, i as int),
            decreases vulnerabilities.len() - i,
        {
            assert(vs[i as int] == vulnerabilities@[i as int]@);
            let line = vulnerability_text(&vulnerabilities[i], i + 1);
            out.append(line.as_str());
            assert(out@ =~= head + vulnerability_lines(vs, i + 1));
            i += 1;
        }
        assert(out@ =~= vulnerabilities_text(vs));
        out
    }

    /// The table of runs of the summary document.
    pub fn format_results(&self, response: &AnalyzeResponse) -> (r: String)
        ensures
            r@ == results_text(response@.results),
    {
        let ghost rs = response@.results;
        let mut out = String::from_str("| Input | Status | Escape | Details |\n");
        out.append("|-------|--------|--------|----------|\n");
        let ghost head = out@;
        let mut i: usize = 0;
        while i < response.results.len()
            invariant
                i <= response.results.len(),
                rs == results_of(response.results@),
                out@ == head + result_rows(rs, i as int),
            decreases response.results.len() - i,
        {
            assert(rs[i as int] == response.results@[i as int]@);
            let row = result_text(&response.results[i]);
            out.append(row.as_str());
            assert(out@ =~= head + result_rows(rs, i + 1));
            i += 1;
        }
        assert(out@ =~= results_text(rs));
        out
    }

    /// The text of the table file.
    pub fn csv_document(&self, response: &AnalyzeResponse) -> (r: String)
        ensures
            r@ == csv_text(response@.results),
    {
        let ghost rs = response@.results;
        let mut out = String::from_str(
            "input,success,crashed,escape_detected,escape_summary,error,execution_time_ms\n",
        );
        let ghost head = out@;
        let mut i: usize = 0;
        while i < response.results.len()
            invariant
                i <= response.results.len(),
                rs == results_of(response.results@),
                out@ == head + csv_rows(rs, i as int),
            decreases response.results.len() - i,
        {
            assert(rs[i as int] == response.results@[i as int]@);
            let row = csv_line(&response.results[i]);
            out.append(row.as_str());
            assert(out@ =~= head + csv_rows(rs, i + 1));
            i += 1;
        }
        out
    }

    fn vulnerability_part(&self, v: &Vulnerability, number: usize) -> (r: String)
        ensures
            r@ == vulnerability_section(v@, number as nat),
    {
        let n = decimal_string(number as u64);
        let severity = to_uppercase(v.severity.as_str());
        let details = self.format_escape_details(&v.escape_details);
        let mut s = String::from_str("## Vulnerability #");
        s.append(n.as_str());
        s.append(" - ");
        s.append(v.vulnerability_type.as_str());
        s.append("\n\n**Type:** `");
        s.append(v.vulnerability_type.as_str());
        s.append("`\n**Severity:** ");
        s.append(severity.as_str());
        s.append("\n**Input:** `");
        s.append(v.input.as_str());
        s.append("`\n\n**Description:**\n");
        s.append(v.description.as_str());
        s.append("\n\n**Escape Details:**\n");
        s.append(details.as_str());
        s.append("\n\n---\n\n");
        assert(s@ =~= vulnerability_section(v@, number as nat));
        s
    }

    /// The text of the findings document.
    pub fn vulnerability_document(&self, response: &AnalyzeResponse) -> (r: String)
        ensures
            r@ == vulnerability_report_text(response@.vulnerabilities),
    {
        let ghost vs = response@.vulnerabilities;
        let mut out = String::from_str("# Vulnerability Report\n\n");
        let ghost head = out@;
        let mut i: usize = 0;
        while i < response.vulnerabilities.len()
            invariant
                i <= response.vulnerabilities.len(),
                vs == vulnerabilities_of(response.vulnerabilities@),
                out@ == head + vulnerability_sections(vs, i as int),
            decreases response.vulnerabilities.len() - i,
        {
            assert(vs[i as int] == response.vulnerabilities@[i as int]@);
            let part = self.vulnerability_part(&response.vulnerabilities[i], i + 1);
            out.append(part.as_str());
            assert(out@ =~= head + vulnerability_sections(vs, i + 1));
            i += 1;
        }
        out
    }

    /// The text of the summary document. `generated` is the time of
    /// writing, as it is to be shown.
    pub fn summary_document(&self, response: &AnalyzeResponse, target: &str, generated: &str) -> (r:
        String)
        ensures
            r@ == summary_text(response@, target@, generated@),
    {
        let s = &response.summary;
        let mut out = String::from_str("# Escape Analysis Report\n\n");
        let target_label = concat2("**Target:** `", target);
        push_labelled(&mut out, target_label.as_str(), "`");
        push_labelled(&mut out, "**Language:** ", response.language.as_str());
        push_labelled(&mut out, "**Analyzer Version:** ", response.analyzer_version.as_str());
        push_labelled(&mut out, "**Session ID:** ", response.session_id.as_str());
        push_labelled(&mut out, "**Generated:** ", generated);
        assert(out@ =~= summary_head(response@, target@, generated@));
        let mut metrics = String::from_str(
            "\n## Summary\n\n| Metric | Value |\n|--------|-------|\n",
        );
        push_counted(&mut metrics, "| Total Tests | ", s.total_tests as u64, " |");
        push_counted(&mut metrics, "| Successes | ", s.successes as u64, " ✓ |");
        push_counted(&mut metrics, "| Crashes | ", s.crashes as u64, " ✗ |");
        push_counted(&mut metrics, "| Timeouts | ", s.timeouts as u64, " ⏱ |");
        push_counted(&mut metrics, "| Escapes Detected | ", s.escapes as u64, " 🚨 |");
        push_counted(&mut metrics, "| Genuine Escapes | ", s.genuine_escapes as u64, " |");
        assert(metrics@ =~= summary_metrics(response@.summary));
        let findings = self.format_vulnerabilities(&response.vulnerabilities);
        let table = self.format_results(response);
        out.append(metrics.as_str());
        out.append("\n## Vulnerabilities\n\n");
        out.append(findings.as_str());
        out.append("\n\n## Test Results\n\n");
        out.append(table.as_str());
        out.append("\n");
        assert(out@ =~= summary_text(response@, target@, generated@));
        out
    }

    /// The documents of a session: the summary, the table file, and the
    /// findings document where there is a finding.
    pub fn documents(&self, response: &AnalyzeResponse, target: &str, generated: &str) -> (r: Vec<
        ReportFile,
    >)
        ensures
            r@.len() == if response@.vulnerabilities.len() == 0 {
                2int
            } else {
                3int
            },
            r@[0].name@ == "README.md"@,
            r@[0].content@ == summary_text(response@, target@, generated@),
            r@[1].name@ == "results.csv"@,
            r@[1].content@ == csv_text(response@.results),
            response@.vulnerabilities.len() > 0 ==> r@[2].name@ == "vulnerabilities.md"@
                && r@[2].content@ == vulnerability_report_text(response@.vulnerabilities),
    {
        let mut files: Vec<ReportFile> = Vec::new();
        files.push(
            ReportFile {
                name: String::from_str("README.md"),
                content: self.summary_document(response, target, generated),
            },
        );
        files.push(
            ReportFile {
                name: String::from_str("results.csv"),
                content: self.csv_document(response),
            },
        );
        if response.vulnerabilities.len() > 0 {
            files.push(
                ReportFile {
                    name: String::from_str("vulnerabilities.md"),
                    content: self.vulnerability_document(response),
                },
            );
        }
        files
    }
}

} // verus!
