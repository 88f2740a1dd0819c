//! What the orchestrator tells the user: the summary of an analysis, and
//! the list of analyzers.

use vstd::prelude::*;
use crate::orchestrator::session::{runs_dynamic, wants_dynamic};
use crate::protocol::{
    vulnerabilities_of, AnalysisMode, AnalyzeResponse, AnalyzeResponseView, AnalyzerInfo,
    AnalyzerInfoView, ExecutionSummary, StaticAnalysisResult, StaticAnalysisResultView,
    StaticEscapeSummary, Vulnerability, VulnerabilityView,
};
use crate::text::compose::{
    counted, labelled, push_counted, push_labelled, to_uppercase, unicode_uppercase,
};
use crate::text::split::strings;

verus! {

/// The name of a mode.
pub open spec fn mode_text(mode: AnalysisMode) -> Seq<char> {
    match mode {
        AnalysisMode::Dynamic => "Dynamic"@,
        AnalysisMode::Static => "Static"@,
        AnalysisMode::Both => "Both"@,
    }
}

/// A line with a count, shown where the count is not zero.
pub open spec fn counted_if_any(label: Seq<char>, n: nat) -> Seq<char> {
    if n > 0 {
        counted(label, n, ""@)
    } else {
        Seq::<char>::empty()
    }
}

/// The first `n` of the given texts, each on a line after `bullet`.
pub open spec fn bullet_lines(bullet: Seq<char>, items: Seq<Seq<char>>, n: int) -> Seq<char>
    decreases n,
{
    if n <= 0 {
        Seq::<char>::empty()
    } else {
        bullet_lines(bullet, items, n - 1) + labelled(bullet, items[n - 1])
    }
}

/// The counts of a scan by kind, as the summary shows them.
pub open spec fn kinds_text(s: StaticEscapeSummary) -> Seq<char> {
    counted("  Total Escapes: "@, s.total_escapes as nat, ""@) + counted_if_any(
        "  🚨 Concurrency Escapes: "@,
        s.concurrency_escapes as nat,
    ) + counted_if_any("  ↩  Return Escapes: "@, s.return_escapes as nat) + counted_if_any(
        "  📤 Parameter Escapes: "@,
        s.parameter_escapes as nat,
    ) + counted_if_any("  🌍 Global Escapes: "@, s.global_escapes as nat) + counted_if_any(
        "  λ  Closure Escapes: "@,
        s.closure_escapes as nat,
    ) + counted_if_any("  💾 Heap Escapes: "@, s.heap_escapes as nat)
}

/// The counts of a scan by confidence, as the summary shows them.
pub open spec fn confidence_text(s: StaticEscapeSummary) -> Seq<char> {
    "\nConfidence Breakdown:\n"@ + counted("  High: "@, s.high_confidence as nat, ""@) + counted(
        "  Medium: "@,
        s.medium_confidence as nat,
        ""@,
    ) + counted("  Low: "@, s.low_confidence as nat, ""@)
}

/// The part of the summary on the scan.
pub open spec fn static_part(s: StaticAnalysisResultView) -> Seq<char> {
    "\n--- Static Analysis Results ---\n"@ + labelled("Target: "@, s.target) + labelled(
        "Source File: "@,
        s.source_file,
    ) + counted("Analysis Time: "@, s.analysis_time_ms as nat, "ms"@) + "\nEscape Summary:\n"@
        + kinds_text(s.summary) + confidence_text(s.summary) + (if s.warnings.len() > 0 {
        "\n⚠️  Warnings:\n"@ + bullet_lines("  • "@, s.warnings, s.warnings.len() as int)
    } else {
        Seq::<char>::empty()
    })
}

/// The line of a finding in the summary.
pub open spec fn finding_line(v: VulnerabilityView) -> Seq<char> {
    "   • ["@ + unicode_uppercase(v.severity) + "] "@ + v.vulnerability_type + " - "@
        + v.description + "\n"@
}

/// The lines of the first `n` findings.
pub open spec fn finding_lines(vs: Seq<VulnerabilityView>, n: int) -> Seq<char>
    decreases n,
{
    if n <= 0 {
        Seq::<char>::empty()
    } else {
        finding_lines(vs, n - 1) + finding_line(vs[n - 1])
    }
}

/// The counts of the runs, as the summary shows them.
pub open spec fn counts_text(s: ExecutionSummary, crash_rate: Seq<char>) -> Seq<char> {
    "\n--- Dynamic Analysis Results ---\n"@ + counted("Total Tests: "@, s.total_tests as nat, ""@)
        + counted("Successes: "@, s.successes as nat, " ✓"@) + counted(
        "Crashes: "@,
        s.crashes as nat,
        " ✗"@,
    ) + counted("Timeouts: "@, s.timeouts as nat, " ⏱"@) + counted(
        "Escapes Detected: "@,
        s.escapes as nat,
        " 🚨"@,
    ) + counted("Genuine Escapes: "@, s.genuine_escapes as nat, ""@) + labelled(
        "Crash Rate: "@ + crash_rate,
        "%"@,
    )
}

/// The part of the summary on the runs.
pub open spec fn dynamic_part(r: AnalyzeResponseView, crash_rate: Seq<char>) -> Seq<char> {
    counts_text(r.summary, crash_rate) + (if r.vulnerabilities.len() > 0 {
        "\n⚠️  VULNERABILITIES FOUND:\n"@ + finding_lines(
            r.vulnerabilities,
            r.vulnerabilities.len() as int,
        )
    } else {
        "\n✅ No runtime vulnerabilities detected\n"@
    })
}

/// The head of the summary.
pub open spec fn summary_head(r: AnalyzeResponseView) -> Seq<char> {
    "\n╔════════════════════════════════════════════╗\n"@
        + "║           Analysis Summary                 ║\n"@
        + "╚════════════════════════════════════════════╝\n"@ + labelled(
        "\nLanguage: "@,
        r.language,
    ) + labelled("Analysis Mode: "@, mode_text(r.analysis_mode))
}

/// The summary of an analysis: its head, the part on the scan where one
/// was made, the part on the runs where the mode asks for them, and an
/// empty line.
pub open spec fn summary_text(r: AnalyzeResponseView, crash_rate: Seq<char>) -> Seq<char> {
    summary_head(r) + (match r.static_analysis {
        Some(s) => static_part(s),
        None => Seq::<char>::empty(),
    }) + (if wants_dynamic(r.analysis_mode) {
        dynamic_part(r, crash_rate)
    } else {
        Seq::<char>::empty()
    }) + "\n"@
}

/// The entry of an analyzer in the list of analyzers.
pub open spec fn listing_text(info: AnalyzerInfoView, detailed: bool) -> Seq<char> {
    "🔹 "@ + info.name + " ("@ + info.language + ")\n"@ + labelled("   Version: "@, info.version)
        + labelled("   Executable: "@, info.executable_path) + (if detailed {
        "   Supported Features:\n"@ + bullet_lines(
            "     • "@,
            info.supported_features,
            info.supported_features.len() as int,
        )
    } else {
        Seq::<char>::empty()
    }) + "\n"@
}

fn push_counted_if_any(out: &mut String, label: &str, n: usize)
    ensures
        final(out)@ == old(out)@ + counted_if_any(label@, n as nat),
{
    if n > 0 {
        push_counted(out, label, n as u64, "");
    } else {
        assert(out@ =~= old(out)@ + counted_if_any(label@, n as nat));
    }
}

fn push_bullets(out: &mut String, bullet: &str, items: &Vec<String>)
    ensures
        final(out)@ == old(out)@ + bullet_lines(bullet@, strings(items@), items@.len() as int),
{
    let mut i: usize = 0;
    assert(out@ =~= old(out)@ + bullet_lines(bullet@, strings(items@), 0));
    while i < items.len()
        invariant
            i <= items.len(),
            out@ == old(out)@ + bullet_lines(bullet@, strings(items@), i as int),
        decreases items.len() - i,
    {
        assert(strings(items@)[i as int] == items@[i as int]@);
        push_labelled(out, bullet, items[i].as_str());
        assert(out@ =~= old(out)@ + bullet_lines(bullet@, strings(items@), i + 1));
        i += 1;
    }
}

fn mode_name(mode: AnalysisMode) -> (r: &'static str)
    ensures
        r@ == mode_text(mode),
{
    match mode {
        AnalysisMode::Dynamic => "Dynamic",
        AnalysisMode::Static => "Static",
        AnalysisMode::Both => "Both",
    }
}

fn render_static(s: &StaticAnalysisResult) -> (r: String)
    ensures
        r@ == static_part(s@),
{
    let mut out = String::from_str("\n--- Static Analysis Results ---\n");
    push_labelled(&mut out, "Target: ", s.target.as_str());
    push_labelled(&mut out, "Source File: ", s.source_file.as_str());
    push_counted(&mut out, "Analysis Time: ", s.analysis_time_ms, "ms");
    out.append("\nEscape Summary:\n");
    let mut kinds = String::new();
    push_counted(&mut kinds, "  Total Escapes: ", s.summary.total_escapes as u64, "");
    push_counted_if_any(&mut kinds, "  🚨 Concurrency Escapes: ", s.summary.concurrency_escapes);
    push_counted_if_any(&mut kinds, "  ↩  Return Escapes: ", s.summary.return_escapes);
    push_counted_if_any(&mut kinds, "  📤 Parameter Escapes: ", s.summary.parameter_escapes);
    push_counted_if_any(&mut kinds, "  🌍 Global Escapes: ", s.summary.global_escapes);
    push_counted_if_any(&mut kinds, "  λ  Closure Escapes: ", s.summary.closure_escapes);
    push_counted_if_any(&mut kinds, "  💾 Heap Escapes: ", s.summary.heap_escapes);
    assert(kinds@ =~= kinds_text(s@.summary));
    let mut confidence = String::from_str("\nConfidence Breakdown:\n");
    push_counted(&mut confidence, "  High: ", s.summary.high_confidence as u64, "");
    push_counted(&mut confidence, "  Medium: ", s.summary.medium_confidence as u64, "");
    push_counted(&mut confidence, "  Low: ", s.summary.low_confidence as u64, "");
    assert(confidence@ =~= confidence_text(s@.summary));
    out.append(kinds.as_str());
    out.append(confidence.as_str());
    let mut warnings = String::new();
    if s.warnings.len() > 0 {
        warnings.append("\n⚠️  Warnings:\n");
        push_bullets(&mut warnings, "  • ", &s.warnings);
    }
    out.append(warnings.as_str());
    assert(out@ =~= static_part(s@));
    out
}

fn render_finding(v: &Vulnerability) -> (r: String)
    ensures
        r@ == finding_line(v@),
{
    let severity = to_uppercase(v.severity.as_str());
    let mut s = String::from_str("   • [");
    s.append(severity.as_str());
    s.append("] ");
    s.append(v.vulnerability_type.as_str());
    s.append(" - ");
    s.append(v.description.as_str());
    s.append("\n");
    assert(s@ =~= finding_line(v@));
    s
}

fn render_dynamic(response: &AnalyzeResponse, crash_rate: &str) -> (r: String)
    ensures
        r@ == dynamic_part(response@, crash_rate@),
{
    let s = &response.summary;
    let mut out = String::from_str("\n--- Dynamic Analysis Results ---\n");
    push_counted(&mut out, "Total Tests: ", s.total_tests as u64, "");
    push_counted(&mut out, "Successes: ", s.successes as u64, " ✓");
    push_counted(&mut out, "Crashes: ", s.crashes as u64, " ✗");
    push_counted(&mut out, "Timeouts: ", s.timeouts as u64, " ⏱");
    push_counted(&mut out, "Escapes Detected: ", s.escapes as u64, " 🚨");
    push_counted(&mut out, "Genuine Escapes: ", s.genuine_escapes as u64, "");
    let rate_label = crate::text::names::concat2("Crash Rate: ", crash_rate);
    push_labelled(&mut out, rate_label.as_str(), "%");
    assert(out@ =~= counts_text(response@.summary, crash_rate@));
    let ghost vs = response@.vulnerabilities;
    let mut findings = String::new();
    if response.vulnerabilities.len() > 0 {
        findings.append("\n⚠️  VULNERABILITIES FOUND:\n");
        let ghost head = findings@;
        let mut i: usize = 0;
        while i < response.vulnerabilities.len()
            invariant
                i <= response.vulnerabilities.len(),
                vs == vulnerabilities_of(response.vulnerabilities@),
                findings@ == head + finding_lines(vs, i as int),
            decreases response.vulnerabilities.len() - i,
        {
            assert(vs[i as int] == response.vulnerabilities@[i as int]@);
            let line = render_finding(&response.vulnerabilities[i]);
            findings.append(line.as_str());
            assert(findings@ =~= head + finding_lines(vs, i + 1));
            i += 1;
        }
    } else {
        findings.append("\n✅ No runtime vulnerabilities detected\n");
    }
    out.append(findings.as_str());
    out
}

/// The summary of an analysis, as it is shown to the user. `crash_rate` is
/// the crash rate in percent, as it is to be shown.
pub fn render_summary(response: &AnalyzeResponse, crash_rate: &str) -> (r: String)
    ensures
        r@ == summary_text(response@, crash_rate@),
{
    let mut out = String::from_str("\n╔════════════════════════════════════════════╗\n");
    out.append("║           Analysis Summary                 ║\n");
    out.append("╚════════════════════════════════════════════╝\n");
    push_labelled(&mut out, "\nLanguage: ", response.language.as_str());
    push_labelled(&mut out, "Analysis Mode: ", mode_name(response.analysis_mode));
    assert(out@ =~= summary_head(response@));
    let scan = match &response.static_analysis {
        Some(s) => render_static(s),
        None => String::new(),
    };
    let runs = if runs_dynamic(response.analysis_mode) {
        render_dynamic(response, crash_rate)
    } else {
        String::new()
    };
    out.append(scan.as_str());
    out.append(runs.as_str());
    out.append("\n");
    out
}

/// The entry of an analyzer in the list of analyzers, with its features
/// where details are asked for.
pub fn render_listing(info: &AnalyzerInfo, detailed: bool) -> (r: String)
    ensures
        r@ == listing_text(info@, detailed),
{
    let mut out = String::from_str("🔹 ");
    out.append(info.name.as_str());
    out.append(" (");
    out.append(info.language.as_str());
    out.append(")\n");
    push_labelled(&mut out, "   Version: ", info.version.as_str());
    push_labelled(&mut out, "   Executable: ", info.executable_path.as_str());
    let mut features = String::new();
    if detailed {
        features.append("   Supported Features:\n");
        push_bullets(&mut features, "     • ", &info.supported_features);
    }
    out.append(features.as_str());
    out.append("\n");
    assert(out@ =~= listing_text(info@, detailed));
    out
}

} // verus!
