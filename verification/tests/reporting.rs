use graphene_ha::orchestrator::session::request_with;
use graphene_ha::orchestrator::summary::{render_listing, render_summary};
use graphene_ha::probe::{thread_details, Outcome, ProbeSession};
use graphene_ha::protocol::{
    AnalysisMode, AnalyzeResponse, AnalyzerInfo, AsyncTaskEscape, EscapeDetails,
    GoroutineEscape, ProcessEscape, ThreadEscape,
};
use graphene_ha::report::ReportGenerator;
use graphene_ha::static_analyzer::rust::RustStaticAnalyzer;

fn session(outcomes: Vec<(Outcome, Vec<u32>)>, input: &str) -> AnalyzeResponse {
    let inputs = vec![input.to_string()];
    let req = request_with(
        "sid".to_string(),
        "t.py:leak",
        &inputs,
        outcomes.len(),
        1000,
        AnalysisMode::Dynamic,
    );
    let mut s = ProbeSession::new(&req, "python", "2.1.0", "Thread left behind");
    for (outcome, after) in outcomes {
        s.record(outcome, 42, thread_details(&vec![1], &after));
    }
    s.finish(None)
}

#[test]
fn table_file_doubles_quotes() {
    let response = session(
        vec![
            (Outcome::Completed("fine".to_string()), vec![1]),
            (Outcome::Faulted("said \"no\"".to_string()), vec![1, 8, 9]),
        ],
        "a\"b",
    );
    let csv = ReportGenerator::new("logs".to_string()).csv_document(&response);
    assert_eq!(
        csv,
        "input,success,crashed,escape_detected,escape_summary,error,execution_time_ms\n\
         \"a\"\"b\",true,false,false,\"\",\"\",42\n\
         \"a\"\"b\",false,true,true,\"2 thread(s)\",\"Panic: said \"\"no\"\"\",42\n"
    );
}

#[test]
fn summary_document_lists_counts_findings_and_runs() {
    let response = session(
        vec![
            (Outcome::Completed("fine".to_string()), vec![1]),
            (Outcome::TimedOut, vec![1, 8]),
        ],
        "x",
    );
    let generator = ReportGenerator::new("logs".to_string());
    let text = generator.summary_document(&response, "t.py:leak", "2024-05-06 07:08:09");
    let expected = "# Escape Analysis Report\n\n\
**Target:** `t.py:leak`\n\
**Language:** python\n\
**Analyzer Version:** 2.1.0\n\
**Session ID:** sid\n\
**Generated:** 2024-05-06 07:08:09\n\
\n## Summary\n\n\
| Metric | Value |\n\
|--------|-------|\n\
| Total Tests | 2 |\n\
| Successes | 1 ✓ |\n\
| Crashes | 1 ✗ |\n\
| Timeouts | 1 ⏱ |\n\
| Escapes Detected | 1 🚨 |\n\
| Genuine Escapes | 0 |\n\
\n## Vulnerabilities\n\n\
⚠️ **1 vulnerabilities found:**\n\n\
1. **[HIGH]** concurrent_escape - Input: `x`\n\
\n\n## Test Results\n\n\
| Input | Status | Escape | Details |\n\
|-------|--------|--------|----------|\n\
| `x` | ✅ OK | ✓ NO |  |\n\
| `x` | ❌ CRASH | 🚨 YES | 1 thread(s) |\n\
\n";
    assert_eq!(text, expected);
    let files = generator.documents(&response, "t.py:leak", "2024-05-06 07:08:09");
    let names: Vec<&str> = files.iter().map(|f| f.name.as_str()).collect();
    assert_eq!(names, vec!["README.md", "results.csv", "vulnerabilities.md"]);
    assert_eq!(files[0].content, expected);
    assert_eq!(generator.session_dir_name("20240506_070809"), "session_20240506_070809");
}

#[test]
fn a_session_without_findings_has_two_documents() {
    let response = session(vec![(Outcome::Completed("fine".to_string()), vec![1])], "x");
    let generator = ReportGenerator::new("logs".to_string());
    let files = generator.documents(&response, "t", "now");
    assert_eq!(files.len(), 2);
    assert_eq!(
        generator.format_vulnerabilities(&response.vulnerabilities),
        "✅ **No vulnerabilities detected**"
    );
    assert!(files[0].content.contains("✅ **No vulnerabilities detected**"));
}

#[test]
fn escape_details_are_listed_by_kind() {
    let generator = ReportGenerator::new("logs".to_string());
    assert_eq!(
        generator.format_escape_details(&EscapeDetails::empty()),
        "No escape details available"
    );
    let mut only_other = EscapeDetails::empty();
    only_other.other.push("timer".to_string());
    assert_eq!(generator.format_escape_details(&only_other), "No escape details available");
    let details = EscapeDetails {
        threads: vec![
            ThreadEscape {
                thread_id: "140".to_string(),
                name: "worker".to_string(),
                is_daemon: true,
                state: "alive".to_string(),
                stack_trace: None,
            },
            ThreadEscape {
                thread_id: "141".to_string(),
                name: "pool-1".to_string(),
                is_daemon: false,
                state: "waiting".to_string(),
                stack_trace: Some(vec!["frame".to_string()]),
            },
        ],
        processes: vec![ProcessEscape { pid: 4321, name: "sleep".to_string(), cmdline: None }],
        async_tasks: vec![AsyncTaskEscape {
            task_id: "t1".to_string(),
            task_type: "Timeout".to_string(),
            state: "active".to_string(),
        }],
        goroutines: vec![GoroutineEscape {
            goroutine_id: 18,
            state: "chan receive".to_string(),
            function: "main.leak".to_string(),
        }],
        other: vec![],
    };
    assert_eq!(
        generator.format_escape_details(&details),
        "**Threads:**\n- worker (140): alive [daemon]\n- pool-1 (141): waiting [non-daemon]\n\
         \n**Processes:**\n- PID 4321: sleep\n\
         \n**Async Tasks:**\n- Timeout: active\n\
         \n**Goroutines:**\n- #18: main.leak (chan receive)\n"
    );
    let only_tasks = EscapeDetails {
        threads: vec![],
        processes: vec![],
        async_tasks: details.async_tasks.clone(),
        goroutines: vec![],
        other: vec![],
    };
    assert_eq!(
        generator.format_escape_details(&only_tasks),
        "\n**Async Tasks:**\n- Timeout: active\n"
    );
}

#[test]
fn findings_document_has_a_section_for_each_finding() {
    let response = session(vec![(Outcome::Completed("v".to_string()), vec![1, 5])], "in");
    let text = ReportGenerator::new("logs".to_string()).vulnerability_document(&response);
    assert_eq!(
        text,
        "# Vulnerability Report\n\n\
## Vulnerability #1 - concurrent_escape\n\n\
**Type:** `concurrent_escape`\n\
**Severity:** HIGH\n\
**Input:** `in`\n\n\
**Description:**\nThread left behind\n\n\
**Escape Details:**\n\
**Threads:**\n- thread_5 (5): unknown [non-daemon]\n\
\n\n---\n\n"
    );
}

#[test]
fn printed_summary_of_a_run() {
    let response = session(
        vec![
            (Outcome::Completed("fine".to_string()), vec![1]),
            (Outcome::Faulted("x".to_string()), vec![1, 8]),
        ],
        "x",
    );
    let text = render_summary(&response, "50.0");
    let expected = "\n╔════════════════════════════════════════════╗\n\
║           Analysis Summary                 ║\n\
╚════════════════════════════════════════════╝\n\
\nLanguage: python\n\
Analysis Mode: Dynamic\n\
\n--- Dynamic Analysis Results ---\n\
Total Tests: 2\n\
Successes: 1 ✓\n\
Crashes: 1 ✗\n\
Timeouts: 0 ⏱\n\
Escapes Detected: 1 🚨\n\
Genuine Escapes: 1\n\
Crash Rate: 50.0%\n\
\n⚠️  VULNERABILITIES FOUND:\n   • [HIGH] concurrent_escape - Thread left behind\n\
\n";
    assert_eq!(text, expected);
    let clean = session(vec![(Outcome::Completed("fine".to_string()), vec![1])], "x");
    assert!(render_summary(&clean, "0.0").ends_with(
        "Crash Rate: 0.0%\n\n✅ No runtime vulnerabilities detected\n\n"
    ));
}

#[test]
fn printed_summary_of_a_scan() {
    let source = "fn leak() {\n    let handle = thread::spawn(|| {});\n    let v = Vec::new();\n    return v;\n}\n";
    let scan = RustStaticAnalyzer::new().analyze_source("leak.rs:leak", "leak.rs", source, 15);
    let response = graphene_ha::orchestrator::session::static_response_with(
        "sid".to_string(),
        "rust".to_string(),
        AnalysisMode::Static,
        scan,
    );
    let text = render_summary(&response, "0.0");
    let expected = "\n╔════════════════════════════════════════════╗\n\
║           Analysis Summary                 ║\n\
╚════════════════════════════════════════════╝\n\
\nLanguage: rust\n\
Analysis Mode: Static\n\
\n--- Static Analysis Results ---\n\
Target: leak.rs:leak\n\
Source File: leak.rs\n\
Analysis Time: 15ms\n\
\nEscape Summary:\n\
\x20 Total Escapes: 4\n\
\x20 🚨 Concurrency Escapes: 2\n\
\x20 ↩  Return Escapes: 1\n\
\x20 💾 Heap Escapes: 1\n\
\nConfidence Breakdown:\n\
\x20 High: 3\n\
\x20 Medium: 1\n\
\x20 Low: 0\n\
\n";
    assert_eq!(text, expected);
    let missing = RustStaticAnalyzer::new().analyze_source("leak.rs:gone", "leak.rs", source, 1);
    let response = graphene_ha::orchestrator::session::static_response_with(
        "sid".to_string(),
        "rust".to_string(),
        AnalysisMode::Static,
        missing,
    );
    assert!(render_summary(&response, "0.0").ends_with(
        "\n⚠️  Warnings:\n  • Target function 'gone' not found in source file\n  • No Rust escapes detected by heuristic analyzer\n\n"
    ));
}

#[test]
fn analyzers_are_listed_with_their_features_on_request() {
    let info = AnalyzerInfo {
        name: "Go Escape Analyzer".to_string(),
        language: "go".to_string(),
        version: "1.0.0".to_string(),
        supported_features: vec!["goroutine_detection".to_string(), "channel_tracking".to_string()],
        executable_path: "/usr/bin/go".to_string(),
    };
    assert_eq!(
        render_listing(&info, false),
        "🔹 Go Escape Analyzer (go)\n   Version: 1.0.0\n   Executable: /usr/bin/go\n\n"
    );
    assert_eq!(
        render_listing(&info, true),
        "🔹 Go Escape Analyzer (go)\n   Version: 1.0.0\n   Executable: /usr/bin/go\n   Supported Features:\n     • goroutine_detection\n     • channel_tracking\n\n"
    );
}
