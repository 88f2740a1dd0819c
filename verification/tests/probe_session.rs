use graphene_ha::orchestrator::session::{
    bulk_request, combine, merge_responses, new_request, request_with, runs_dynamic,
    runs_static, static_response, static_response_with,
};
use graphene_ha::probe::{
    classify, count_details, escaped_threads, thread_details, thread_escape, Outcome,
    ProbeSession, SETTLE_GRACE_MS,
};
use graphene_ha::protocol::{
    AnalysisMode, AnalyzeResponse, AsyncTaskEscape, EscapeDetails, GoroutineEscape,
    ProcessEscape,
};
use graphene_ha::static_analyzer::rust::RustStaticAnalyzer;

fn request(inputs: &[&str], repeat: usize, timeout_ms: u64, mode: AnalysisMode) -> graphene_ha::protocol::AnalyzeRequest {
    let inputs: Vec<String> = inputs.iter().map(|s| s.to_string()).collect();
    request_with(
        "session-1".to_string(),
        "tests/python/thread.py:leak",
        &inputs,
        repeat,
        timeout_ms,
        mode,
    )
}

fn run_python_leak(timeout_ms: u64, outcome: Outcome) -> AnalyzeResponse {
    let req = request(&["x"], 1, timeout_ms, AnalysisMode::Dynamic);
    let mut session = ProbeSession::new(&req, "python", "1.0.0", "Python concurrency escape detected");
    assert_eq!(session.next_input(), Some("x".to_string()));
    session.record(outcome, 12, thread_details(&vec![1, 2], &vec![1, 2, 77]));
    assert!(session.is_complete());
    assert_eq!(session.next_input(), None);
    session.finish(None)
}

#[test]
fn python_escape_detected_dynamic() {
    let response = run_python_leak(2000, Outcome::Completed("done".to_string()));
    assert_eq!(response.results.len(), 1);
    assert!(response.results[0].escape_detected);
    assert!(response.results[0].success);
    assert!(!response.results[0].crashed);
    assert_eq!(response.results[0].output, "done");
    assert_eq!(response.results[0].error, "");
    assert_eq!(response.results[0].input_data, "x");
    assert_eq!(response.results[0].execution_time_ms, 12);
    assert_eq!(response.results[0].escape_details.threads.len(), 1);
    assert_eq!(response.results[0].escape_details.threads[0].thread_id, "77");
    assert_eq!(response.vulnerabilities.len(), 1);
    assert_eq!(response.vulnerabilities[0].vulnerability_type, "concurrent_escape");
    assert_eq!(response.vulnerabilities[0].severity, "high");
    assert_eq!(response.vulnerabilities[0].input, "x");
    assert_eq!(response.vulnerabilities[0].description, "Python concurrency escape detected");
    assert_eq!(response.vulnerabilities[0].escape_details.threads[0].name, "thread_77");
    assert_eq!(response.summary.escapes, 1);
    assert_eq!(response.summary.genuine_escapes, 1);
    assert_eq!(response.summary.total_tests, 1);
    assert_eq!(response.summary.successes, 1);
    assert_eq!(response.session_id, "session-1");
    assert_eq!(response.language, "python");
    assert_eq!(response.analyzer_version, "1.0.0");
    assert_eq!(response.analysis_mode, AnalysisMode::Dynamic);
    assert!(response.static_analysis.is_none());
    assert!(response.error.is_none());
}

#[test]
fn timeout_path() {
    let response = run_python_leak(10, Outcome::TimedOut);
    assert!(response.results[0].crashed);
    assert!(!response.results[0].success);
    assert!(response.results[0].error.contains("Timeout"));
    assert_eq!(response.results[0].error, "Timeout exceeded");
    assert_eq!(response.results[0].output, "");
    assert!(response.results[0].escape_detected);
    assert_eq!(response.summary.timeouts, 1);
    assert_eq!(response.summary.crashes, 1);
    assert_eq!(response.summary.escapes, 1);
    assert_eq!(response.summary.genuine_escapes, 0);
    assert_eq!(response.vulnerabilities.len(), 1);
}

#[test]
fn a_fault_that_speaks_of_a_timeout_is_no_timeout() {
    let response = run_python_leak(2000, Outcome::Faulted("Timeout while connecting".to_string()));
    assert!(response.results[0].crashed);
    assert_eq!(response.results[0].error, "Panic: Timeout while connecting");
    assert_eq!(response.summary.timeouts, 0);
    assert_eq!(response.summary.crashes, 1);
    assert_eq!(response.summary.genuine_escapes, 1);
}

#[test]
fn clean_function() {
    let inputs = vec!["a".to_string()];
    let req = request_with("s".to_string(), "tests/go/clean.go:ok", &inputs, 3, 5000, AnalysisMode::Dynamic);
    let mut session = ProbeSession::new(&req, "go", "1.0.0", "Go concurrency escape detected");
    let mut runs = 0;
    while let Some(input) = session.next_input() {
        assert_eq!(input, "a");
        session.record(Outcome::Completed(input), 1, thread_details(&vec![4, 5], &vec![5, 4]));
        runs += 1;
    }
    assert_eq!(runs, 3);
    let response = session.finish(None);
    assert_eq!(response.summary.successes, 3);
    assert_eq!(response.summary.escapes, 0);
    assert_eq!(response.summary.genuine_escapes, 0);
    assert_eq!(response.summary.crashes, 0);
    assert_eq!(response.summary.total_tests, 3);
    assert!(response.vulnerabilities.is_empty());
    assert!(response.results.iter().all(|r| !r.escape_detected && r.escape_details.is_empty()));
}

#[test]
fn a_complete_session_runs_each_input_as_often_as_asked_in_order() {
    let req = request(&["a", "b"], 3, 5000, AnalysisMode::Dynamic);
    let mut session = ProbeSession::new(&req, "rust", "1.0.0", "Rust concurrency escape detected");
    let mut k: u32 = 0;
    while let Some(input) = session.next_input() {
        let outcome = match k % 3 {
            0 => Outcome::Completed(format!("out-{}", input)),
            1 => Outcome::Faulted("bad".to_string()),
            _ => Outcome::TimedOut,
        };
        let after = if k % 2 == 0 { vec![1, 100 + k] } else { vec![1] };
        session.record(outcome, k as u64, thread_details(&vec![1], &after));
        k += 1;
    }
    let response = session.finish(Some("no loader".to_string()));
    assert_eq!(response.error.as_deref(), Some("no loader"));
    assert_eq!(response.summary.total_tests, response.results.len());
    assert_eq!(response.results.len(), 2 * 3);
    let order: Vec<&str> = response.results.iter().map(|r| r.input_data.as_str()).collect();
    assert_eq!(order, vec!["a", "a", "a", "b", "b", "b"]);
    assert!(response.summary.genuine_escapes <= response.summary.escapes);
    assert_eq!(response.summary.successes, 2);
    assert_eq!(response.summary.crashes, 4);
    assert_eq!(response.summary.timeouts, 2);
    assert_eq!(response.summary.escapes, 3);
    assert_eq!(response.summary.genuine_escapes, 2);
    for r in &response.results {
        assert!(!(r.success && r.crashed));
        assert!(r.success || r.crashed);
        assert_eq!(r.escape_detected, !r.escape_details.is_empty());
    }
    let escaped: Vec<(String, String)> = response
        .results
        .iter()
        .filter(|r| r.escape_detected)
        .map(|r| (r.input_data.clone(), r.escape_details.threads[0].thread_id.clone()))
        .collect();
    let found: Vec<(String, String)> = response
        .vulnerabilities
        .iter()
        .map(|v| (v.input.clone(), v.escape_details.threads[0].thread_id.clone()))
        .collect();
    assert_eq!(response.vulnerabilities.len(), escaped.len());
    assert_eq!(found, escaped);
    assert_eq!(
        found,
        vec![
            ("a".to_string(), "100".to_string()),
            ("a".to_string(), "102".to_string()),
            ("b".to_string(), "104".to_string()),
        ]
    );
}

#[test]
fn a_session_without_repeats_or_inputs_is_complete_at_once() {
    let req = request(&["a"], 0, 5000, AnalysisMode::Dynamic);
    let session = ProbeSession::new(&req, "rust", "1.0.0", "d");
    assert!(session.is_complete());
    let response = session.finish(None);
    assert_eq!(response.summary.total_tests, 0);
    assert!(response.results.is_empty());
    let req = request(&[], 4, 5000, AnalysisMode::Dynamic);
    let session = ProbeSession::new(&req, "rust", "1.0.0", "d");
    assert!(session.is_complete());
    assert_eq!(session.next_input(), None);
}

#[test]
fn new_threads_are_those_seen_after_and_not_before() {
    assert_eq!(escaped_threads(&vec![1, 2], &vec![2, 3, 3, 4, 1, 3]), vec![3, 4]);
    assert_eq!(escaped_threads(&vec![], &vec![]), Vec::<u32>::new());
    assert_eq!(escaped_threads(&vec![9], &vec![9, 9]), Vec::<u32>::new());
    let t = thread_escape(4096);
    assert_eq!(t.thread_id, "4096");
    assert_eq!(t.name, "thread_4096");
    assert!(!t.is_daemon);
    assert_eq!(t.state, "unknown");
    assert!(t.stack_trace.is_none());
    assert_eq!(thread_escape(0).thread_id, "0");
    assert_eq!(thread_escape(u32::MAX).name, "thread_4294967295");
    let d = thread_details(&vec![1], &vec![1, 2, 3]);
    assert_eq!(d.threads.len(), 2);
    assert!(d.processes.is_empty() && d.async_tasks.is_empty());
    assert!(d.goroutines.is_empty() && d.other.is_empty());
}

#[test]
fn escape_witness_covers_all_five_kinds() {
    let mut d = EscapeDetails::empty();
    assert!(d.is_empty());
    assert_eq!(d.summary(), "");
    assert!(!classify("i", Outcome::Completed(String::new()), 0, d.duplicate()).escape_detected);
    d.other.push("timer".to_string());
    assert!(!d.is_empty());
    assert_eq!(d.summary(), "1 other");
    assert!(classify("i", Outcome::Completed(String::new()), 0, d.duplicate()).escape_detected);
    d.processes.push(ProcessEscape { pid: 7, name: "sh".to_string(), cmdline: None });
    d.async_tasks.push(AsyncTaskEscape {
        task_id: "1".to_string(),
        task_type: "Task".to_string(),
        state: "pending".to_string(),
    });
    d.async_tasks.push(AsyncTaskEscape {
        task_id: "2".to_string(),
        task_type: "Task".to_string(),
        state: "pending".to_string(),
    });
    d.goroutines.push(GoroutineEscape {
        goroutine_id: 18,
        state: "running".to_string(),
        function: "main.leak".to_string(),
    });
    d.threads.push(thread_escape(5));
    d.threads.push(thread_escape(6));
    d.threads.push(thread_escape(7));
    assert_eq!(
        d.summary(),
        "3 thread(s), 1 process(es), 2 async task(s), 1 goroutine(s), 1 other"
    );
    let copy = d.duplicate();
    assert_eq!(copy.threads.len(), 3);
    assert_eq!(copy.threads[2].name, "thread_7");
    assert_eq!(copy.processes[0].pid, 7);
    assert_eq!(copy.async_tasks[1].task_id, "2");
    assert_eq!(copy.goroutines[0].function, "main.leak");
    assert_eq!(copy.other, vec!["timer".to_string()]);
}

#[test]
fn modes_choose_scan_and_run() {
    assert!(runs_static(AnalysisMode::Static) && !runs_dynamic(AnalysisMode::Static));
    assert!(!runs_static(AnalysisMode::Dynamic) && runs_dynamic(AnalysisMode::Dynamic));
    assert!(runs_static(AnalysisMode::Both) && runs_dynamic(AnalysisMode::Both));
    assert_eq!(AnalysisMode::default(), AnalysisMode::Dynamic);
}

const DETACHED: &str = "pub fn spawn_detached_thread(input: String) -> String {\n    thread::spawn(move || {});\n    input\n}\n";

fn scan() -> graphene_ha::protocol::StaticAnalysisResult {
    RustStaticAnalyzer::new().analyze_source(
        "tests/rust/advanced_escapes.rs:spawn_detached_thread",
        "tests/rust/advanced_escapes.rs",
        DETACHED,
        3,
    )
}

#[test]
fn static_only_response_has_no_runs() {
    let response = static_response_with(
        "id".to_string(),
        "rust".to_string(),
        AnalysisMode::Static,
        scan(),
    );
    assert!(response.static_analysis.as_ref().unwrap().summary.concurrency_escapes >= 1);
    assert!(response.results.is_empty());
    assert!(response.vulnerabilities.is_empty());
    assert_eq!(response.summary.total_tests, 0);
    assert_eq!(response.analyzer_version, "1.0.0-static");
    assert_eq!(response.language, "rust");
    assert_eq!(response.session_id, "id");
    let only = combine(Some(response), None).unwrap();
    assert_eq!(only.analysis_mode, AnalysisMode::Static);
    assert!(only.static_analysis.is_some());
}

#[test]
fn both_modes() {
    let scanned = static_response("rust".to_string(), AnalysisMode::Both, scan());
    let inputs = vec!["a".to_string()];
    let req = new_request(
        "tests/rust/advanced_escapes.rs:spawn_detached_thread",
        &inputs,
        1,
        5000,
        AnalysisMode::Both,
    );
    let mut session = ProbeSession::new(&req, "rust", "1.0.0", "Rust concurrency escape detected");
    session.record(Outcome::Completed("ok".to_string()), 3, thread_details(&vec![1], &vec![1, 2]));
    let ran = session.finish(None);
    let scan_id = scanned.session_id.clone();
    let response = combine(Some(scanned), Some(ran)).unwrap();
    assert!(response.static_analysis.is_some());
    assert_eq!(response.static_analysis.as_ref().unwrap().escapes.len(), 1);
    assert_eq!(response.results.len(), 1);
    assert_eq!(response.summary.total_tests, 1);
    assert_eq!(response.summary.successes, 1);
    assert_eq!(response.summary.escapes, 1);
    assert_eq!(response.vulnerabilities.len(), 1);
    assert_eq!(response.session_id, scan_id);
    assert_eq!(response.analyzer_version, "1.0.0-static");
    assert_eq!(response.analysis_mode, AnalysisMode::Both);
}

#[test]
fn merging_keeps_the_findings_of_the_scan_before_those_of_the_run() {
    let mut first = run_python_leak(2000, Outcome::Completed("1".to_string()));
    first.vulnerabilities[0].description = "earlier".to_string();
    let second = run_python_leak(2000, Outcome::TimedOut);
    let merged = merge_responses(first, second);
    assert_eq!(merged.vulnerabilities.len(), 2);
    assert_eq!(merged.vulnerabilities[0].description, "earlier");
    assert_eq!(merged.vulnerabilities[1].description, "Python concurrency escape detected");
    assert_eq!(merged.summary.timeouts, 1);
    assert!(merged.results[0].crashed);
}

#[test]
fn nothing_analyzed_is_an_error() {
    match combine(None, None) {
        Err(e) => assert_eq!(e.message(), "No analysis was performed"),
        Ok(_) => panic!("no analysis cannot give a response"),
    }
    let run = run_python_leak(2000, Outcome::TimedOut);
    assert_eq!(combine(None, Some(run)).unwrap().language, "python");
}

#[test]
fn requests_carry_a_fresh_session_identifier() {
    let inputs = vec!["a".to_string(), "b".to_string()];
    let first = new_request("t.py:f", &inputs, 3, 2500, AnalysisMode::Dynamic);
    let second = new_request("t.py:f", &inputs, 3, 2500, AnalysisMode::Dynamic);
    assert_eq!(first.session_id.chars().count(), 36);
    assert_ne!(first.session_id, second.session_id);
    assert_ne!(first.session_id, "t.py:f");
    assert_eq!(first.target, "t.py:f");
    assert_eq!(first.inputs, inputs);
    assert_eq!(first.repeat, 3);
    assert_eq!(first.timeout_ms, 2500);
    assert!(first.options.is_empty());
    let bulk = bulk_request("x::y::z", &inputs);
    assert_eq!(bulk.repeat, 1);
    assert_eq!(bulk.timeout_ms, 5000);
    assert_eq!(bulk.analysis_mode, AnalysisMode::Dynamic);
    assert_eq!(bulk.session_id.chars().count(), 36);
}

#[test]
fn a_grown_thread_count_is_noted() {
    assert!(count_details(4, 4).is_empty());
    assert!(count_details(4, 3).is_empty());
    let d = count_details(4, 12);
    assert_eq!(d.other, vec!["Thread count increased: 4 -> 12".to_string()]);
    assert!(d.threads.is_empty());
    assert_eq!(d.summary(), "1 other");
    assert_eq!(SETTLE_GRACE_MS, 100);
}
