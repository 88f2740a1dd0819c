use graphene_ha::protocol::{ConfidenceLevel, EscapeType, StaticEscape, StaticEscapeSummary};
use graphene_ha::static_analyzer::go::GoStaticAnalyzer;
use graphene_ha::static_analyzer::java::JavaStaticAnalyzer;
use graphene_ha::static_analyzer::new_finding;
use graphene_ha::static_analyzer::nodejs::{
    confidence_level, convert_analysis, escape_kind, parse_target, static_escape_from,
    JsAnalysis, JsEscape, NodeJsStaticAnalyzer,
};
use graphene_ha::static_analyzer::python::PythonStaticAnalyzer;
use graphene_ha::static_analyzer::rust::RustStaticAnalyzer;
use graphene_ha::static_analyzer::{go, java, rust};
use graphene_ha::static_analyzer::{StaticAnalyzer, StaticAnalyzerFactory, StaticEscapeAnalyzer};
use graphene_ha::error::EscapeError;

const DETACHED: &str = "use std::thread;\n\npub fn spawn_detached_thread(input: String) -> String {\n    thread::spawn(move || {\n        println!(\"{}\", input);\n    });\n    \"ok\".to_string()\n}\n";

const LEAK: &str = "fn leak() {\n    let handle = thread::spawn(|| {});\n    let v = Vec::new();\n    return v;\n}\n";

const JOINED: &str = "pub fn tidy() {\n    let handle = std::thread::spawn(|| {});\n    handle.join();\n}\n";

fn kinds(escapes: &Vec<StaticEscape>) -> Vec<EscapeType> {
    escapes.iter().map(|e| e.escape_type).collect()
}

#[test]
fn static_only_on_rust_reports_the_spawn() {
    let analyzer = RustStaticAnalyzer::new();
    let result = analyzer.analyze_source(
        "tests/rust/advanced_escapes.rs:spawn_detached_thread",
        "tests/rust/advanced_escapes.rs",
        DETACHED,
        7,
    );
    assert!(result.summary.concurrency_escapes >= 1);
    assert_eq!(result.summary.concurrency_escapes, 1);
    assert_eq!(result.summary.total_escapes, 1);
    assert_eq!(result.escapes.len(), 1);
    let e = &result.escapes[0];
    assert_eq!(e.escape_type, EscapeType::ConcurrencyEscape);
    assert_eq!(e.confidence, ConfidenceLevel::High);
    assert_eq!(e.location.line, 4);
    assert_eq!(e.location.column, 4);
    assert_eq!(e.location.file, "tests/rust/advanced_escapes.rs");
    assert_eq!(e.location.function, "spawn_detached_thread");
    assert_eq!(e.location.code_snippet.as_deref(), Some("thread::spawn(move || {"));
    assert_eq!(e.variable_name, "thread::spawn");
    assert_eq!(e.reason, "Thread spawn may leak work beyond scope");
    assert!(e.data_flow.is_empty());
    assert!(result.warnings.is_empty());
    assert_eq!(result.analysis_time_ms, 7);
    assert_eq!(result.target, "tests/rust/advanced_escapes.rs:spawn_detached_thread");
}

#[test]
fn rust_function_scan_finds_return_heap_and_unjoined_handle() {
    let mut warnings = vec![];
    let escapes =
        rust::analyze_function(LEAK, "leak.rs", "leak", &mut warnings);
    assert!(warnings.is_empty());
    assert_eq!(
        kinds(&escapes),
        vec![
            EscapeType::ConcurrencyEscape,
            EscapeType::HeapEscape,
            EscapeType::ReturnEscape,
            EscapeType::ConcurrencyEscape,
        ]
    );
    assert_eq!(escapes[0].location.line, 2);
    assert_eq!(escapes[0].location.column, 17);
    assert_eq!(escapes[1].location.line, 3);
    assert_eq!(escapes[1].location.column, 8);
    assert_eq!(escapes[1].variable_name, "v");
    assert_eq!(escapes[1].confidence, ConfidenceLevel::Medium);
    assert_eq!(escapes[1].reason, "Heap-allocated structure assigned to local variable");
    assert_eq!(escapes[2].location.line, 4);
    assert_eq!(escapes[2].location.column, 4);
    assert_eq!(escapes[2].variable_name, "v");
    assert_eq!(escapes[2].reason, "Variable 'v' returned from function");
    assert_eq!(escapes[2].location.code_snippet.as_deref(), Some("return v;"));
    assert_eq!(escapes[3].location.line, 2);
    assert_eq!(escapes[3].location.column, 0);
    assert_eq!(escapes[3].variable_name, "handle");
    assert_eq!(escapes[3].reason, "Thread/task handle 'handle' created but not joined");
    assert_eq!(escapes[3].location.code_snippet, None);
}

#[test]
fn rust_joined_handle_is_not_reported_as_unjoined() {
    let mut warnings = vec![];
    let escapes =
        rust::analyze_function(JOINED, "t.rs", "tidy", &mut warnings);
    assert_eq!(escapes.len(), 1);
    assert_eq!(escapes[0].variable_name, "std::thread::spawn");
    assert_eq!(escapes[0].location.line, 2);
}

#[test]
fn rust_missing_function_gives_warnings_and_no_escape() {
    let analyzer = RustStaticAnalyzer::new();
    let result = analyzer.analyze_source("leak.rs:absent", "leak.rs", LEAK, 0);
    assert!(result.escapes.is_empty());
    assert_eq!(
        result.warnings,
        vec![
            "Target function 'absent' not found in source file".to_string(),
            "No Rust escapes detected by heuristic analyzer".to_string(),
        ]
    );
    assert_eq!(result.summary.total_escapes, 0);
}

#[test]
fn rust_whole_file_scan_reports_each_spawn_line() {
    let analyzer = RustStaticAnalyzer::new();
    let result = analyzer.analyze_source("leak.rs", "leak.rs", LEAK, 0);
    assert_eq!(result.escapes.len(), 1);
    assert_eq!(result.escapes[0].location.function, "<module>");
    assert_eq!(result.escapes[0].location.line, 2);
    assert!(result.warnings.is_empty());
}

#[test]
fn rust_target_with_module_path_names_its_last_part() {
    assert_eq!(
        rust::parse_target_function("tests_rust::leaks::leak"),
        Some("leak".to_string())
    );
    assert_eq!(
        rust::parse_target_function("file.rs: leak "),
        Some("leak".to_string())
    );
    assert_eq!(rust::parse_target_function("file.rs:"), None);
    assert_eq!(rust::parse_target_function("file.rs"), None);
}

#[test]
fn rust_line_helpers() {
    assert_eq!(rust::extract_fn_name("pub async fn run_it(x: u8) {"), Some("run_it".to_string()));
    assert_eq!(rust::extract_fn_name("let x = 1;"), None);
    assert_eq!(rust::extract_fn_name("fn (x)"), None);
    assert_eq!(rust::sanitize_ident("abc_1-x"), Some("abc_1".to_string()));
    assert_eq!(rust::sanitize_ident("-x"), None);
    assert_eq!(
        rust::extract_params("fn f(&mut self, a: u8, mut b: &str, &c: T, a: u8)"),
        vec!["self".to_string(), "a".to_string(), "b".to_string(), "c".to_string()]
    );
    assert_eq!(rust::extract_params("fn f"), Vec::<String>::new());
    assert_eq!(rust::extract_let_binding("    let mut total = 0;"), Some("total".to_string()));
    assert_eq!(rust::extract_let_binding("let (a, b) = pair;"), None);
    assert_eq!(rust::count_braces("fn f() {{ } }}"), -1);
    assert_eq!(rust::count_braces("{ é {"), 2);
    assert!(rust::is_thread_creation("let h = tokio::spawn(async {});"));
    assert!(!rust::is_thread_creation("let h = spawn();"));
    assert_eq!(rust::extract_join_call("    my_handle.join().unwrap();"), Some("my_handle".to_string()));
    assert_eq!(rust::extract_join_call("    task.await;"), Some("task".to_string()));
    assert_eq!(rust::extract_join_call("    x.len();"), None);
    assert_eq!(rust::find_variable_line(LEAK, "leak", "handle"), Some(2));
    assert_eq!(rust::find_variable_line(LEAK, "leak", "absent"), None);
    let e = rust::detect_concurrency("  é std::thread::Builder::new()", "f.rs", 9, "g").unwrap();
    assert_eq!(e.variable_name, "std::thread::Builder");
    assert_eq!(e.reason, "Thread builder may leak work beyond scope");
    assert_eq!(e.location.column, 5);
    let e = rust::detect_concurrency("thread::Builder::new()", "f.rs", 9, "g").unwrap();
    assert_eq!(e.variable_name, "thread::Builder");
    assert!(rust::detect_concurrency("spawn()", "f.rs", 1, "g").is_none());
}

#[test]
fn go_function_scan_reports_goroutine_and_unreceived_channel() {
    let source = "package main\n\nfunc Leak() {\n\tch := make(chan int)\n\tgo func() {\n\t\tch <- 1\n\t}()\n}\n";
    let result = GoStaticAnalyzer::new().analyze_source("leak.go:Leak", "leak.go", source, 1);
    assert_eq!(result.escapes.len(), 2);
    assert_eq!(result.escapes[0].variable_name, "goroutine");
    assert_eq!(result.escapes[0].location.line, 5);
    assert_eq!(
        result.escapes[0].reason,
        "Goroutine spawned - may not complete before function return"
    );
    assert_eq!(result.escapes[0].confidence, ConfidenceLevel::High);
    assert_eq!(result.escapes[0].location.code_snippet.as_deref(), Some("go func() {"));
    assert_eq!(result.escapes[1].variable_name, "ch");
    assert_eq!(result.escapes[1].location.line, 8);
    assert_eq!(
        result.escapes[1].reason,
        "Channel 'ch' created but never received on (goroutine may leak)"
    );
    assert_eq!(result.escapes[1].confidence, ConfidenceLevel::Medium);
    assert_eq!(result.summary.concurrency_escapes, 2);
    assert_eq!(result.summary.high_confidence, 1);
    assert_eq!(result.summary.medium_confidence, 1);
    assert!(result.warnings.is_empty());
}

#[test]
fn go_clean_function_has_no_escape() {
    let source = "func ok(s string) string {\n\treturn s\n}\n";
    let result = GoStaticAnalyzer::new().analyze_source("tests/go/clean.go:ok", "clean.go", source, 0);
    assert!(result.escapes.is_empty());
    assert!(result.warnings.is_empty());
    assert_eq!(result.summary.total_escapes, 0);
}

#[test]
fn go_helpers_and_missing_function() {
    assert_eq!(go::extract_func_name("func Leak() {"), Some("Leak".to_string()));
    assert_eq!(go::extract_func_name("func (r *T) Leak() {"), None);
    assert_eq!(go::extract_func_name("func Leak[T any]() {"), None);
    assert_eq!(go::extract_channel_make("done := make(chan bool)"), Some("done".to_string()));
    assert_eq!(go::extract_channel_make("var done = make(chan bool)"), Some("done".to_string()));
    assert_eq!(go::extract_channel_make("make(chan bool)"), None);
    assert_eq!(go::extract_channel_receive("v := <-done"), Some("done".to_string()));
    assert_eq!(go::extract_channel_receive("done <- true"), Some("true".to_string()));
    assert!(go::detect_goroutine("  go work()", "a.go", 3, "<module>").is_some());
    assert!(go::detect_goroutine("  // go work()", "a.go", 3, "<module>").is_none());
    let result = GoStaticAnalyzer::new().analyze_source("a.go:Missing", "a.go", "func A() {\n}\n", 0);
    assert!(result.escapes.is_empty());
    assert_eq!(
        result.warnings,
        vec!["Target function 'Missing' not found in source file".to_string()]
    );
}

#[test]
fn java_method_scan_reports_inline_start_and_unjoined_variables() {
    let source = "public class Demo {\n    public static String leak(String input) {\n        Thread worker = new Thread(() -> {});\n        worker.start();\n        ExecutorService pool = Executors.newFixedThreadPool(2);\n        new Thread(() -> {}).start();\n        return \"ok\";\n    }\n}\n";
    let result = JavaStaticAnalyzer::new().analyze_source("Demo.java:leak", "Demo.java", source, 2);
    assert_eq!(result.escapes.len(), 3);
    assert_eq!(result.escapes[0].variable_name, "thread");
    assert_eq!(result.escapes[0].location.line, 6);
    assert_eq!(result.escapes[0].reason, "Thread created and started inline without join");
    assert_eq!(
        result.escapes[0].location.code_snippet.as_deref(),
        Some("new Thread(() -> {}).start();")
    );
    assert_eq!(result.escapes[1].variable_name, "worker");
    assert_eq!(result.escapes[1].location.line, 3);
    assert_eq!(
        result.escapes[1].reason,
        "Thread/Executor 'worker' created but not joined/shutdown"
    );
    assert_eq!(result.escapes[2].variable_name, "pool");
    assert_eq!(result.escapes[2].location.line, 5);
    assert_eq!(result.summary.concurrency_escapes, 3);
    assert_eq!(result.summary.high_confidence, 3);
    assert!(result.warnings.is_empty());
}

#[test]
fn java_joined_thread_and_shut_down_executor_are_clean() {
    let source = "class D {\n    static void tidy() {\n        Thread worker = new Thread(r);\n        worker.join();\n        ExecutorService pool = Executors.newCachedThreadPool();\n        pool.shutdown();\n    }\n}\n";
    let result = JavaStaticAnalyzer::new().analyze_source("D.java:tidy", "D.java", source, 0);
    assert!(result.escapes.is_empty());
}

#[test]
fn java_helpers_and_missing_method() {
    assert_eq!(java::extract_method_name("public static void run(int x) {"), Some("run".to_string()));
    assert_eq!(java::extract_method_name("run(x);"), None);
    assert_eq!(java::extract_method_name("int x = 3;"), None);
    assert_eq!(java::extract_thread_variable("Thread t1 = new Thread(r);"), Some("t1".to_string()));
    assert_eq!(java::extract_thread_variable("Thread new = x"), None);
    assert_eq!(
        java::extract_executor_variable("ExecutorService  pool = x;"),
        Some("pool".to_string())
    );
    assert_eq!(java::extract_join_call("t1.join();"), Some("t1".to_string()));
    assert_eq!(java::extract_join_call("t1.start();"), None);
    assert_eq!(java::extract_variable_before_dot("  a b.c()"), Some("b".to_string()));
    assert_eq!(java::extract_variable_before_dot("no dot"), None);
    let lines: Vec<String> = vec![
        "void m() {".to_string(),
        "Thread t = new Thread(r);".to_string(),
        "}".to_string(),
    ];
    assert_eq!(java::find_variable_line(&lines, "m", "t", 2), Some(2));
    assert_eq!(java::find_variable_line(&lines, "m", "t", 0), None);
    assert!(java::detect_thread_creation(" new Thread(r).start(); ", "A.java", 1, "<class>").is_some());
    assert!(java::detect_thread_creation(" new Thread(r); ", "A.java", 1, "<class>").is_none());
    let result = JavaStaticAnalyzer::new().analyze_source("A.java:gone", "A.java", "class A {}\n", 0);
    assert_eq!(
        result.warnings,
        vec!["Target method 'gone' not found in source file".to_string()]
    );
}

fn report(kind: &str, confidence: &str) -> JsEscape {
    JsEscape {
        escape_type: kind.to_string(),
        line: 3,
        column: 5,
        variable_name: "timer".to_string(),
        reason: "setInterval never cleared".to_string(),
        confidence: confidence.to_string(),
        code_snippet: Some("setInterval(f, 1)".to_string()),
    }
}

#[test]
fn javascript_reports_are_converted_with_fallbacks() {
    assert_eq!(escape_kind("return"), EscapeType::ReturnEscape);
    assert_eq!(escape_kind("parameter"), EscapeType::ParameterEscape);
    assert_eq!(escape_kind("global"), EscapeType::GlobalEscape);
    assert_eq!(escape_kind("closure"), EscapeType::ClosureEscape);
    assert_eq!(escape_kind("heap"), EscapeType::HeapEscape);
    assert_eq!(escape_kind("concurrency"), EscapeType::ConcurrencyEscape);
    assert_eq!(escape_kind("Concurrency"), EscapeType::UnknownEscape);
    assert_eq!(confidence_level("high"), ConfidenceLevel::High);
    assert_eq!(confidence_level("medium"), ConfidenceLevel::Medium);
    assert_eq!(confidence_level("certain"), ConfidenceLevel::Low);
    let e = static_escape_from(report("concurrency", "high"));
    assert_eq!(e.location.file, "");
    assert_eq!(e.location.function, "");
    assert_eq!(e.location.line, 3);
    assert_eq!(e.location.column, 5);
    assert_eq!(e.variable_name, "timer");
    let analysis = JsAnalysis {
        escapes: vec![report("concurrency", "high"), report("weird", "low")],
        success: true,
        error: None,
    };
    let result = NodeJsStaticAnalyzer::new()
        .analyze_report("leak.js:run", "leak.js", analysis, 4)
        .unwrap();
    assert_eq!(result.escapes.len(), 2);
    assert_eq!(result.escapes[0].location.file, "leak.js");
    assert_eq!(result.escapes[0].location.function, "run");
    assert_eq!(result.escapes[1].escape_type, EscapeType::UnknownEscape);
    assert_eq!(result.summary.total_escapes, 2);
    assert_eq!(result.summary.concurrency_escapes, 1);
    assert_eq!(result.summary.high_confidence, 1);
    assert_eq!(result.summary.low_confidence, 1);
}

#[test]
fn javascript_errors() {
    match parse_target("a:b:c") {
        Err(EscapeError::InvalidTarget) => {}
        other => panic!("unexpected {:?}", other),
    }
    assert_eq!(parse_target("m.js:f").unwrap(), ("m.js".to_string(), "f".to_string()));
    let failed = JsAnalysis { escapes: vec![], success: false, error: Some("boom".to_string()) };
    match convert_analysis(failed, "a.js", "f") {
        Err(e) => assert_eq!(e.message(), "Analysis error: boom"),
        Ok(_) => panic!("a failed scan must be an error"),
    }
    let silent = JsAnalysis { escapes: vec![], success: false, error: None };
    assert!(convert_analysis(silent, "a.js", "f").unwrap().is_empty());
    let r = NodeJsStaticAnalyzer::new().analyze_report(
        "nofunction",
        "a.js",
        JsAnalysis { escapes: vec![], success: true, error: None },
        0,
    );
    assert_eq!(r.unwrap_err().message(), "Invalid target format. Expected module:function");
}

#[test]
fn factory_makes_the_scanner_of_a_language_in_any_case() {
    assert!(matches!(StaticAnalyzerFactory::create("RUST"), Some(StaticAnalyzer::Rust(_))));
    assert!(matches!(StaticAnalyzerFactory::create("Java"), Some(StaticAnalyzer::Java(_))));
    assert!(matches!(StaticAnalyzerFactory::create("go"), Some(StaticAnalyzer::Go(_))));
    assert!(matches!(StaticAnalyzerFactory::create("NodeJS"), Some(StaticAnalyzer::NodeJs(_))));
    assert!(matches!(
        StaticAnalyzerFactory::create("javascript"),
        Some(StaticAnalyzer::NodeJs(_))
    ));
    assert!(matches!(StaticAnalyzerFactory::create("Python"), Some(StaticAnalyzer::Python(_))));
    assert!(StaticAnalyzerFactory::create("cobol").is_none());
    let a = StaticAnalyzerFactory::create("Rust").unwrap();
    assert_eq!(a.language(), "rust");
    assert_eq!(a.availability_command(), ("rustc", "--version"));
    assert_eq!(GoStaticAnalyzer::new().availability_command(), ("go", "version"));
    assert_eq!(JavaStaticAnalyzer::new().availability_command(), ("javac", "-version"));
    assert_eq!(NodeJsStaticAnalyzer::new().language(), "javascript");
}

#[test]
fn static_summary_counts_each_escape_once_by_kind_and_once_by_confidence() {
    let make = |kind, confidence| {
        new_finding(
            kind,
            "f",
            1,
            0,
            "g",
            None,
            "v".to_string(),
            "r".to_string(),
            confidence,
        )
    };
    let escapes = vec![
        make(EscapeType::ReturnEscape, ConfidenceLevel::High),
        make(EscapeType::UnknownEscape, ConfidenceLevel::Low),
        make(EscapeType::HeapEscape, ConfidenceLevel::Medium),
        make(EscapeType::UnknownEscape, ConfidenceLevel::High),
        make(EscapeType::ConcurrencyEscape, ConfidenceLevel::High),
        make(EscapeType::ParameterEscape, ConfidenceLevel::Low),
        make(EscapeType::GlobalEscape, ConfidenceLevel::Low),
        make(EscapeType::ClosureEscape, ConfidenceLevel::Medium),
    ];
    let s = StaticEscapeSummary::of(&escapes);
    assert_eq!(s.total_escapes, 8);
    assert_eq!(s.high_confidence + s.medium_confidence + s.low_confidence, s.total_escapes);
    assert_eq!((s.high_confidence, s.medium_confidence, s.low_confidence), (3, 2, 3));
    let by_kind = s.return_escapes
        + s.parameter_escapes
        + s.global_escapes
        + s.closure_escapes
        + s.heap_escapes
        + s.concurrency_escapes;
    assert_eq!(by_kind, s.total_escapes - 2);
    let mut t = StaticEscapeSummary::new();
    assert_eq!(t.total_escapes, 0);
    t.add_escape(&escapes[0]);
    t.add_escape(&escapes[1]);
    assert_eq!(t.total_escapes, 2);
    assert_eq!(t.return_escapes, 1);
    assert_eq!(t.high_confidence, 1);
    assert_eq!(t.low_confidence, 1);
}

#[test]
fn python_scan_finds_the_function_and_reports_nothing() {
    let source = "import threading\n\ndef leak(x):\n    threading.Thread(target=f).start()\n\nclass A:\n    async def run(self):\n        pass\n";
    let analyzer = PythonStaticAnalyzer::new();
    let found = analyzer.analyze_source("tests/python/thread.py:leak", "thread.py", source, 2);
    assert!(found.escapes.is_empty());
    assert!(found.warnings.is_empty());
    assert_eq!(found.summary.total_escapes, 0);
    assert_eq!(found.analysis_time_ms, 2);
    let nested = analyzer.analyze_source("thread.py:run", "thread.py", source, 0);
    assert!(nested.warnings.is_empty());
    let missing = analyzer.analyze_source("thread.py:gone", "thread.py", source, 0);
    assert_eq!(
        missing.warnings,
        vec!["Target function 'gone' not found in source file".to_string()]
    );
    let whole = analyzer.analyze_source("thread.py", "thread.py", source, 0);
    assert!(whole.warnings.is_empty() && whole.escapes.is_empty());
    assert_eq!(analyzer.language(), "python");
    assert_eq!(analyzer.availability_command(), ("python3", "--version"));
    assert_eq!(
        graphene_ha::static_analyzer::python::extract_def_name("  async def run (self):"),
        Some("run".to_string())
    );
    assert_eq!(graphene_ha::static_analyzer::python::extract_def_name("define x"), None);
}
