use graphene_ha::analyzer::go::GoAnalyzer;
use graphene_ha::analyzer::java::JavaAnalyzer;
use graphene_ha::analyzer::nodejs::NodeJsAnalyzer;
use graphene_ha::analyzer::python::PythonAnalyzer;
use graphene_ha::analyzer::rust::RustAnalyzer;
use graphene_ha::analyzer::{
    owned, Analyzer, AnalyzerRegistry, BridgeAnalyzer, HealthPlan, TargetRule,
};
use graphene_ha::error::EscapeError;

fn rules() -> Vec<TargetRule> {
    vec![
        TargetRule::Python,
        TargetRule::Java,
        TargetRule::NodeJs,
        TargetRule::Go,
        TargetRule::Rust,
    ]
}

fn accepting(target: &str) -> Vec<TargetRule> {
    rules().into_iter().filter(|r| r.test(target)).collect()
}

fn registry() -> AnalyzerRegistry {
    let mut r = AnalyzerRegistry::new();
    r.register(PythonAnalyzer::new("python3".to_string(), "b.py".to_string()).bridge());
    r.register(JavaAnalyzer::new("java".to_string(), "b.jar".to_string()).bridge());
    r.register(NodeJsAnalyzer::new("node".to_string(), "b.js".to_string()).bridge());
    r.register(GoAnalyzer::new("go".to_string(), "bin/go-probe".to_string()).bridge());
    r.register(RustAnalyzer::new("bin/rust-probe".to_string()).bridge());
    r
}

#[test]
fn exactly_one_rule_accepts_a_target_with_one_canonical_extension() {
    assert_eq!(accepting("tests/python/thread.py"), vec![TargetRule::Python]);
    assert_eq!(accepting("src/Demo.java"), vec![TargetRule::Java]);
    assert_eq!(accepting("lib/leak.js"), vec![TargetRule::NodeJs]);
    assert_eq!(accepting("cmd/leak.go"), vec![TargetRule::Go]);
    assert_eq!(accepting("src/leak.rs"), vec![TargetRule::Rust]);
}

#[test]
fn rules_by_their_other_clauses() {
    assert_eq!(accepting("module_without_dot"), vec![TargetRule::Python]);
    assert_eq!(accepting("app.jar:com.Demo:run"), vec![TargetRule::Java]);
    assert_eq!(accepting("leak.mjs"), vec![TargetRule::NodeJs]);
    assert_eq!(accepting("leak.cjs"), vec![TargetRule::NodeJs]);
    assert_eq!(accepting("a.b::leak"), vec![TargetRule::Rust]);
    assert_eq!(accepting("a.txt"), Vec::<TargetRule>::new());
    assert_eq!(accepting("crate::leak.py"), vec![TargetRule::Python, TargetRule::Rust]);
    assert_eq!(accepting("x.jar:a.py"), vec![TargetRule::Python, TargetRule::Java]);
}

#[test]
fn registry_picks_the_first_analyzer_that_matches() {
    let r = registry();
    assert_eq!(r.list_analyzers().len(), 5);
    assert_eq!(r.find_index("anything", Some("go")), Some(3));
    assert_eq!(r.find_index("x.py", Some("rust")), Some(4));
    assert_eq!(r.find_index("x.py", None), Some(0));
    assert_eq!(r.find_index("crate::leak.py", None), Some(0));
    assert_eq!(r.find_index("crate::leak", None), Some(0));
    assert_eq!(r.find_index("a.b::leak", None), Some(4));
    assert_eq!(r.find_index("x.txt", None), None);
    assert_eq!(r.find_index("x.py", Some("cobol")), None);
    assert_eq!(r.find_analyzer("Demo.java", None).unwrap().language(), "java");
    match r.find_analyzer("x.txt", None) {
        Err(e) => assert_eq!(e.message(), "No analyzer found for target: x.txt"),
        Ok(_) => panic!("no analyzer takes a text file"),
    }
    let mut twice = AnalyzerRegistry::new();
    twice.register(GoAnalyzer::new("go-a".to_string(), "a".to_string()).bridge());
    twice.register(GoAnalyzer::new("go-b".to_string(), "b".to_string()).bridge());
    assert_eq!(twice.find_analyzer("x.go", None).unwrap().analyzer_info.executable_path, "go-a");
    assert!(AnalyzerRegistry::new().find_index("x.go", None).is_none());
}

#[test]
fn analyzers_describe_themselves() {
    let p = PythonAnalyzer::new("python3".to_string(), "/w/analyzers/python-bridge/analyzer_bridge.py".to_string());
    assert_eq!(p.language(), "python");
    assert!(p.can_handle("a.py") && p.can_handle("module") && !p.can_handle("a.go"));
    let info = p.info();
    assert_eq!(info.name, "Python Escape Analyzer");
    assert_eq!(info.language, "python");
    assert_eq!(info.version, "1.0.0");
    assert_eq!(info.executable_path, "python3");
    assert_eq!(
        info.supported_features,
        owned(vec![
            "thread_detection",
            "process_detection",
            "daemon_thread_distinction",
            "multiprocessing_pools",
            "executor_services",
        ])
    );
    assert_eq!(
        p.bridge_command(),
        owned(vec!["python3", "/w/analyzers/python-bridge/analyzer_bridge.py"])
    );
    assert_eq!(
        p.health_command(),
        Some(owned(vec!["python3", "-c", "import sys; print(sys.version)"]))
    );
    assert_eq!(PythonAnalyzer::interpreter_candidates(), (vec!["python3", "python", "py"], "--version"));
    assert_eq!(
        PythonAnalyzer::bridge_location(),
        vec!["analyzers", "python-bridge", "analyzer_bridge.py"]
    );
    let j = JavaAnalyzer::new("java".to_string(), "b.jar".to_string());
    assert_eq!(j.bridge_command(), owned(vec!["java", "-jar", "b.jar"]));
    assert_eq!(j.health_command(), Some(owned(vec!["java", "-version"])));
    assert_eq!(j.info().supported_features.len(), 5);
    assert!(j.can_handle("x.jar:A:b"));
    let n = NodeJsAnalyzer::new("node".to_string(), "b.js".to_string());
    assert_eq!(n.language(), "javascript");
    assert_eq!(n.info().name, "Node.js Escape Analyzer");
    assert_eq!(n.health_command(), Some(owned(vec!["node", "--version"])));
    assert_eq!(NodeJsAnalyzer::interpreter_candidates().0, vec!["node", "nodejs"]);
    let g = GoAnalyzer::new("go".to_string(), "probe".to_string());
    assert_eq!(g.bridge_command(), owned(vec!["probe"]));
    assert_eq!(g.health_command(), Some(owned(vec!["go", "version"])));
    assert_eq!(g.info().supported_features.len(), 4);
    assert_eq!(g.info().executable_path, "go");
    let r = RustAnalyzer::new("probe".to_string());
    assert_eq!(r.health_command(), None);
    assert_eq!(r.info().executable_path, "probe");
    assert_eq!(
        RustAnalyzer::bridge_location(),
        vec!["analyzers", "rust-bridge", "target", "release", "rust-analyzer"]
    );
    assert!(r.can_handle("a::b") && r.can_handle("a.rs"));
}

#[test]
fn probes_are_started_and_checked_by_their_commands() {
    let java = JavaAnalyzer::new("java".to_string(), "b.jar".to_string()).bridge();
    assert_eq!(
        java.bridge_invocation().unwrap(),
        ("java".to_string(), owned(vec!["-jar", "b.jar"]))
    );
    match java.health_plan().unwrap() {
        HealthPlan::Run(program, args) => {
            assert_eq!(program, "java");
            assert_eq!(args, owned(vec!["-version"]));
        }
        other => panic!("unexpected {:?}", other),
    }
    let plan = java.health_plan().unwrap();
    let healthy = java.health_outcome(&plan, true).unwrap();
    assert_eq!(healthy.pong, "healthy");
    assert_eq!(healthy.analyzer_info.name, "Java Escape Analyzer");
    assert_eq!(
        java.health_outcome(&plan, false).unwrap_err().message(),
        "java health check failed"
    );
    let rust = RustAnalyzer::new("bin/probe".to_string()).bridge();
    let plan = rust.health_plan().unwrap();
    assert!(matches!(&plan, HealthPlan::CheckBinary(b) if b == "bin/probe"));
    assert_eq!(
        rust.health_outcome(&plan, false).unwrap_err().message(),
        "rust analyzer binary not found at: bin/probe"
    );
    assert_eq!(
        rust.bridge_failure("trace\nback").message(),
        "rust analyzer failed: trace\nback"
    );
    let info = rust.info();
    let empty = BridgeAnalyzer::new("go".to_string(), vec![], None, info.duplicate(), TargetRule::Go);
    assert_eq!(
        empty.bridge_invocation().unwrap_err().message(),
        "Empty bridge command for go analyzer"
    );
    let plan = empty.health_plan().unwrap();
    assert!(matches!(plan, HealthPlan::Nothing));
    assert!(empty.health_outcome(&plan, false).is_ok());
    let unchecked = BridgeAnalyzer::new("go".to_string(), vec![], Some(vec![]), info, TargetRule::Go);
    assert_eq!(
        unchecked.health_plan().unwrap_err().message(),
        "Empty health check command"
    );
}

#[test]
fn every_failure_has_its_words() {
    let cases: Vec<(EscapeError, &str)> = vec![
        (EscapeError::InvalidTarget, "Invalid target format. Expected module:function"),
        (EscapeError::ScanFailed("e".to_string()), "Analysis error: e"),
        (EscapeError::UnknownLanguage("t".to_string()), "Unable to detect language from target: t"),
        (
            EscapeError::NoStaticAnalyzer("cobol".to_string()),
            "No static analyzer available for language: cobol",
        ),
        (
            EscapeError::ToolchainMissing("go".to_string()),
            "Static analyzer for go is not available (missing tools)",
        ),
        (EscapeError::NoAnalyzer("t".to_string()), "No analyzer found for target: t"),
        (EscapeError::EmptyBridgeCommand("go".to_string()), "Empty bridge command for go analyzer"),
        (EscapeError::EmptyHealthCommand, "Empty health check command"),
        (EscapeError::HealthCheckFailed("go".to_string()), "go health check failed"),
        (
            EscapeError::BinaryMissing("go".to_string(), "p".to_string()),
            "go analyzer binary not found at: p",
        ),
        (EscapeError::BridgeFailed("go".to_string(), "err".to_string()), "go analyzer failed: err"),
        (EscapeError::NothingAnalyzed, "No analysis was performed"),
    ];
    for (error, words) in cases {
        assert_eq!(error.message(), words);
    }
}
