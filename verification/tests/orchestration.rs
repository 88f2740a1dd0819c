use graphene_ha::orchestrator::discovery::{
    discover_targets_for_language, gather_targets, is_usable_jar, language_directory,
    resolve_language_dir, LanguageDir, SourceFile, TargetKind,
};
use graphene_ha::orchestrator::extract::{
    extract_java_class_and_methods, extract_nodejs_exports, extract_python_functions,
    extract_rust_functions, is_valid_identifier, parse_crate_name,
};
use graphene_ha::orchestrator::inputs::{generate_inputs, seed_at};
use graphene_ha::orchestrator::language::{
    canonical_extension, detect_language_from_target, module_candidate,
    normalize_language_filter, passes_filter, resolve_source_file,
};

fn strs(v: &[&str]) -> Vec<String> {
    v.iter().map(|s| s.to_string()).collect()
}

fn file(path: &str, name: &str, stem: &str, content: &str) -> SourceFile {
    SourceFile {
        path: path.to_string(),
        name: name.to_string(),
        stem: stem.to_string(),
        content: content.to_string(),
    }
}

#[test]
fn no_inputs_asked_gives_the_one_empty_input() {
    assert_eq!(generate_inputs(0), vec![String::new()]);
}

#[test]
fn few_inputs_are_the_first_seeds_in_order() {
    assert_eq!(generate_inputs(1), strs(&[""]));
    assert_eq!(generate_inputs(5), strs(&["", "0", "-1", "1", "true"]));
    let all = generate_inputs(41);
    assert_eq!(all.len(), 41);
    assert_eq!(all[7], "undefined");
    assert_eq!(all[9], "\\x00");
    assert_eq!(all[10], "\\n");
    assert_eq!(all[13], "\"");
    assert_eq!(all[18], "..\\");
    assert_eq!(all[19], "${HOME}");
    assert_eq!(all[21], "{{7*7}}");
    assert_eq!(all[30], "concurrent");
    assert_eq!(all[31], "<script>alert(1)</script>");
    assert_eq!(all[32], "'; DROP TABLE; --");
    assert_eq!(all[33], "../../../etc/passwd");
    assert_eq!(all[34], "\\x1b[31m");
    assert_eq!(all[35], "\\u0000");
    assert_eq!(all[36], "A".repeat(1024));
    assert_eq!(all[37], "1".repeat(100));
    assert_eq!(all[38], "test".repeat(50));
    assert_eq!(all[39], " ".repeat(1000));
    assert_eq!(all[40], "\\n".repeat(100));
    assert_eq!(seed_at(8), "hello");
}

#[test]
fn more_inputs_than_seeds_are_numbered() {
    let v = generate_inputs(44);
    assert_eq!(v.len(), 44);
    assert_eq!(v[40], "\\n".repeat(100));
    assert_eq!(v[41], "input_42");
    assert_eq!(v[42], "input_43");
    assert_eq!(v[43], "input_44");
    assert_eq!(generate_inputs(120)[119], "input_120");
}

#[test]
fn input_generation_is_deterministic() {
    for count in [0usize, 1, 17, 41, 42, 60] {
        assert_eq!(generate_inputs(count), generate_inputs(count));
    }
    assert_eq!(generate_inputs(60)[..41], generate_inputs(41)[..]);
}

#[test]
fn language_is_told_from_the_target() {
    assert_eq!(detect_language_from_target("a/b.py").unwrap(), "python");
    assert_eq!(detect_language_from_target("tests/python/thread:leak").unwrap(), "python");
    assert_eq!(detect_language_from_target("Demo.java").unwrap(), "java");
    assert_eq!(detect_language_from_target("x.js").unwrap(), "javascript");
    assert_eq!(detect_language_from_target("x.mjs").unwrap(), "javascript");
    assert_eq!(detect_language_from_target("x.go").unwrap(), "go");
    assert_eq!(detect_language_from_target("x.rs").unwrap(), "rust");
    match detect_language_from_target("x.rs:leak") {
        Err(e) => assert_eq!(e.message(), "Unable to detect language from target: x.rs:leak"),
        Ok(l) => panic!("unexpected {}", l),
    }
}

#[test]
fn language_filters_are_normalized() {
    assert_eq!(normalize_language_filter("js"), "javascript");
    assert_eq!(normalize_language_filter("node"), "javascript");
    assert_eq!(normalize_language_filter("nodejs"), "javascript");
    assert_eq!(normalize_language_filter("javascript"), "javascript");
    assert_eq!(normalize_language_filter("py"), "python");
    assert_eq!(normalize_language_filter("python"), "python");
    assert_eq!(normalize_language_filter("go"), "go");
    assert_eq!(normalize_language_filter("Kotlin"), "Kotlin");
    assert!(passes_filter("javascript", Some("node")));
    assert!(!passes_filter("python", Some("node")));
    assert!(passes_filter("rust", None));
}

#[test]
fn source_files_are_resolved_from_targets() {
    assert_eq!(canonical_extension("python"), Some("py"));
    assert_eq!(canonical_extension("nodejs"), Some("js"));
    assert_eq!(canonical_extension("rust"), Some("rs"));
    assert_eq!(canonical_extension("java"), Some("java"));
    assert_eq!(canonical_extension("go"), Some("go"));
    assert_eq!(canonical_extension("cobol"), None);
    assert_eq!(resolve_source_file("whole/file.py", "py", true, true), "whole/file.py");
    assert_eq!(resolve_source_file("tests/python/thread.py:leak", "py", false, false), "tests/python/thread.py");
    assert_eq!(resolve_source_file("thread.py:leak", "py", false, true), "thread.py");
    assert_eq!(resolve_source_file("win\\thread:leak", "py", false, true), "win\\thread");
    assert_eq!(resolve_source_file("pkg.mod:leak", "py", true, true), "pkg/mod.py");
    assert_eq!(resolve_source_file("pkg.mod:leak", "py", false, true), "tests/pkg/mod.py");
    assert_eq!(resolve_source_file("pkg.mod:leak", "py", false, false), "pkg/mod.py");
    assert_eq!(resolve_source_file("pkg.mod:leak", "go", false, false), "pkg/mod.go");
    assert_eq!(module_candidate("pkg.mod:leak", "rs"), Some("pkg/mod.rs".to_string()));
    assert_eq!(module_candidate("pkg/mod.rs:leak", "rs"), None);
    assert_eq!(module_candidate("plain", "rs"), None);
}

#[test]
fn identifiers_begin_with_a_letter_or_an_underscore() {
    assert!(is_valid_identifier("a"));
    assert!(is_valid_identifier("_"));
    assert!(is_valid_identifier("_a9_Z"));
    assert!(!is_valid_identifier(""));
    assert!(!is_valid_identifier("9a"));
    assert!(!is_valid_identifier("a-b"));
    assert!(!is_valid_identifier("a b"));
    assert!(!is_valid_identifier("é"));
    assert!(!is_valid_identifier("aé"));
}

const PYTHON: &str = "import os\n\ndef leak(x):\n    pass\n\nasync def run (y):\n    pass\n\ndef _hidden():\n    pass\n  def nested():\r\ndef broken\ndef last(z): pass";

#[test]
fn python_functions_are_the_top_level_definitions() {
    assert_eq!(extract_python_functions(PYTHON), strs(&["leak", "run", "last"]));
    assert_eq!(extract_python_functions(""), Vec::<String>::new());
}

#[test]
fn rust_functions_are_the_public_top_level_functions() {
    let source = "pub fn a(x: u8) {}\npub async fn b() {}\nfn c() {}\n    pub fn d() {}\npub fn e<T>(x: T) {}\npub fn f\n";
    assert_eq!(extract_rust_functions(source), strs(&["a", "b"]));
}

#[test]
fn javascript_exports_are_gathered_once_each() {
    let source = "module.exports = { a, b: c,\n  d, a };\nexports.e = function() {};\nmodule.exports.f = 1;\n// exports.g = 1\n/* exports.h = 1 */\n * exports.i = 1\nexports.9x = 1;\nexports.e = 2;\n";
    assert_eq!(extract_nodejs_exports(source), strs(&["a", "b", "d", "e", "f"]));
    assert_eq!(extract_nodejs_exports("module.exports = { one };"), strs(&["one"]));
}

#[test]
fn java_class_and_static_methods() {
    let source = "package com.example;\n\npublic class Demo {\n    public Demo() {}\n    public static String leak(String s) {\n    }\n    private static void helper () {\n    }\n    public static Demo Demo(int x) {}\n    static int 9lives() {}\n}\n";
    assert_eq!(
        extract_java_class_and_methods(source),
        Some(("com.example.Demo".to_string(), strs(&["leak", "helper"])))
    );
    assert_eq!(
        extract_java_class_and_methods("final class Bare{\n public static void m() {}\n static void bare() {}\n}"),
        Some(("Bare".to_string(), strs(&["m"])))
    );
    assert_eq!(extract_java_class_and_methods("interface X {}\n"), None);
}

#[test]
fn crate_name_is_read_from_the_manifest() {
    assert_eq!(
        parse_crate_name("[package]\n  name = \"my-test-crate\"\nversion = \"0.1.0\"\nname = \"other\"\n"),
        Some("my_test_crate".to_string())
    );
    assert_eq!(parse_crate_name("[package]\nversion = \"1\"\n"), None);
}

#[test]
fn targets_are_named_after_file_and_function() {
    let files = vec![
        file("tests/python/__init__.py", "__init__.py", "__init__", "def setup():\n"),
        file("tests/python/thread.py", "thread.py", "thread", "def leak(x):\n    pass\ndef ok(x):\n"),
    ];
    assert_eq!(
        gather_targets(TargetKind::Python, "", &files),
        strs(&["tests/python/thread.py:leak", "tests/python/thread.py:ok"])
    );
    let js = vec![file("t/a.js", "a.js", "a", "exports.run = f;\n")];
    assert_eq!(gather_targets(TargetKind::NodeJs, "", &js), strs(&["t/a.js:run"]));
    let java = vec![
        file("src/Demo.java", "Demo.java", "Demo", "package p;\npublic class Demo {\n public static void m() {}\n}\n"),
        file("src/No.java", "No.java", "No", "// nothing\n"),
    ];
    assert_eq!(
        gather_targets(TargetKind::Java, "target/app.jar", &java),
        strs(&["target/app.jar:p.Demo:m"])
    );
    let rust = vec![
        file("src/lib.rs", "lib.rs", "lib", "pub fn hidden() {}\n"),
        file("src/run_all.rs", "run_all.rs", "run_all", "pub fn hidden() {}\n"),
        file("src/leaks.rs", "leaks.rs", "leaks", "pub fn one() {}\npub async fn two() {}\n"),
    ];
    assert_eq!(
        gather_targets(TargetKind::Rust, "tests_rust", &rust),
        strs(&["tests_rust::leaks::one", "tests_rust::leaks::two"])
    );
}

#[test]
fn bulk_discovery_skip() {
    let files = vec![file("tests/go/leak.go", "leak.go", "leak", "func Leak() {}\n")];
    let found = discover_targets_for_language("go", "tests/go", &files, None, None);
    assert!(found.targets.is_empty());
    assert!(found.warnings.len() >= 1);
    assert_eq!(
        found.warnings,
        strs(&["Go run-all is not supported (plugin loading not implemented)"])
    );
}

#[test]
fn discovery_by_language() {
    let py = vec![file("t.py", "t.py", "t", "def f():\n")];
    let found = discover_targets_for_language("python", "tests/python", &py, None, None);
    assert_eq!(found.targets, strs(&["t.py:f"]));
    assert!(found.warnings.is_empty());
    let java = vec![file("D.java", "D.java", "D", "public class D {\n public static void m() {}\n}\n")];
    let found = discover_targets_for_language("java", "tests/java", &java, None, None);
    assert!(found.targets.is_empty());
    assert_eq!(
        found.warnings,
        strs(&["Java tests skipped (missing built jar in tests/java), run mvn package"])
    );
    let found = discover_targets_for_language("java", "tests/java", &java, Some("x.jar"), None);
    assert_eq!(found.targets, strs(&["x.jar:D:m"]));
    let rs = vec![file("a.rs", "a.rs", "a", "pub fn f() {}\n")];
    let found = discover_targets_for_language("rust", "tests/rust", &rs, None, None);
    assert_eq!(found.targets, strs(&["tests_rust::a::f"]));
    let found = discover_targets_for_language("rust", "tests/rust", &rs, None, Some("my_crate"));
    assert_eq!(found.targets, strs(&["my_crate::a::f"]));
    let js = vec![file("a.js", "a.js", "a", "exports.f = 1\n")];
    let found = discover_targets_for_language("javascript", "tests/nodejs", &js, None, None);
    assert_eq!(found.targets, strs(&["a.js:f"]));
    let found = discover_targets_for_language("cobol", "tests", &js, None, None);
    assert!(found.targets.is_empty() && found.warnings.is_empty());
}

#[test]
fn directories_and_archives() {
    assert_eq!(language_directory("python"), Some(("python", "py")));
    assert_eq!(language_directory("javascript"), Some(("nodejs", "js")));
    assert_eq!(language_directory("java"), Some(("java", "java")));
    assert_eq!(language_directory("rust"), Some(("rust", "rs")));
    assert_eq!(language_directory("go"), None);
    assert_eq!(resolve_language_dir(true, false, false), LanguageDir::Subdirectory);
    assert_eq!(resolve_language_dir(false, true, true), LanguageDir::Root);
    assert_eq!(resolve_language_dir(false, true, false), LanguageDir::Missing);
    assert_eq!(resolve_language_dir(false, false, true), LanguageDir::Missing);
    assert!(is_usable_jar("escape-tests-1.0.jar"));
    assert!(!is_usable_jar("escape-tests-1.0-sources.jar"));
    assert!(!is_usable_jar("escape-tests-1.0-javadoc.jar"));
    assert!(!is_usable_jar("escape-tests-1.0.war"));
}
