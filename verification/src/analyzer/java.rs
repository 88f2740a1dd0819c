//! The analyzer that runs Java targets.

use vstd::prelude::*;
use crate::analyzer::{owned, Analyzer, BridgeAnalyzer, TargetRule};
use crate::protocol::{AnalyzerInfo, AnalyzerInfoView};
use crate::text::split::strings;

verus! {

/// The analyzer that runs Java targets.
#[derive(Debug, Clone)]
pub struct JavaAnalyzer {
    pub java_path: String,
    pub bridge_jar: String,
}

impl JavaAnalyzer {
    /// The command that starts the probe.
    pub open spec fn bridge_words(&self) -> Seq<Seq<char>> {
        seq![self.java_path@, "-jar"@, self.bridge_jar@]
    }

    /// The command that checks the health of the probe.
    pub open spec fn health_words(&self) -> Option<Seq<Seq<char>>> {
        Some(seq![self.java_path@, "-version"@])
    }

    /// The analyzer with the given paths.
    pub fn new(java_path: String, bridge_jar: String) -> (r: Self)
        ensures
            r.java_path == java_path,
            r.bridge_jar == bridge_jar,
    {
        JavaAnalyzer { java_path, bridge_jar }
    }

    /// The names under which the interpreter is looked for, in order, and
    /// the argument with which each is tried.
    pub fn interpreter_candidates() -> (r: (Vec<&'static str>, &'static str))
        ensures
            r.0@.len() == 1,
            r.0@[0]@ == "java"@,
            r.1@ == "-version"@,
    {
        (vec!["java"], "-version")
    }

    /// The place of the probe under the working directory, part by part.
    pub fn bridge_location() -> (r: Vec<&'static str>)
        ensures
            r@.len() == 4,
            r@[0]@ == "analyzers"@,
            r@[1]@ == "java-bridge"@,
            r@[2]@ == "target"@,
            r@[3]@ == "escape-analyzer.jar"@,
    {
        vec!["analyzers", "java-bridge", "target", "escape-analyzer.jar"]
    }

    /// The command that starts the probe: the program and its arguments.
    pub fn bridge_command(&self) -> (r: Vec<String>)
        ensures
            strings(r@) == self.bridge_words(),
    {
        let mut cmd: Vec<String> = Vec::new();
        cmd.push(self.java_path.clone());
        cmd.push(String::from_str("-jar"));
        cmd.push(self.bridge_jar.clone());
        assert(strings(cmd@) =~= self.bridge_words());
        cmd
    }

    /// The command that checks the health of the probe, where there is one.
    pub fn health_command(&self) -> (r: Option<Vec<String>>)
        ensures
            crate::protocol::opt_texts(r) == self.health_words(),
    {
        let mut cmd: Vec<String> = Vec::new();
        cmd.push(self.java_path.clone());
        cmd.push(String::from_str("-version"));
        assert(strings(cmd@) =~= self.health_words()->0);
        Some(cmd)
    }

    /// The analyzer as one that is driven over standard streams.
    pub fn bridge(&self) -> (r: BridgeAnalyzer)
        ensures
            r.lang@ == "java"@,
            strings(r.bridge_cmd@) == self.bridge_words(),
            crate::protocol::opt_texts(r.health_cmd) == self.health_words(),
            r.analyzer_info@ == self.description(),
            r.can_handle_fn == TargetRule::Java,
    {
        BridgeAnalyzer::new(
            String::from_str("java"),
            self.bridge_command(),
            self.health_command(),
            self.info(),
            TargetRule::Java,
        )
    }
}

impl Analyzer for JavaAnalyzer {
    open spec fn language_name(&self) -> Seq<char> {
        "java"@
    }

    open spec fn handles(&self, target: Seq<char>) -> bool {
        TargetRule::Java.accepts(target)
    }

    open spec fn description(&self) -> AnalyzerInfoView {
        AnalyzerInfoView {
            name: "Java Escape Analyzer"@,
            language: "java"@,
            version: "1.0.0"@,
            supported_features: seq![
                "thread_detection"@,
                "jmx_monitoring"@,
                "thread_pools"@,
                "executor_services"@,
                "virtual_threads"@,
            ],
            executable_path: self.java_path@,
        }
    }

    fn language(&self) -> (r: &str) {
        "java"
    }

    fn can_handle(&self, target: &str) -> (r: bool) {
        TargetRule::Java.test(target)
    }

    fn info(&self) -> (r: AnalyzerInfo) {
        let supported_features = owned(
            vec![
                "thread_detection",
                "jmx_monitoring",
                "thread_pools",
                "executor_services",
                "virtual_threads",
            ],
        );
        let r = AnalyzerInfo {
            name: String::from_str("Java Escape Analyzer"),
            language: String::from_str("java"),
            version: String::from_str("1.0.0"),
            supported_features,
            executable_path: self.java_path.clone(),
        };
        assert(r@.supported_features =~= self.description().supported_features);
        r
    }
}

} // verus!
