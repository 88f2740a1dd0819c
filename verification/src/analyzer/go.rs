//! The analyzer that runs Go targets.

use vstd::prelude::*;
use crate::analyzer::{owned, Analyzer, BridgeAnalyzer, TargetRule};
use crate::protocol::{AnalyzerInfo, AnalyzerInfoView};
use crate::text::split::strings;

verus! {

/// The analyzer that runs Go targets.
#[derive(Debug, Clone)]
pub struct GoAnalyzer {
    pub go_path: String,
    pub bridge_binary: String,
}

impl GoAnalyzer {
    /// The command that starts the probe.
    pub open spec fn bridge_words(&self) -> Seq<Seq<char>> {
        seq![self.bridge_binary@]
    }

    /// The command that checks the health of the probe.
    pub open spec fn health_words(&self) -> Option<Seq<Seq<char>>> {
        Some(seq![self.go_path@, "version"@])
    }

    /// The analyzer with the given paths.
    pub fn new(go_path: String, bridge_binary: String) -> (r: Self)
        ensures
            r.go_path == go_path,
            r.bridge_binary == bridge_binary,
    {
        GoAnalyzer { go_path, bridge_binary }
    }

    /// The names under which the interpreter is looked for, in order, and
    /// the argument with which each is tried.
    pub fn interpreter_candidates() -> (r: (Vec<&'static str>, &'static str))
        ensures
            r.0@.len() == 1,
            r.0@[0]@ == "go"@,
            r.1@ == "version"@,
    {
        (vec!["go"], "version")
    }

    /// The place of the probe under the working directory, part by part.
    pub fn bridge_location() -> (r: Vec<&'static str>)
        ensures
            r@.len() == 3,
            r@[0]@ == "analyzers"@,
            r@[1]@ == "go-bridge"@,
            r@[2]@ == "escape-analyzer"@,
    {
        vec!["analyzers", "go-bridge", "escape-analyzer"]
    }

    /// The command that starts the probe: the program and its arguments.
    pub fn bridge_command(&self) -> (r: Vec<String>)
        ensures
            strings(r@) == self.bridge_words(),
    {
        let mut cmd: Vec<String> = Vec::new();
        cmd.push(self.bridge_binary.clone());
        assert(strings(cmd@) =~= self.bridge_words());
        cmd
    }

    /// The command that checks the health of the probe, where there is one.
    pub fn health_command(&self) -> (r: Option<Vec<String>>)
        ensures
            crate::protocol::opt_texts(r) == self.health_words(),
    {
        let mut cmd: Vec<String> = Vec::new();
        cmd.push(self.go_path.clone());
        cmd.push(String::from_str("version"));
        assert(strings(cmd@) =~= self.health_words()->0);
        Some(cmd)
    }

    /// The analyzer as one that is driven over standard streams.
    pub fn bridge(&self) -> (r: BridgeAnalyzer)
        ensures
            r.lang@ == "go"@,
            strings(r.bridge_cmd@) == self.bridge_words(),
            crate::protocol::opt_texts(r.health_cmd) == self.health_words(),
            r.analyzer_info@ == self.description(),
            r.can_handle_fn == TargetRule::Go,
    {
        BridgeAnalyzer::new(
            String::from_str("go"),
            self.bridge_command(),
            self.health_command(),
            self.info(),
            TargetRule::Go,
        )
    }
}

impl Analyzer for GoAnalyzer {
    open spec fn language_name(&self) -> Seq<char> {
        "go"@
    }

    open spec fn handles(&self, target: Seq<char>) -> bool {
        TargetRule::Go.accepts(target)
    }

    open spec fn description(&self) -> AnalyzerInfoView {
        AnalyzerInfoView {
            name: "Go Escape Analyzer"@,
            language: "go"@,
            version: "1.0.0"@,
            supported_features: seq![
                "goroutine_detection"@,
                "runtime_monitoring"@,
                "channel_tracking"@,
                "context_cancellation"@,
            ],
            executable_path: self.go_path@,
        }
    }

    fn language(&self) -> (r: &str) {
        "go"
    }

    fn can_handle(&self, target: &str) -> (r: bool) {
        TargetRule::Go.test(target)
    }

    fn info(&self) -> (r: AnalyzerInfo) {
        let supported_features = owned(
            vec![
                "goroutine_detection",
                "runtime_monitoring",
                "channel_tracking",
                "context_cancellation",
            ],
        );
        let r = AnalyzerInfo {
            name: String::from_str("Go Escape Analyzer"),
            language: String::from_str("go"),
            version: String::from_str("1.0.0"),
            supported_features,
            executable_path: self.go_path.clone(),
        };
        assert(r@.supported_features =~= self.description().supported_features);
        r
    }
}

} // verus!
