//! The analyzer that runs Rust targets.

use vstd::prelude::*;
use crate::analyzer::{owned, Analyzer, BridgeAnalyzer, TargetRule};
use crate::protocol::{AnalyzerInfo, AnalyzerInfoView};
use crate::text::split::strings;

verus! {

/// The analyzer that runs Rust targets.
#[derive(Debug, Clone)]
pub struct RustAnalyzer {
    pub bridge_binary: String,
}

impl RustAnalyzer {
    /// The command that starts the probe.
    pub open spec fn bridge_words(&self) -> Seq<Seq<char>> {
        seq![self.bridge_binary@]
    }

    /// The command that checks the health of the probe.
    pub open spec fn health_words(&self) -> Option<Seq<Seq<char>>> {
        None
    }

    /// The analyzer with the given paths.
    pub fn new(bridge_binary: String) -> (r: Self)
        ensures
            r.bridge_binary == bridge_binary,
    {
        RustAnalyzer { bridge_binary }
    }

    /// The place of the probe under the working directory, part by part.
    pub fn bridge_location() -> (r: Vec<&'static str>)
        ensures
            r@.len() == 5,
            r@[0]@ == "analyzers"@,
            r@[1]@ == "rust-bridge"@,
            r@[2]@ == "target"@,
            r@[3]@ == "release"@,
            r@[4]@ == "rust-analyzer"@,
    {
        vec!["analyzers", "rust-bridge", "target", "release", "rust-analyzer"]
    }

    /// The command that starts the probe: the program and its arguments.
    pub fn bridge_command(&self) -> (r: Vec<String>)
        ensures
            strings(r@) == self.bridge_words(),
    {
        let mut cmd: Vec<String> = Vec::new();
        cmd.push(self.bridge_binary.clone());
        assert(strings(cmd@) =~= self.bridge_words());
        cmd
    }

    /// The command that checks the health of the probe, where there is one.
    pub fn health_command(&self) -> (r: Option<Vec<String>>)
        ensures
            crate::protocol::opt_texts(r) == self.health_words(),
    {
        None
    }

    /// The analyzer as one that is driven over standard streams.
    pub fn bridge(&self) -> (r: BridgeAnalyzer)
        ensures
            r.lang@ == "rust"@,
            strings(r.bridge_cmd@) == self.bridge_words(),
            crate::protocol::opt_texts(r.health_cmd) == self.health_words(),
            r.analyzer_info@ == self.description(),
            r.can_handle_fn == TargetRule::Rust,
    {
        BridgeAnalyzer::new(
            String::from_str("rust"),
            self.bridge_command(),
            self.health_command(),
            self.info(),
            TargetRule::Rust,
        )
    }
}

impl Analyzer for RustAnalyzer {
    open spec fn language_name(&self) -> Seq<char> {
        "rust"@
    }

    open spec fn handles(&self, target: Seq<char>) -> bool {
        TargetRule::Rust.accepts(target)
    }

    open spec fn description(&self) -> AnalyzerInfoView {
        AnalyzerInfoView {
            name: "Rust Escape Analyzer"@,
            language: "rust"@,
            version: "1.0.0"@,
            supported_features: seq![
                "thread_detection"@,
                "tokio_task_tracking"@,
                "async_runtime_monitoring"@,
                "panic_recovery"@,
                "scoped_thread_safety"@,
            ],
            executable_path: self.bridge_binary@,
        }
    }

    fn language(&self) -> (r: &str) {
        "rust"
    }

    fn can_handle(&self, target: &str) -> (r: bool) {
        TargetRule::Rust.test(target)
    }

    fn info(&self) -> (r: AnalyzerInfo) {
        let supported_features = owned(
            vec![
                "thread_detection",
                "tokio_task_tracking",
                "async_runtime_monitoring",
                "panic_recovery",
                "scoped_thread_safety",
            ],
        );
        let r = AnalyzerInfo {
            name: String::from_str("Rust Escape Analyzer"),
            language: String::from_str("rust"),
            version: String::from_str("1.0.0"),
            supported_features,
            executable_path: self.bridge_binary.clone(),
        };
        assert(r@.supported_features =~= self.description().supported_features);
        r
    }
}

} // verus!
