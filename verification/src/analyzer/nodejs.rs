//! The analyzer that runs JavaScript targets.

use vstd::prelude::*;
use crate::analyzer::{owned, Analyzer, BridgeAnalyzer, TargetRule};
use crate::protocol::{AnalyzerInfo, AnalyzerInfoView};
use crate::text::split::strings;

verus! {

/// The analyzer that runs JavaScript targets.
#[derive(Debug, Clone)]
pub struct NodeJsAnalyzer {
    pub node_path: String,
    pub bridge_script: String,
}

impl NodeJsAnalyzer {
    /// The command that starts the probe.
    pub open spec fn bridge_words(&self) -> Seq<Seq<char>> {
        seq![self.node_path@, self.bridge_script@]
    }

    /// The command that checks the health of the probe.
    pub open spec fn health_words(&self) -> Option<Seq<Seq<char>>> {
        Some(seq![self.node_path@, "--version"@])
    }

    /// The analyzer with the given paths.
    pub fn new(node_path: String, bridge_script: String) -> (r: Self)
        ensures
            r.node_path == node_path,
            r.bridge_script == bridge_script,
    {
        NodeJsAnalyzer { node_path, bridge_script }
    }

    /// The names under which the interpreter is looked for, in order, and
    /// the argument with which each is tried.
    pub fn interpreter_candidates() -> (r: (Vec<&'static str>, &'static str))
        ensures
            r.0@.len() == 2,
            r.0@[0]@ == "node"@,
            r.0@[1]@ == "nodejs"@,
            r.1@ == "--version"@,
    {
        (vec!["node", "nodejs"], "--version")
    }

    /// The place of the probe under the working directory, part by part.
    pub fn bridge_location() -> (r: Vec<&'static str>)
        ensures
            r@.len() == 3,
            r@[0]@ == "analyzers"@,
            r@[1]@ == "nodejs-bridge"@,
            r@[2]@ == "analyzer_bridge.js"@,
    {
        vec!["analyzers", "nodejs-bridge", "analyzer_bridge.js"]
    }

    /// The command that starts the probe: the program and its arguments.
    pub fn bridge_command(&self) -> (r: Vec<String>)
        ensures
            strings(r@) == self.bridge_words(),
    {
        let mut cmd: Vec<String> = Vec::new();
        cmd.push(self.node_path.clone());
        cmd.push(self.bridge_script.clone());
        assert(strings(cmd@) =~= self.bridge_words());
        cmd
    }

    /// The command that checks the health of the probe, where there is one.
    pub fn health_command(&self) -> (r: Option<Vec<String>>)
        ensures
            crate::protocol::opt_texts(r) == self.health_words(),
    {
        let mut cmd: Vec<String> = Vec::new();
        cmd.push(self.node_path.clone());
        cmd.push(String::from_str("--version"));
        assert(strings(cmd@) =~= self.health_words()->0);
        Some(cmd)
    }

    /// The analyzer as one that is driven over standard streams.
    pub fn bridge(&self) -> (r: BridgeAnalyzer)
        ensures
            r.lang@ == "javascript"@,
            strings(r.bridge_cmd@) == self.bridge_words(),
            crate::protocol::opt_texts(r.health_cmd) == self.health_words(),
            r.analyzer_info@ == self.description(),
            r.can_handle_fn == TargetRule::NodeJs,
    {
        BridgeAnalyzer::new(
            String::from_str("javascript"),
            self.bridge_command(),
            self.health_command(),
            self.info(),
            TargetRule::NodeJs,
        )
    }
}

impl Analyzer for NodeJsAnalyzer {
    open spec fn language_name(&self) -> Seq<char> {
        "javascript"@
    }

    open spec fn handles(&self, target: Seq<char>) -> bool {
        TargetRule::NodeJs.accepts(target)
    }

    open spec fn description(&self) -> AnalyzerInfoView {
        AnalyzerInfoView {
            name: "Node.js Escape Analyzer"@,
            language: "javascript"@,
            version: "1.0.0"@,
            supported_features: seq![
                "async_hooks"@,
                "worker_threads"@,
                "child_processes"@,
                "timers"@,
                "event_loop_monitoring"@,
            ],
            executable_path: self.node_path@,
        }
    }

    fn language(&self) -> (r: &str) {
        "javascript"
    }

    fn can_handle(&self, target: &str) -> (r: bool) {
        TargetRule::NodeJs.test(target)
    }

    fn info(&self) -> (r: AnalyzerInfo) {
        let supported_features = owned(
            vec![
                "async_hooks",
                "worker_threads",
                "child_processes",
                "timers",
                "event_loop_monitoring",
            ],
        );
        let r = AnalyzerInfo {
            name: String::from_str("Node.js Escape Analyzer"),
            language: String::from_str("javascript"),
            version: String::from_str("1.0.0"),
            supported_features,
            executable_path: self.node_path.clone(),
        };
        assert(r@.supported_features =~= self.description().supported_features);
        r
    }
}

} // verus!
