//! The analyzer that runs Python targets.

use vstd::prelude::*;
use crate::analyzer::{owned, Analyzer, BridgeAnalyzer, TargetRule};
use crate::protocol::{AnalyzerInfo, AnalyzerInfoView};
use crate::text::split::strings;

verus! {

/// The analyzer that runs Python targets.
#[derive(Debug, Clone)]
pub struct PythonAnalyzer {
    pub python_path: String,
    pub bridge_script: String,
}

impl PythonAnalyzer {
    /// The command that starts the probe.
    pub open spec fn bridge_words(&self) -> Seq<Seq<char>> {
        seq![self.python_path@, self.bridge_script@]
    }

    /// The command that checks the health of the probe.
    pub open spec fn health_words(&self) -> Option<Seq<Seq<char>>> {
        Some(seq![self.python_path@, "-c"@, "import sys; print(sys.version)"@])
    }

    /// The analyzer with the given paths.
    pub fn new(python_path: String, bridge_script: String) -> (r: Self)
        ensures
            r.python_path == python_path,
            r.bridge_script == bridge_script,
    {
        PythonAnalyzer { python_path, bridge_script }
    }

    /// The names under which the interpreter is looked for, in order, and
    /// the argument with which each is tried.
    pub fn interpreter_candidates() -> (r: (Vec<&'static str>, &'static str))
        ensures
            r.0@.len() == 3,
            r.0@[0]@ == "python3"@,
            r.0@[1]@ == "python"@,
            r.0@[2]@ == "py"@,
            r.1@ == "--version"@,
    {
        (vec!["python3", "python", "py"], "--version")
    }

    /// The place of the probe under the working directory, part by part.
    pub fn bridge_location() -> (r: Vec<&'static str>)
        ensures
            r@.len() == 3,
            r@[0]@ == "analyzers"@,
            r@[1]@ == "python-bridge"@,
            r@[2]@ == "analyzer_bridge.py"@,
    {
        vec!["analyzers", "python-bridge", "analyzer_bridge.py"]
    }

    /// The command that starts the probe: the program and its arguments.
    pub fn bridge_command(&self) -> (r: Vec<String>)
        ensures
            strings(r@) == self.bridge_words(),
    {
        let mut cmd: Vec<String> = Vec::new();
        cmd.push(self.python_path.clone());
        cmd.push(self.bridge_script.clone());
        assert(strings(cmd@) =~= self.bridge_words());
        cmd
    }

    /// The command that checks the health of the probe, where there is one.
    pub fn health_command(&self) -> (r: Option<Vec<String>>)
        ensures
            crate::protocol::opt_texts(r) == self.health_words(),
    {
        let mut cmd: Vec<String> = Vec::new();
        cmd.push(self.python_path.clone());
        cmd.push(String::from_str("-c"));
        cmd.push(String::from_str("import sys; print(sys.version)"));
        assert(strings(cmd@) =~= self.health_words()->0);
        Some(cmd)
    }

    /// The analyzer as one that is driven over standard streams.
    pub fn bridge(&self) -> (r: BridgeAnalyzer)
        ensures
            r.lang@ == "python"@,
            strings(r.bridge_cmd@) == self.bridge_words(),
            crate::protocol::opt_texts(r.health_cmd) == self.health_words(),
            r.analyzer_info@ == self.description(),
            r.can_handle_fn == TargetRule::Python,
    {
        BridgeAnalyzer::new(
            String::from_str("python"),
            self.bridge_command(),
            self.health_command(),
            self.info(),
            TargetRule::Python,
        )
    }
}

impl Analyzer for PythonAnalyzer {
    open spec fn language_name(&self) -> Seq<char> {
        "python"@
    }

    open spec fn handles(&self, target: Seq<char>) -> bool {
        TargetRule::Python.accepts(target)
    }

    open spec fn description(&self) -> AnalyzerInfoView {
        AnalyzerInfoView {
            name: "Python Escape Analyzer"@,
            language: "python"@,
            version: "1.0.0"@,
            supported_features: seq![
                "thread_detection"@,
                "process_detection"@,
                "daemon_thread_distinction"@,
                "multiprocessing_pools"@,
                "executor_services"@,
            ],
            executable_path: self.python_path@,
        }
    }

    fn language(&self) -> (r: &str) {
        "python"
    }

    fn can_handle(&self, target: &str) -> (r: bool) {
        TargetRule::Python.test(target)
    }

    fn info(&self) -> (r: AnalyzerInfo) {
        let supported_features = owned(
            vec![
                "thread_detection",
                "process_detection",
                "daemon_thread_distinction",
                "multiprocessing_pools",
                "executor_services",
            ],
        );
        let r = AnalyzerInfo {
            name: String::from_str("Python Escape Analyzer"),
            language: String::from_str("python"),
            version: String::from_str("1.0.0"),
            supported_features,
            executable_path: self.python_path.clone(),
        };
        assert(r@.supported_features =~= self.description().supported_features);
        r
    }
}

} // verus!
