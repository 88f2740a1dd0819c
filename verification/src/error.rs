//! The ways in which an analysis can fail.

use vstd::prelude::*;
use crate::text::names::{concat2, concat3};

verus! {

/// A failure that ends the analysis of a target.
#[derive(Debug, Clone)]
pub enum EscapeError {
    /// The target does not have the form `module:function`.
    InvalidTarget,
    /// The external scanner reported a failure, with its words.
    ScanFailed(String),
    /// No language could be told from the target.
    UnknownLanguage(String),
    /// No scanner exists for the language.
    NoStaticAnalyzer(String),
    /// The toolchain that the scanner for the language needs is missing.
    ToolchainMissing(String),
    /// No analyzer accepts the target.
    NoAnalyzer(String),
    /// The analyzer of the language has no command to start its probe with.
    EmptyBridgeCommand(String),
    /// The health check has no command.
    EmptyHealthCommand,
    /// The health check of the language's analyzer failed.
    HealthCheckFailed(String),
    /// The probe of the language is not where it should be: language, path.
    BinaryMissing(String, String),
    /// The probe of the language failed: language, what it wrote as its error.
    BridgeFailed(String, String),
    /// Neither a scan nor a run was asked for.
    NothingAnalyzed,
}

/// The value of an `EscapeError`.
pub enum EscapeErrorView {
    InvalidTarget,
    ScanFailed(Seq<char>),
    UnknownLanguage(Seq<char>),
    NoStaticAnalyzer(Seq<char>),
    ToolchainMissing(Seq<char>),
    NoAnalyzer(Seq<char>),
    EmptyBridgeCommand(Seq<char>),
    EmptyHealthCommand,
    HealthCheckFailed(Seq<char>),
    BinaryMissing(Seq<char>, Seq<char>),
    BridgeFailed(Seq<char>, Seq<char>),
    NothingAnalyzed,
}

impl EscapeErrorView {
    /// The words that tell the user of the failure.
    pub open spec fn message(self) -> Seq<char> {
        match self {
            EscapeErrorView::InvalidTarget => "Invalid target format. Expected module:function"@,
            EscapeErrorView::ScanFailed(e) => "Analysis error: "@ + e,
            EscapeErrorView::UnknownLanguage(t) => "Unable to detect language from target: "@ + t,
            EscapeErrorView::NoStaticAnalyzer(l) => "No static analyzer available for language: "@
                + l,
            EscapeErrorView::ToolchainMissing(l) => "Static analyzer for "@ + l
                + " is not available (missing tools)"@,
            EscapeErrorView::NoAnalyzer(t) => "No analyzer found for target: "@ + t,
            EscapeErrorView::EmptyBridgeCommand(l) => "Empty bridge command for "@ + l
                + " analyzer"@,
            EscapeErrorView::EmptyHealthCommand => "Empty health check command"@,
            EscapeErrorView::HealthCheckFailed(l) => l + " health check failed"@,
            EscapeErrorView::BinaryMissing(l, p) => l + " analyzer binary not found at: "@ + p,
            EscapeErrorView::BridgeFailed(l, e) => l + " analyzer failed: "@ + e,
            EscapeErrorView::NothingAnalyzed => "No analysis was performed"@,
        }
    }
}

impl View for EscapeError {
    type V = EscapeErrorView;

    open spec fn view(&self) -> EscapeErrorView {
        match self {
            EscapeError::InvalidTarget => EscapeErrorView::InvalidTarget,
            EscapeError::ScanFailed(e) => EscapeErrorView::ScanFailed(e@),
            EscapeError::UnknownLanguage(t) => EscapeErrorView::UnknownLanguage(t@),
            EscapeError::NoStaticAnalyzer(l) => EscapeErrorView::NoStaticAnalyzer(l@),
            EscapeError::ToolchainMissing(l) => EscapeErrorView::ToolchainMissing(l@),
            EscapeError::NoAnalyzer(t) => EscapeErrorView::NoAnalyzer(t@),
            EscapeError::EmptyBridgeCommand(l) => EscapeErrorView::EmptyBridgeCommand(l@),
            EscapeError::EmptyHealthCommand => EscapeErrorView::EmptyHealthCommand,
            EscapeError::HealthCheckFailed(l) => EscapeErrorView::HealthCheckFailed(l@),
            EscapeError::BinaryMissing(l, p) => EscapeErrorView::BinaryMissing(l@, p@),
            EscapeError::BridgeFailed(l, e) => EscapeErrorView::BridgeFailed(l@, e@),
            EscapeError::NothingAnalyzed => EscapeErrorView::NothingAnalyzed,
        }
    }
}

impl EscapeError {
    /// The words that tell the user of the failure.
    pub fn message(&self) -> (r: String)
        ensures
            r@ == self@.message(),
    {
        match self {
            EscapeError::InvalidTarget => String::from_str(
                "Invalid target format. Expected module:function",
            ),
            EscapeError::ScanFailed(e) => concat2("Analysis error: ", e.as_str()),
            EscapeError::UnknownLanguage(t) => concat2(
                "Unable to detect language from target: ",
                t.as_str(),
            ),
            EscapeError::NoStaticAnalyzer(l) => concat2(
                "No static analyzer available for language: ",
                l.as_str(),
            ),
            EscapeError::ToolchainMissing(l) => concat3(
                "Static analyzer for ",
                l.as_str(),
                " is not available (missing tools)",
            ),
            EscapeError::NoAnalyzer(t) => concat2("No analyzer found for target: ", t.as_str()),
            EscapeError::EmptyBridgeCommand(l) => concat3(
                "Empty bridge command for ",
                l.as_str(),
                " analyzer",
            ),
            EscapeError::EmptyHealthCommand => String::from_str("Empty health check command"),
            EscapeError::HealthCheckFailed(l) => concat2(l.as_str(), " health check failed"),
            EscapeError::BinaryMissing(l, p) => concat3(
                l.as_str(),
                " analyzer binary not found at: ",
                p.as_str(),
            ),
            EscapeError::BridgeFailed(l, e) => concat3(
                l.as_str(),
                " analyzer failed: ",
                e.as_str(),
            ),
            EscapeError::NothingAnalyzed => String::from_str("No analysis was performed"),
        }
    }
}

} // verus!
