//! Detection of concurrency escapes: background workers — threads, tasks,
//! goroutines, child processes, timers — that outlive the function that
//! created them.
//!
//! A target is analyzed in two ways. The dynamic way runs it on chosen
//! inputs in a probe and compares the workers seen before and after each
//! run (`probe`). The static way scans its source text for spawns that no
//! join, await or shutdown answers (`static_analyzer`). The orchestrator
//! chooses languages, files, inputs and targets, and joins the two answers
//! into one response (`orchestrator`, `analyzer`); `report` renders it.
//!
//! Every function comes with a contract over the mathematical value of its
//! arguments and results: texts are sequences of characters (`text`), and
//! the records of `protocol` have views made of such sequences.

pub mod analyzer;
pub mod error;
pub mod orchestrator;
pub mod probe;
pub mod protocol;
pub mod report;
pub mod static_analyzer;
pub mod text;
