//! The decisions of the orchestrator: which language a target is in, where
//! its source lies, which inputs and targets a bulk run takes, and how the
//! answers of a scan and of a run make one response.

pub mod discovery;
pub mod extract;
pub mod inputs;
pub mod language;
pub mod session;
pub mod summary;
