//! Text as sequences of characters, with the scanning primitives the
//! analyzers are built from.

pub mod chars;
pub mod compose;
pub mod names;
pub mod runs;
pub mod search;
pub mod split;
