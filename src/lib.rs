//! A value type whose only constructor enforces a range invariant, and the
//! decision steps of the failure-handling protocols used around resources.

pub mod acquire;
pub mod guess;
pub mod lines;
pub mod read;
