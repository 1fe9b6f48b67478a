//! Adapts a native iterator's advance operation to a host runtime that
//! consumes objects through function slots and signals exhaustion through a
//! pending-error channel.
pub mod host;
pub mod outcome;
pub mod cell;
pub mod protocol;
pub mod counter;
