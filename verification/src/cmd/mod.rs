//! The commands. Each decides what to ask of the platform and what to show; the
//! caller performs the requests, waits, reads input and prints.

pub mod approvals;
pub mod chat;
pub mod edit;
pub mod invoke;
pub mod mcp;
pub mod run_poll;
pub mod runs;
pub mod turn;
