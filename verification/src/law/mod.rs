//! What holds of the library as a whole, each law in terms of what goes in and what
//! comes out.

pub mod approvals;
pub mod chat;
pub mod edit;
pub mod effect;
pub mod invoke;
pub mod mcp;
pub mod run_poll;
pub mod runs;
pub mod text;
pub mod turn;
pub mod value;
