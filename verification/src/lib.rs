//! The decisions of the ForgeOS command line, with their proofs.

pub mod cmd;
pub mod codec;
pub mod effect;
pub mod env;
pub mod json;
pub mod law;
pub mod text;
pub mod yaml;
