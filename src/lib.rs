//! Orchestration core of the Nexus command line: funding-object selection,
//! Move call assembly and resolution of created objects out of a transaction
//! response.

pub mod ids;
pub mod net;
pub mod error;
pub mod funding;
pub mod resolve;
pub mod call;
pub mod config;
pub mod health;
