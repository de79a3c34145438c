//! The auction engine: one instance per sale.

pub mod msg;
pub mod state;
pub mod settle;
pub mod contract;
pub mod query;
pub mod laws;
