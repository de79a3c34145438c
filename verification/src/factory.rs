//! The registry that creates auctions, authenticates their callbacks and
//! indexes them per participant.

pub mod msg;
pub mod state;
pub mod contract;
pub mod listing;
