//! A sealed-bid, escrow-based auction engine and the registry that creates
//! auctions, authenticates their callbacks and indexes them per participant.
//!
//! Every handler is a function from the persisted state and an incoming event
//! to the next state and an ordered list of outgoing instructions.

pub mod viewing_key;
pub mod timefmt;
pub mod auction;
pub mod factory;
