//! Escrow auction state machine: sellers list an item, bidders place strictly
//! increasing bids, and a closed auction either pays its seller or records why
//! no sale happened.

pub mod error;
pub mod state;
pub mod auction;
pub mod store;
pub mod msg;
pub mod contract;
