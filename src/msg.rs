use vstd::prelude::*;

use crate::auction::Transfer;
use crate::state::{Auction, AuctionStatus};

verus! {

/// Value of one denomination attached to a call.
#[derive(Debug)]
pub struct Coin {
    pub denom: String,
    pub amount: u128,
}

/// The authenticated caller of a transition and the value it attached.
#[derive(Debug)]
pub struct MessageInfo {
    pub sender: String,
    pub funds: Vec<Coin>,
}

/// Settings fixed at initialization. Each one left out takes its default.
#[derive(Debug)]
pub struct InstantiateMsg {
    /// The administrator; the caller of the initialization when left out.
    pub owner: Option<String>,
    /// The denomination bids are paid in.
    pub bid_denom: Option<String>,
    /// How far a bid must exceed the current floor, beyond being above it.
    pub min_bid_increment: Option<u128>,
    /// The longest bidding window a listing may ask for, in days.
    pub max_duration_days: Option<u64>,
}

/// The write operations.
#[derive(Debug)]
pub enum ExecuteMsg {
    CreateAuction {
        item_description: String,
        starting_price: u128,
        reserve_price: Option<u128>,
        duration_days: u64,
    },
    PlaceBid { auction_id: u64 },
    EndAuction { auction_id: u64 },
    ReleaseToSeller { auction_id: u64 },
    DisputeAuction { auction_id: u64, reason: String },
}

/// The read operations.
#[derive(Debug)]
pub enum QueryMsg {
    GetAuction { id: u64 },
    ListAuctions { start_after: Option<u64>, limit: Option<u32> },
    GetAuctionCount {},
    GetActiveAuctions {},
}

/// What a successful write operation reports, with the fields it echoes and
/// the value movements it instructs.
#[derive(Debug)]
pub enum ExecuteOutcome {
    Created { auction_id: u64, seller: String },
    BidPlaced { auction_id: u64, bidder: String, amount: u128, refund: Option<Transfer> },
    Ended { auction_id: u64, status: AuctionStatus },
    Released { auction_id: u64, payout: Transfer },
    Disputed { auction_id: u64, disputer: String, reason: String },
}

/// What a read operation returns.
#[derive(Debug)]
pub enum QueryResponse {
    Auction(Auction),
    Auctions(Vec<Auction>),
    Count(u64),
}

} // verus!
