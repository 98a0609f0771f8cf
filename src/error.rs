use vstd::prelude::*;

verus! {

/// Why an argument was rejected.
#[derive(Clone, Copy, Debug, PartialEq, Eq, Structural)]
pub enum InvalidReason {
    /// The item description is empty.
    EmptyDescription,
    /// The starting price is zero.
    ZeroStartingPrice,
    /// The duration is zero, above the configured maximum, or would push the
    /// end time past the clock's range.
    DurationOutOfRange,
    /// No value in the bid denomination came with the bid.
    NoFunds,
    /// The bid does not exceed the current floor by the required margin.
    BidTooLow,
}

/// The errors of every transition and query.
#[derive(Clone, Copy, Debug, PartialEq, Eq, Structural)]
pub enum ContractError {
    /// The caller lacks the role that the action needs.
    Unauthorized,
    /// No auction has this id.
    AuctionNotFound(u64),
    /// The auction is no longer open for this action.
    AuctionNotActive(u64),
    /// The bidding window of the auction has passed.
    AuctionEnded(u64),
    /// The auction has not reached a sale that can be released.
    AuctionNotEnded(u64),
    /// An argument is malformed or out of policy.
    InvalidInput(InvalidReason),
}

} // verus!
