use vstd::prelude::*;

use crate::error::{ContractError, InvalidReason};
use crate::state::{Auction, AuctionModel, AuctionStatus, Bid, BidModel};

verus! {

/// Length of one day on the clock, in seconds.
pub const SECONDS_PER_DAY: u64 = 86400;

/// An instruction to move value out of escrow.
#[derive(Debug)]
pub struct Transfer {
    pub recipient: String,
    pub amount: u128,
}

impl View for Transfer {
    type V = (Seq<char>, u128);

    open spec fn view(&self) -> (Seq<char>, u128) {
        (self.recipient@, self.amount)
    }
}

pub open spec fn transfer_option_view(t: Option<Transfer>) -> Option<(Seq<char>, u128)> {
    match t {
        Some(x) => Some(x@),
        None => None,
    }
}

/// The end time of a listing made at `now` for `duration_days` days.
pub open spec fn end_time_of(now: u64, duration_days: u64) -> int {
    now + duration_days * SECONDS_PER_DAY
}

/// Why a listing is rejected, in the order the checks are made.
pub open spec fn listing_check(
    description: Seq<char>,
    starting_price: u128,
    duration_days: u64,
    max_duration_days: u64,
    now: u64,
) -> Option<InvalidReason> {
    if description.len() == 0 {
        Some(InvalidReason::EmptyDescription)
    } else if starting_price == 0 {
        Some(InvalidReason::ZeroStartingPrice)
    } else if duration_days == 0 || duration_days > max_duration_days || end_time_of(now, duration_days)
        > u64::MAX {
        Some(InvalidReason::DurationOutOfRange)
    } else {
        None
    }
}

/// The record a successful listing creates.
pub open spec fn listed_auction(
    id: u64,
    seller: Seq<char>,
    description: Seq<char>,
    starting_price: u128,
    reserve_price: Option<u128>,
    duration_days: u64,
    now: u64,
) -> AuctionModel {
    AuctionModel {
        id,
        seller,
        description,
        starting_price,
        reserve_price,
        created_at: now,
        end_time: end_time_of(now, duration_days) as u64,
        current_bid: None,
        bids: Seq::empty(),
        status: AuctionStatus::Active,
        escrow_released: false,
    }
}

/// Validates a listing and builds its record under the id `id`.
pub fn new_auction(
    id: u64,
    seller: String,
    description: String,
    starting_price: u128,
    reserve_price: Option<u128>,
    duration_days: u64,
    max_duration_days: u64,
    now: u64,
) -> (r: Result<Auction, ContractError>)
    ensures
        match listing_check(description@, starting_price, duration_days, max_duration_days, now) {
            Some(reason) => r == Err::<Auction, ContractError>(ContractError::InvalidInput(reason)),
            None => r matches Ok(a) && a@ == listed_auction(
                id,
                seller@,
                description@,
                starting_price,
                reserve_price,
                duration_days,
                now,
            ),
        },
        r matches Ok(a) ==> a@.wf(),
{
    if description.as_str().is_empty() {
        return Err(ContractError::InvalidInput(InvalidReason::EmptyDescription));
    }
    if starting_price == 0 {
        return Err(ContractError::InvalidInput(InvalidReason::ZeroStartingPrice));
    }
    if duration_days == 0 || duration_days > max_duration_days {
        return Err(ContractError::InvalidInput(InvalidReason::DurationOutOfRange));
    }
    let end_time = match duration_days.checked_mul(SECONDS_PER_DAY) {
        Some(span) => match now.checked_add(span) {
            Some(t) => t,
            None => {
                return Err(ContractError::InvalidInput(InvalidReason::DurationOutOfRange));
            },
        },
        None => {
            return Err(ContractError::InvalidInput(InvalidReason::DurationOutOfRange));
        },
    };
    let a = Auction {
        id,
        seller,
        description,
        starting_price,
        reserve_price,
        created_at: now,
        end_time,
        current_bid: None,
        bids: Vec::new(),
        status: AuctionStatus::Active,
        escrow_released: false,
    };
    assert(a@.bids =~= Seq::<BidModel>::empty());
    Ok(a)
}

/// Why a bid of `amount` at time `now` is refused, in the order the checks
/// are made.
pub open spec fn bid_check(a: AuctionModel, amount: u128, now: u64, min_increment: u128) -> Option<
    ContractError,
> {
    if a.status != AuctionStatus::Active {
        Some(ContractError::AuctionNotActive(a.id))
    } else if now > a.end_time {
        Some(ContractError::AuctionEnded(a.id))
    } else if amount == 0 {
        Some(ContractError::InvalidInput(InvalidReason::NoFunds))
    } else if amount <= a.floor() || amount - a.floor() < min_increment {
        Some(ContractError::InvalidInput(InvalidReason::BidTooLow))
    } else {
        None
    }
}

/// The auction after `bid` has been accepted.
pub open spec fn with_bid(a: AuctionModel, bid: BidModel) -> AuctionModel {
    AuctionModel { current_bid: Some(bid), bids: a.bids.push(bid), ..a }
}

/// The refund owed to the bidder that a new bid supersedes.
pub open spec fn superseded_refund(a: AuctionModel) -> Option<(Seq<char>, u128)> {
    match a.current_bid {
        Some(b) => Some((b.bidder, b.amount)),
        None => None,
    }
}

/// Places a bid of `amount` by `bidder` at time `now`. On success the bid
/// becomes the current one and is appended to the history, and the bid it
/// supersedes, if any, is returned as a refund to its bidder. On failure the
/// auction is unchanged.
pub fn place_bid(a: &mut Auction, bidder: String, amount: u128, now: u64, min_increment: u128) -> (r:
    Result<Option<Transfer>, ContractError>)
    ensures
        match bid_check(old(a)@, amount, now, min_increment) {
            Some(e) => r == Err::<Option<Transfer>, ContractError>(e) && final(a)@ == old(a)@,
            None => r matches Ok(refund) && transfer_option_view(refund) == superseded_refund(old(a)@)
                && final(a)@ == with_bid(
                old(a)@,
                BidModel { bidder: bidder@, amount, placed_at: now },
            ),
        },
        r is Ok <==> (old(a)@.status == AuctionStatus::Active && now <= old(a)@.end_time && amount
            > old(a)@.floor() && amount - old(a)@.floor() >= min_increment),
        old(a)@.wf() ==> final(a)@.wf(),
{
    if a.status != AuctionStatus::Active {
        return Err(ContractError::AuctionNotActive(a.id));
    }
    if now > a.end_time {
        return Err(ContractError::AuctionEnded(a.id));
    }
    if amount == 0 {
        return Err(ContractError::InvalidInput(InvalidReason::NoFunds));
    }
    let floor = match &a.current_bid {
        Some(b) => b.amount,
        None => a.starting_price,
    };
    if amount <= floor || amount - floor < min_increment {
        return Err(ContractError::InvalidInput(InvalidReason::BidTooLow));
    }
    let ghost before = a@;
    let refund = match &a.current_bid {
        Some(b) => Some(Transfer { recipient: b.bidder.clone(), amount: b.amount }),
        None => None,
    };
    let kept = Bid { bidder: bidder.clone(), amount, placed_at: now };
    a.bids.push(kept);
    a.current_bid = Some(Bid { bidder, amount, placed_at: now });
    proof {
        let after = with_bid(before, BidModel { bidder: bidder@, amount, placed_at: now });
        assert(a@.bids =~= after.bids);
        if before.wf() {
            assert forall|i: int| 0 <= i < before.bids.len() implies before.bids[i].amount < amount by {
                if i < before.bids.len() - 1 {
                    assert(before.bids[i].amount < before.bids[before.bids.len() - 1].amount);
                }
            }
        }
    }
    Ok(refund)
}

/// Why closing the auction is refused: an early close by anyone but the
/// seller, or an auction that is no longer active.
pub open spec fn end_check(a: AuctionModel, caller: Seq<char>, now: u64) -> Option<ContractError> {
    if caller != a.seller && now <= a.end_time {
        Some(ContractError::Unauthorized)
    } else if a.status != AuctionStatus::Active {
        Some(ContractError::AuctionNotActive(a.id))
    } else {
        None
    }
}

/// The status an auction closes with: no bids, a highest bid below the
/// reserve price, or a sale.
pub open spec fn close_outcome(a: AuctionModel) -> AuctionStatus {
    match a.current_bid {
        None => AuctionStatus::EndedNoBids,
        Some(b) => match a.reserve_price {
            Some(reserve) => if b.amount < reserve {
                AuctionStatus::EndedNoSale
            } else {
                AuctionStatus::Sold
            },
            None => AuctionStatus::Sold,
        },
    }
}

/// The auction with its status replaced.
pub open spec fn with_status(a: AuctionModel, status: AuctionStatus) -> AuctionModel {
    AuctionModel { status, ..a }
}

/// Closes the auction: the seller may close it at any time, anyone else only
/// once `now` is past its end time. Returns the outcome, which becomes the
/// status; escrowed value is not moved.
pub fn end_auction(a: &mut Auction, caller: &String, now: u64) -> (r: Result<
    AuctionStatus,
    ContractError,
>)
    ensures
        match end_check(old(a)@, caller@, now) {
            Some(e) => r == Err::<AuctionStatus, ContractError>(e) && final(a)@ == old(a)@,
            None => r == Ok::<AuctionStatus, ContractError>(close_outcome(old(a)@)) && final(a)@
                == with_status(old(a)@, close_outcome(old(a)@)),
        },
        caller@ != old(a)@.seller && now <= old(a)@.end_time ==> r == Err::<
            AuctionStatus,
            ContractError,
        >(ContractError::Unauthorized) && final(a)@ == old(a)@,
        old(a)@.wf() ==> final(a)@.wf(),
{
    if *caller != a.seller && now <= a.end_time {
        return Err(ContractError::Unauthorized);
    }
    if a.status != AuctionStatus::Active {
        return Err(ContractError::AuctionNotActive(a.id));
    }
    let outcome = match &a.current_bid {
        None => AuctionStatus::EndedNoBids,
        Some(b) => match a.reserve_price {
            Some(reserve) => if b.amount < reserve {
                AuctionStatus::EndedNoSale
            } else {
                AuctionStatus::Sold
            },
            None => AuctionStatus::Sold,
        },
    };
    a.status = outcome;
    Ok(outcome)
}

/// Why releasing the escrow to the seller is refused.
pub open spec fn release_check(a: AuctionModel, caller: Seq<char>) -> Option<ContractError> {
    if caller != a.seller {
        Some(ContractError::Unauthorized)
    } else if a.status != AuctionStatus::Sold {
        Some(ContractError::AuctionNotEnded(a.id))
    } else {
        None
    }
}

/// The auction after its escrow has been released to the seller.
pub open spec fn released(a: AuctionModel) -> AuctionModel {
    AuctionModel { status: AuctionStatus::Completed, escrow_released: true, ..a }
}

/// Releases the escrowed highest bid of a sold auction to its seller and
/// completes the auction. Returns the payout.
pub fn release_to_seller(a: &mut Auction, caller: &String) -> (r: Result<Transfer, ContractError>)
    ensures
        match release_check(old(a)@, caller@) {
            Some(e) => r == Err::<Transfer, ContractError>(e) && final(a)@ == old(a)@,
            None => r matches Ok(t) && final(a)@ == released(old(a)@) && (old(a)@.wf() ==> t@ == (
            old(a)@.seller, old(a)@.escrowed()) && final(a)@.escrowed() == 0),
        },
        old(a)@.wf() ==> final(a)@.wf(),
{
    if *caller != a.seller {
        return Err(ContractError::Unauthorized);
    }
    if a.status != AuctionStatus::Sold {
        return Err(ContractError::AuctionNotEnded(a.id));
    }
    let amount = match &a.current_bid {
        Some(b) => b.amount,
        None => 0,
    };
    a.status = AuctionStatus::Completed;
    a.escrow_released = true;
    Ok(Transfer { recipient: a.seller.clone(), amount })
}

/// Over a run of accepted bids on one auction, where each state is the one
/// before with the next bid accepted, every accepted amount is strictly above
/// all earlier ones and the current bid at the end is the last one accepted.
pub proof fn accepted_bids_strictly_increase(
    states: Seq<AuctionModel>,
    bids: Seq<BidModel>,
    min_increment: u128,
)
    requires
        states.len() == bids.len() + 1,
        forall|i: int|
            0 <= i < bids.len() ==> bid_check(states[i], #[trigger] bids[i].amount, bids[i].placed_at, min_increment)
                is None && states[i + 1] == with_bid(states[i], bids[i]),
    ensures
        forall|i: int, j: int|
            0 <= i < j < bids.len() ==> #[trigger] bids[i].amount < #[trigger] bids[j].amount,
        bids.len() > 0 ==> states.last().current_bid == Some(bids.last()),
    decreases bids.len(),
{
    let n = bids.len() as int;
    if n > 0 {
        let s = states.take(n);
        let b = bids.take(n - 1);
        assert forall|i: int| 0 <= i < b.len() implies bid_check(s[i], #[trigger] b[i].amount, b[i].placed_at, min_increment)
            is None && s[i + 1] == with_bid(s[i], b[i]) by {
            assert(bids[i].amount == b[i].amount);
        }
        accepted_bids_strictly_increase(s, b, min_increment);
        assert(bid_check(states[n - 1], bids[n - 1].amount, bids[n - 1].placed_at, min_increment) is None);
        if n > 1 {
            assert(states[n - 1].current_bid == Some(bids[n - 2]));
            assert forall|i: int, j: int| 0 <= i < j < n implies #[trigger] bids[i].amount
                < #[trigger] bids[j].amount by {
                if j < n - 1 {
                    assert(b[i].amount < b[j].amount);
                } else if i < n - 2 {
                    assert(b[i].amount < b[n - 2].amount);
                }
            }
        }
    }
}

/// Releasing is not re-entrant: whenever a release succeeds, it completes the
/// auction, and a second release by the same caller is refused as not ended.
pub proof fn release_is_not_reentrant(a: AuctionModel, caller: Seq<char>)
    requires
        release_check(a, caller) is None,
    ensures
        released(a).status == AuctionStatus::Completed,
        release_check(released(a), caller) == Some(ContractError::AuctionNotEnded(a.id)),
{
}

/// Whether `caller` may dispute the auction: its seller or its highest bidder.
pub open spec fn may_dispute(a: AuctionModel, caller: Seq<char>) -> bool {
    caller == a.seller || (a.current_bid matches Some(b) && b.bidder == caller)
}

/// Why a dispute is refused.
pub open spec fn dispute_check(a: AuctionModel, caller: Seq<char>) -> Option<ContractError> {
    if !may_dispute(a, caller) {
        Some(ContractError::Unauthorized)
    } else if a.status == AuctionStatus::Completed {
        Some(ContractError::AuctionNotActive(a.id))
    } else {
        None
    }
}

/// Marks the auction disputed, freezing its disposition; escrowed value stays
/// held. A completed auction cannot be disputed.
pub fn dispute_auction(a: &mut Auction, caller: &String) -> (r: Result<(), ContractError>)
    ensures
        match dispute_check(old(a)@, caller@) {
            Some(e) => r == Err::<(), ContractError>(e) && final(a)@ == old(a)@,
            None => r is Ok && final(a)@ == with_status(old(a)@, AuctionStatus::Disputed),
        },
        old(a)@.wf() ==> final(a)@.wf() && final(a)@.escrowed() == old(a)@.escrowed(),
{
    let is_buyer = match &a.current_bid {
        Some(b) => b.bidder == *caller,
        None => false,
    };
    if *caller != a.seller && !is_buyer {
        return Err(ContractError::Unauthorized);
    }
    if a.status == AuctionStatus::Completed {
        return Err(ContractError::AuctionNotActive(a.id));
    }
    a.status = AuctionStatus::Disputed;
    Ok(())
}

} // verus!
