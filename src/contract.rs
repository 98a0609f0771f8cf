use vstd::prelude::*;

use crate::auction::{
    bid_check, dispute_check, end_auction, end_check, close_outcome, listed_auction, listing_check,
    new_auction, place_bid, dispute_auction, release_check, release_to_seller, released,
    superseded_refund, transfer_option_view, with_bid, with_status, Transfer,
};
use crate::error::ContractError;
use crate::msg::{Coin, ExecuteMsg, ExecuteOutcome, InstantiateMsg, MessageInfo, QueryMsg, QueryResponse};
use crate::state::{Auction, AuctionModel, AuctionStatus, BidModel};
use crate::store::{active_in, list_limit, list_start, listed, models, AuctionStore, StoreModel};

verus! {

/// The longest bidding window, in days, when none is configured.
pub const DEFAULT_MAX_DURATION_DAYS: u64 = 365;

/// The required margin over the floor when none is configured: any bid above
/// the floor is enough.
pub const DEFAULT_MIN_BID_INCREMENT: u128 = 0;

/// Settings of an auction house, fixed at initialization.
#[derive(Debug)]
pub struct Config {
    pub owner: String,
    pub bid_denom: String,
    pub min_bid_increment: u128,
    pub max_duration_days: u64,
}

/// The value attached in `denom`: the amount of the first coin of that
/// denomination, or zero when there is none.
pub open spec fn attached(funds: Seq<Coin>, denom: Seq<char>) -> u128
    decreases funds.len(),
{
    if funds.len() == 0 {
        0
    } else if funds[0].denom@ == denom {
        funds[0].amount
    } else {
        attached(funds.drop_first(), denom)
    }
}

/// Finds the value attached in `denom`.
pub fn attached_amount(funds: &Vec<Coin>, denom: &String) -> (r: u128)
    ensures
        r == attached(funds@, denom@),
{
    let mut i: usize = 0;
    assert(funds@.skip(0) =~= funds@);
    while i < funds.len()
        invariant
            i <= funds@.len(),
            attached(funds@.skip(i as int), denom@) == attached(funds@, denom@),
        decreases funds@.len() - i,
    {
        assert(funds@.skip(i as int)[0] == funds@[i as int]);
        if funds[i].denom == *denom {
            return funds[i].amount;
        }
        assert(funds@.skip(i as int).drop_first() =~= funds@.skip(i + 1));
        i = i + 1;
    }
    0
}

/// The invariant of the store behind an auction house: every record sits
/// under an allocated id equal to its own, and is well formed.
pub open spec fn house_wf(m: StoreModel) -> bool {
    forall|k: u64| #[trigger]
        m.records.contains_key(k) ==> 1 <= k <= m.count && m.records[k].id == k
            && m.records[k].wf()
}

/// The store with the record under `id` replaced by `a`.
pub open spec fn updated(m: StoreModel, id: u64, a: AuctionModel) -> StoreModel {
    StoreModel { count: m.count, records: m.records.insert(id, a) }
}

/// The store after a listing, or why it is rejected.
pub open spec fn create_step(
    m: StoreModel,
    seller: Seq<char>,
    description: Seq<char>,
    starting_price: u128,
    reserve_price: Option<u128>,
    duration_days: u64,
    max_duration_days: u64,
    now: u64,
) -> Result<StoreModel, ContractError> {
    match listing_check(description, starting_price, duration_days, max_duration_days, now) {
        Some(reason) => Err(ContractError::InvalidInput(reason)),
        None => {
            let id = (m.count + 1) as u64;
            Ok(
                StoreModel {
                    count: id,
                    records: m.records.insert(
                        id,
                        listed_auction(
                            id,
                            seller,
                            description,
                            starting_price,
                            reserve_price,
                            duration_days,
                            now,
                        ),
                    ),
                },
            )
        },
    }
}

/// The store after a bid, or why it is refused.
pub open spec fn bid_step(
    m: StoreModel,
    id: u64,
    bidder: Seq<char>,
    amount: u128,
    now: u64,
    min_increment: u128,
) -> Result<StoreModel, ContractError> {
    if !m.records.contains_key(id) {
        Err(ContractError::AuctionNotFound(id))
    } else {
        match bid_check(m.records[id], amount, now, min_increment) {
            Some(e) => Err(e),
            None => Ok(
                updated(
                    m,
                    id,
                    with_bid(m.records[id], BidModel { bidder, amount, placed_at: now }),
                ),
            ),
        }
    }
}

/// The store after closing an auction, or why it is refused.
pub open spec fn end_step(m: StoreModel, id: u64, caller: Seq<char>, now: u64) -> Result<
    StoreModel,
    ContractError,
> {
    if !m.records.contains_key(id) {
        Err(ContractError::AuctionNotFound(id))
    } else {
        match end_check(m.records[id], caller, now) {
            Some(e) => Err(e),
            None => Ok(updated(m, id, with_status(m.records[id], close_outcome(m.records[id])))),
        }
    }
}

/// The store after a release to the seller, or why it is refused.
pub open spec fn release_step(m: StoreModel, id: u64, caller: Seq<char>) -> Result<
    StoreModel,
    ContractError,
> {
    if !m.records.contains_key(id) {
        Err(ContractError::AuctionNotFound(id))
    } else {
        match release_check(m.records[id], caller) {
            Some(e) => Err(e),
            None => Ok(updated(m, id, released(m.records[id]))),
        }
    }
}

/// The store after a dispute, or why it is refused.
pub open spec fn dispute_step(m: StoreModel, id: u64, caller: Seq<char>) -> Result<
    StoreModel,
    ContractError,
> {
    if !m.records.contains_key(id) {
        Err(ContractError::AuctionNotFound(id))
    } else {
        match dispute_check(m.records[id], caller) {
            Some(e) => Err(e),
            None => Ok(updated(m, id, with_status(m.records[id], AuctionStatus::Disputed))),
        }
    }
}

/// The store after any write operation, or why it is refused.
pub open spec fn execute_step(
    m: StoreModel,
    config: Config,
    info: MessageInfo,
    now: u64,
    msg: ExecuteMsg,
) -> Result<StoreModel, ContractError> {
    match msg {
        ExecuteMsg::CreateAuction { item_description, starting_price, reserve_price, duration_days } =>
            create_step(
            m,
            info.sender@,
            item_description@,
            starting_price,
            reserve_price,
            duration_days,
            config.max_duration_days,
            now,
        ),
        ExecuteMsg::PlaceBid { auction_id } => bid_step(
            m,
            auction_id,
            info.sender@,
            attached(info.funds@, config.bid_denom@),
            now,
            config.min_bid_increment,
        ),
        ExecuteMsg::EndAuction { auction_id } => end_step(m, auction_id, info.sender@, now),
        ExecuteMsg::ReleaseToSeller { auction_id } => release_step(m, auction_id, info.sender@),
        ExecuteMsg::DisputeAuction { auction_id, reason } => dispute_step(
            m,
            auction_id,
            info.sender@,
        ),
    }
}

/// Whether a call moved the store from `before` to `after` as `step` says,
/// and failed exactly when `step` is an error, with that error.
pub open spec fn follows<T>(
    before: StoreModel,
    step: Result<StoreModel, ContractError>,
    r: Result<T, ContractError>,
    after: StoreModel,
) -> bool {
    match step {
        Ok(m) => r is Ok && after == m,
        Err(e) => r == Err::<T, ContractError>(e) && after == before,
    }
}

/// An auction house: its settings and the store of its auctions.
pub struct AuctionHouse {
    pub config: Config,
    pub store: AuctionStore,
}

impl View for AuctionHouse {
    type V = StoreModel;

    open spec fn view(&self) -> StoreModel {
        self.store@
    }
}

/// Sets up an auction house with no auctions, taking each setting left out
/// of `msg` from its default and the owner from the caller.
pub fn instantiate(info: &MessageInfo, msg: InstantiateMsg) -> (r: AuctionHouse)
    ensures
        r.wf(),
        r@.count == 0,
        r@.records == Map::<u64, AuctionModel>::empty(),
        r.config.owner@ == match msg.owner {
            Some(o) => o@,
            None => info.sender@,
        },
        r.config.bid_denom@ == match msg.bid_denom {
            Some(d) => d@,
            None => "utest"@,
        },
        r.config.min_bid_increment == match msg.min_bid_increment {
            Some(v) => v,
            None => DEFAULT_MIN_BID_INCREMENT,
        },
        r.config.max_duration_days == match msg.max_duration_days {
            Some(v) => v,
            None => DEFAULT_MAX_DURATION_DAYS,
        },
{
    let owner = match msg.owner {
        Some(o) => o,
        None => info.sender.clone(),
    };
    let bid_denom = match msg.bid_denom {
        Some(d) => d,
        None => "utest".to_owned(),
    };
    let min_bid_increment = match msg.min_bid_increment {
        Some(v) => v,
        None => DEFAULT_MIN_BID_INCREMENT,
    };
    let max_duration_days = match msg.max_duration_days {
        Some(v) => v,
        None => DEFAULT_MAX_DURATION_DAYS,
    };
    AuctionHouse {
        config: Config { owner, bid_denom, min_bid_increment, max_duration_days },
        store: AuctionStore::new(),
    }
}

impl AuctionHouse {
    /// The invariant of the house's store.
    pub open spec fn wf(&self) -> bool {
        house_wf(self@)
    }

    /// Lists an item for `info.sender`. On success the new auction gets the
    /// next id, one above every id allocated before, and is returned.
    pub fn execute_create_auction(
        &mut self,
        info: &MessageInfo,
        now: u64,
        item_description: String,
        starting_price: u128,
        reserve_price: Option<u128>,
        duration_days: u64,
    ) -> (r: Result<u64, ContractError>)
        requires
            old(self).wf(),
            old(self)@.count < u64::MAX,
        ensures
            final(self).wf(),
            final(self).config == old(self).config,
            follows(
                old(self)@,
                create_step(
                    old(self)@,
                    info.sender@,
                    item_description@,
                    starting_price,
                    reserve_price,
                    duration_days,
                    old(self).config.max_duration_days,
                    now,
                ),
                r,
                final(self)@,
            ),
            r matches Ok(id) ==> id == old(self)@.count + 1 && id == final(self)@.count
                && !old(self)@.records.contains_key(id),
    {
        let id = self.store.count() + 1;
        match new_auction(
            id,
            info.sender.clone(),
            item_description,
            starting_price,
            reserve_price,
            duration_days,
            self.config.max_duration_days,
            now,
        ) {
            Ok(a) => {
                let allocated = self.store.next_id();
                self.store.put(allocated, a);
                assert(self@.records.contains_key(allocated));
                Ok(allocated)
            },
            Err(e) => Err(e),
        }
    }

    /// Places a bid by `info.sender` with the value attached in the bid
    /// denomination. Returns the amount and the refund owed to the bidder it
    /// supersedes.
    pub fn execute_place_bid(&mut self, info: &MessageInfo, now: u64, auction_id: u64) -> (r: Result<
        (u128, Option<Transfer>),
        ContractError,
    >)
        requires
            old(self).wf(),
        ensures
            final(self).wf(),
            final(self).config == old(self).config,
            follows(
                old(self)@,
                bid_step(
                    old(self)@,
                    auction_id,
                    info.sender@,
                    attached(info.funds@, old(self).config.bid_denom@),
                    now,
                    old(self).config.min_bid_increment,
                ),
                r,
                final(self)@,
            ),
            r matches Ok(p) ==> p.0 == attached(info.funds@, old(self).config.bid_denom@)
                && transfer_option_view(p.1) == superseded_refund(old(self)@.records[auction_id]),
    {
        let amount = attached_amount(&info.funds, &self.config.bid_denom);
        match self.store.get(auction_id) {
            None => Err(ContractError::AuctionNotFound(auction_id)),
            Some(mut a) => match place_bid(
                &mut a,
                info.sender.clone(),
                amount,
                now,
                self.config.min_bid_increment,
            ) {
                Ok(refund) => {
                    self.store.put(auction_id, a);
                    Ok((amount, refund))
                },
                Err(e) => Err(e),
            },
        }
    }

    /// Closes an auction on behalf of `info.sender` and returns its outcome.
    pub fn execute_end_auction(&mut self, info: &MessageInfo, now: u64, auction_id: u64) -> (r: Result<
        AuctionStatus,
        ContractError,
    >)
        requires
            old(self).wf(),
        ensures
            final(self).wf(),
            final(self).config == old(self).config,
            follows(old(self)@, end_step(old(self)@, auction_id, info.sender@, now), r, final(self)@),
            r matches Ok(s) ==> s == close_outcome(old(self)@.records[auction_id]),
            old(self)@.records.contains_key(auction_id) && info.sender@ != old(
                self,
            )@.records[auction_id].seller && now <= old(self)@.records[auction_id].end_time ==> r
                == Err::<AuctionStatus, ContractError>(ContractError::Unauthorized) && final(self)@
                == old(self)@,
    {
        match self.store.get(auction_id) {
            None => Err(ContractError::AuctionNotFound(auction_id)),
            Some(mut a) => match end_auction(&mut a, &info.sender, now) {
                Ok(s) => {
                    self.store.put(auction_id, a);
                    Ok(s)
                },
                Err(e) => Err(e),
            },
        }
    }

    /// Releases the escrow of a sold auction to its seller and returns the
    /// payout.
    pub fn execute_release_to_seller(&mut self, info: &MessageInfo, auction_id: u64) -> (r: Result<
        Transfer,
        ContractError,
    >)
        requires
            old(self).wf(),
        ensures
            final(self).wf(),
            final(self).config == old(self).config,
            follows(old(self)@, release_step(old(self)@, auction_id, info.sender@), r, final(self)@),
            r matches Ok(t) ==> t@ == (
                old(self)@.records[auction_id].seller,
                old(self)@.records[auction_id].escrowed(),
            ) && final(self)@.records[auction_id].escrowed() == 0,
    {
        match self.store.get(auction_id) {
            None => Err(ContractError::AuctionNotFound(auction_id)),
            Some(mut a) => match release_to_seller(&mut a, &info.sender) {
                Ok(t) => {
                    self.store.put(auction_id, a);
                    Ok(t)
                },
                Err(e) => Err(e),
            },
        }
    }

    /// Marks an auction disputed on behalf of its seller or highest bidder.
    pub fn execute_dispute_auction(&mut self, info: &MessageInfo, auction_id: u64) -> (r: Result<
        (),
        ContractError,
    >)
        requires
            old(self).wf(),
        ensures
            final(self).wf(),
            final(self).config == old(self).config,
            follows(old(self)@, dispute_step(old(self)@, auction_id, info.sender@), r, final(self)@),
    {
        match self.store.get(auction_id) {
            None => Err(ContractError::AuctionNotFound(auction_id)),
            Some(mut a) => match dispute_auction(&mut a, &info.sender) {
                Ok(()) => {
                    self.store.put(auction_id, a);
                    Ok(())
                },
                Err(e) => Err(e),
            },
        }
    }
    /// Applies one write operation from `info.sender` at time `now`.
    pub fn execute(&mut self, info: &MessageInfo, now: u64, msg: ExecuteMsg) -> (r: Result<
        ExecuteOutcome,
        ContractError,
    >)
        requires
            old(self).wf(),
            msg is CreateAuction ==> old(self)@.count < u64::MAX,
        ensures
            final(self).wf(),
            final(self).config == old(self).config,
            follows(old(self)@, execute_step(old(self)@, old(self).config, *info, now, msg), r, final(self)@),
            r matches Ok(o) ==> match msg {
                ExecuteMsg::CreateAuction { .. } => o matches ExecuteOutcome::Created {
                    auction_id,
                    seller,
                } && auction_id == old(self)@.count + 1 && seller@ == info.sender@,
                ExecuteMsg::PlaceBid { auction_id } => o matches ExecuteOutcome::BidPlaced {
                    auction_id: id,
                    bidder,
                    amount,
                    refund,
                } && id == auction_id && bidder@ == info.sender@ && amount == attached(
                    info.funds@,
                    old(self).config.bid_denom@,
                ) && transfer_option_view(refund) == superseded_refund(
                    old(self)@.records[auction_id],
                ),
                ExecuteMsg::EndAuction { auction_id } => o matches ExecuteOutcome::Ended {
                    auction_id: id,
                    status,
                } && id == auction_id && status == close_outcome(old(self)@.records[auction_id]),
                ExecuteMsg::ReleaseToSeller { auction_id } => o matches ExecuteOutcome::Released {
                    auction_id: id,
                    payout,
                } && id == auction_id && payout@ == (
                    old(self)@.records[auction_id].seller,
                    old(self)@.records[auction_id].escrowed(),
                ),
                ExecuteMsg::DisputeAuction { auction_id, reason } => o matches ExecuteOutcome::Disputed {
                    auction_id: id,
                    disputer,
                    reason: echoed,
                } && id == auction_id && disputer@ == info.sender@ && echoed@ == reason@,
            },
    {
        match msg {
            ExecuteMsg::CreateAuction {
                item_description,
                starting_price,
                reserve_price,
                duration_days,
            } => match self.execute_create_auction(
                info,
                now,
                item_description,
                starting_price,
                reserve_price,
                duration_days,
            ) {
                Ok(auction_id) => Ok(ExecuteOutcome::Created { auction_id, seller: info.sender.clone() }),
                Err(e) => Err(e),
            },
            ExecuteMsg::PlaceBid { auction_id } => match self.execute_place_bid(info, now, auction_id) {
                Ok((amount, refund)) => Ok(
                    ExecuteOutcome::BidPlaced { auction_id, bidder: info.sender.clone(), amount, refund },
                ),
                Err(e) => Err(e),
            },
            ExecuteMsg::EndAuction { auction_id } => match self.execute_end_auction(info, now, auction_id) {
                Ok(status) => Ok(ExecuteOutcome::Ended { auction_id, status }),
                Err(e) => Err(e),
            },
            ExecuteMsg::ReleaseToSeller { auction_id } => match self.execute_release_to_seller(
                info,
                auction_id,
            ) {
                Ok(payout) => Ok(ExecuteOutcome::Released { auction_id, payout }),
                Err(e) => Err(e),
            },
            ExecuteMsg::DisputeAuction { auction_id, reason } => match self.execute_dispute_auction(
                info,
                auction_id,
            ) {
                Ok(()) => Ok(
                    ExecuteOutcome::Disputed { auction_id, disputer: info.sender.clone(), reason },
                ),
                Err(e) => Err(e),
            },
        }
    }

    /// The auction stored under `id`.
    pub fn query_auction(&self, id: u64) -> (r: Result<Auction, ContractError>)
        ensures
            match r {
                Ok(a) => self@.records.contains_key(id) && a@ == self@.records[id],
                Err(e) => !self@.records.contains_key(id) && e == ContractError::AuctionNotFound(id),
            },
    {
        match self.store.get(id) {
            Some(a) => Ok(a),
            None => Err(ContractError::AuctionNotFound(id)),
        }
    }

    /// Up to `limit` auctions (ten by default) with an id above `start_after`,
    /// in ascending id order.
    pub fn query_list_auctions(&self, start_after: Option<u64>, limit: Option<u32>) -> (r: Vec<
        Auction,
    >)
        ensures
            models(r@) == listed(
                self@.records,
                list_start(start_after),
                self@.count as int,
                list_limit(limit),
            ),
    {
        self.store.list(start_after, limit)
    }

    /// The number of auction ids ever allocated.
    pub fn query_auction_count(&self) -> (r: u64)
        ensures
            r == self@.count,
    {
        self.store.count()
    }

    /// Every auction still open for bids, in ascending id order.
    pub fn query_active_auctions(&self) -> (r: Vec<Auction>)
        ensures
            models(r@) == active_in(self@.records, 1, self@.count as int),
    {
        self.store.active()
    }

    /// Answers one read operation.
    pub fn query(&self, msg: &QueryMsg) -> (r: Result<QueryResponse, ContractError>)
        ensures
            match *msg {
                QueryMsg::GetAuction { id } => match r {
                    Ok(QueryResponse::Auction(a)) => self@.records.contains_key(id) && a@
                        == self@.records[id],
                    Ok(_) => false,
                    Err(e) => !self@.records.contains_key(id) && e == ContractError::AuctionNotFound(
                        id,
                    ),
                },
                QueryMsg::ListAuctions { start_after, limit } => r matches Ok(
                    QueryResponse::Auctions(v),
                ) && models(v@) == listed(
                    self@.records,
                    list_start(start_after),
                    self@.count as int,
                    list_limit(limit),
                ),
                QueryMsg::GetAuctionCount {  } => r matches Ok(QueryResponse::Count(c)) && c
                    == self@.count,
                QueryMsg::GetActiveAuctions {  } => r matches Ok(QueryResponse::Auctions(v))
                    && models(v@) == active_in(self@.records, 1, self@.count as int),
            },
    {
        match msg {
            QueryMsg::GetAuction { id } => match self.query_auction(*id) {
                Ok(a) => Ok(QueryResponse::Auction(a)),
                Err(e) => Err(e),
            },
            QueryMsg::ListAuctions { start_after, limit } => Ok(
                QueryResponse::Auctions(self.query_list_auctions(*start_after, *limit)),
            ),
            QueryMsg::GetAuctionCount {  } => Ok(QueryResponse::Count(self.query_auction_count())),
            QueryMsg::GetActiveAuctions {  } => Ok(
                QueryResponse::Auctions(self.query_active_auctions()),
            ),
        }
    }
}

/// A successful listing takes the id one above the number of ids allocated
/// before it. No record holds that id yet, and afterwards every record still
/// sits at or below the count, so the next listing's id is fresh as well.
pub proof fn created_id_is_fresh(
    m: StoreModel,
    seller: Seq<char>,
    description: Seq<char>,
    starting_price: u128,
    reserve_price: Option<u128>,
    duration_days: u64,
    max_duration_days: u64,
    now: u64,
)
    requires
        house_wf(m),
        m.count < u64::MAX,
        create_step(m, seller, description, starting_price, reserve_price, duration_days, max_duration_days, now) is Ok,
    ensures
        create_step(m, seller, description, starting_price, reserve_price, duration_days, max_duration_days, now)
            matches Ok(after) && after.count == m.count + 1 && after.records.contains_key(after.count)
            && !m.records.contains_key(after.count) && house_wf(after),
{
    let id = (m.count + 1) as u64;
    let a = listed_auction(id, seller, description, starting_price, reserve_price, duration_days, now);
    assert(a.bids =~= Seq::<BidModel>::empty());
    assert(a.wf());
}

} // verus!
