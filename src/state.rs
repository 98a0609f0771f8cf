use vstd::prelude::*;

verus! {

/// Where an auction stands in its lifecycle.
///
/// `Active` is the only state that accepts bids. Closing leads to `Sold`,
/// `EndedNoSale` or `EndedNoBids`; a release turns `Sold` into `Completed`;
/// any state but `Completed` may be turned into `Disputed`. No transition
/// leads to `Cancelled`, resolves a `Disputed` auction, or refunds the highest
/// bid of an `EndedNoSale` one: such value stays held.
#[derive(Clone, Copy, Debug, PartialEq, Eq, Structural)]
pub enum AuctionStatus {
    Active,
    Sold,
    EndedNoSale,
    EndedNoBids,
    Cancelled,
    Disputed,
    Completed,
}

/// An accepted bid. Never changed once accepted.
#[derive(Debug)]
pub struct Bid {
    pub bidder: String,
    pub amount: u128,
    pub placed_at: u64,
}

/// The mathematical value of a [`Bid`].
pub struct BidModel {
    pub bidder: Seq<char>,
    pub amount: u128,
    pub placed_at: u64,
}

impl View for Bid {
    type V = BidModel;

    open spec fn view(&self) -> BidModel {
        BidModel { bidder: self.bidder@, amount: self.amount, placed_at: self.placed_at }
    }
}

impl Bid {
    /// A field-by-field copy.
    pub fn duplicate(&self) -> (r: Bid)
        ensures
            r@ == self@,
    {
        Bid { bidder: self.bidder.clone(), amount: self.amount, placed_at: self.placed_at }
    }
}

/// One listed item with its bidding window and its disposition.
#[derive(Debug)]
pub struct Auction {
    pub id: u64,
    pub seller: String,
    pub description: String,
    pub starting_price: u128,
    pub reserve_price: Option<u128>,
    pub created_at: u64,
    pub end_time: u64,
    pub current_bid: Option<Bid>,
    pub bids: Vec<Bid>,
    pub status: AuctionStatus,
    pub escrow_released: bool,
}

/// The mathematical value of an [`Auction`].
pub struct AuctionModel {
    pub id: u64,
    pub seller: Seq<char>,
    pub description: Seq<char>,
    pub starting_price: u128,
    pub reserve_price: Option<u128>,
    pub created_at: u64,
    pub end_time: u64,
    pub current_bid: Option<BidModel>,
    pub bids: Seq<BidModel>,
    pub status: AuctionStatus,
    pub escrow_released: bool,
}

pub open spec fn bid_option_view(b: Option<Bid>) -> Option<BidModel> {
    match b {
        Some(x) => Some(x@),
        None => None,
    }
}

impl View for Auction {
    type V = AuctionModel;

    open spec fn view(&self) -> AuctionModel {
        AuctionModel {
            id: self.id,
            seller: self.seller@,
            description: self.description@,
            starting_price: self.starting_price,
            reserve_price: self.reserve_price,
            created_at: self.created_at,
            end_time: self.end_time,
            current_bid: bid_option_view(self.current_bid),
            bids: self.bids@.map_values(|b: Bid| b@),
            status: self.status,
            escrow_released: self.escrow_released,
        }
    }
}

impl AuctionModel {
    /// The value a new bid has to exceed: the highest bid so far, or the
    /// starting price while there is none.
    pub open spec fn floor(self) -> u128 {
        match self.current_bid {
            Some(b) => b.amount,
            None => self.starting_price,
        }
    }

    /// The value held in escrow for this auction: the highest bid until the
    /// sale is completed, nothing afterwards.
    pub open spec fn escrowed(self) -> u128 {
        match self.current_bid {
            Some(b) => if self.escrow_released { 0 } else { b.amount },
            None => 0,
        }
    }

    /// Whether the bid history is a strictly increasing run of amounts above
    /// the starting price, with the current bid as its last entry.
    pub open spec fn bids_wf(self) -> bool {
        &&& forall|i: int| 0 <= i < self.bids.len() ==> self.starting_price < #[trigger] self.bids[i].amount
        &&& forall|i: int, j: int|
            0 <= i < j < self.bids.len() ==> #[trigger] self.bids[i].amount < #[trigger] self.bids[j].amount
        &&& self.current_bid == if self.bids.len() == 0 {
            None::<BidModel>
        } else {
            Some(self.bids.last())
        }
    }

    /// The invariant every stored auction keeps.
    pub open spec fn wf(self) -> bool {
        &&& self.description.len() > 0
        &&& self.starting_price > 0
        &&& self.created_at < self.end_time
        &&& self.bids_wf()
        &&& (self.status == AuctionStatus::EndedNoBids ==> self.current_bid is None)
        &&& (self.status == AuctionStatus::Sold ==> self.current_bid is Some)
        &&& (self.status == AuctionStatus::Completed ==> self.current_bid is Some)
        &&& self.escrow_released == (self.status == AuctionStatus::Completed)
    }
}

impl Auction {
    /// A field-by-field copy.
    pub fn duplicate(&self) -> (r: Auction)
        ensures
            r@ == self@,
    {
        let mut bids: Vec<Bid> = Vec::new();
        let mut i: usize = 0;
        while i < self.bids.len()
            invariant
                i <= self.bids@.len(),
                bids@.len() == i,
                forall|k: int| 0 <= k < i ==> #[trigger] bids@[k]@ == self.bids@[k]@,
            decreases self.bids@.len() - i,
        {
            bids.push(self.bids[i].duplicate());
            i = i + 1;
        }
        let current_bid = match &self.current_bid {
            Some(b) => Some(b.duplicate()),
            None => None,
        };
        let r = Auction {
            id: self.id,
            seller: self.seller.clone(),
            description: self.description.clone(),
            starting_price: self.starting_price,
            reserve_price: self.reserve_price,
            created_at: self.created_at,
            end_time: self.end_time,
            current_bid,
            bids,
            status: self.status,
            escrow_released: self.escrow_released,
        };
        assert(r@.bids =~= self@.bids);
        r
    }
}

} // verus!
