use std::collections::HashMap;

use vstd::prelude::*;

use crate::state::{Auction, AuctionModel, AuctionStatus};

verus! {

broadcast use vstd::std_specs::hash::group_hash_axioms;

/// How many auctions a listing returns when the caller names no limit.
pub const DEFAULT_LIST_LIMIT: u32 = 10;

/// The mathematical value of a sequence of auctions.
pub open spec fn models(v: Seq<Auction>) -> Seq<AuctionModel> {
    v.map_values(|a: Auction| a@)
}

/// The records with an id in `from..=to`, in ascending id order, at most
/// `limit` of them; ids without a record are skipped.
pub open spec fn listed(records: Map<u64, AuctionModel>, from: int, to: int, limit: nat) -> Seq<
    AuctionModel,
>
    decreases to + 1 - from,
{
    if from > to || limit == 0 {
        Seq::empty()
    } else if records.contains_key(from as u64) {
        seq![records[from as u64]] + listed(records, from + 1, to, (limit - 1) as nat)
    } else {
        listed(records, from + 1, to, limit)
    }
}

/// The records with an id in `from..=to` whose status is `Active`, in
/// ascending id order.
pub open spec fn active_in(records: Map<u64, AuctionModel>, from: int, to: int) -> Seq<AuctionModel>
    decreases to + 1 - from,
{
    if from > to {
        Seq::empty()
    } else if records.contains_key(from as u64) && records[from as u64].status
        == AuctionStatus::Active {
        seq![records[from as u64]] + active_in(records, from + 1, to)
    } else {
        active_in(records, from + 1, to)
    }
}

/// The first id a listing looks at: the one after `start_after`, or the first.
pub open spec fn list_start(start_after: Option<u64>) -> int {
    match start_after {
        Some(s) => s + 1,
        None => 1,
    }
}

/// The most records a listing returns.
pub open spec fn list_limit(limit: Option<u32>) -> nat {
    match limit {
        Some(l) => l as nat,
        None => DEFAULT_LIST_LIMIT as nat,
    }
}

/// The mathematical value of an [`AuctionStore`]: how many ids were ever
/// allocated, and the record stored under each id.
pub struct StoreModel {
    pub count: u64,
    pub records: Map<u64, AuctionModel>,
}

/// Durable mapping from auction id to auction record, with the counter that
/// allocates ids. It applies no business rule.
pub struct AuctionStore {
    count: u64,
    records: HashMap<u64, Auction>,
}

impl View for AuctionStore {
    type V = StoreModel;

    closed spec fn view(&self) -> StoreModel {
        StoreModel { count: self.count, records: self.records@.map_values(|a: Auction| a@) }
    }
}

impl AuctionStore {
    /// An empty store whose counter is zero.
    pub fn new() -> (r: AuctionStore)
        ensures
            r@.count == 0,
            r@.records == Map::<u64, AuctionModel>::empty(),
    {
        let r = AuctionStore { count: 0, records: HashMap::new() };
        assert(r@.records =~= Map::<u64, AuctionModel>::empty());
        r
    }

    /// The number of ids ever allocated.
    pub fn count(&self) -> (r: u64)
        ensures
            r == self@.count,
    {
        self.count
    }

    /// Allocates a fresh id: one above every id allocated before.
    pub fn next_id(&mut self) -> (r: u64)
        requires
            old(self)@.count < u64::MAX,
        ensures
            r == old(self)@.count + 1,
            final(self)@.count == r,
            final(self)@.records == old(self)@.records,
    {
        self.count = self.count + 1;
        self.count
    }

    /// A copy of the record stored under `id`, if any.
    pub fn get(&self, id: u64) -> (r: Option<Auction>)
        ensures
            r is Some <==> self@.records.contains_key(id),
            r matches Some(a) ==> a@ == self@.records[id],
    {
        match self.records.get(&id) {
            Some(a) => Some(a.duplicate()),
            None => None,
        }
    }

    /// Stores `record` under `id`, replacing any record there.
    pub fn put(&mut self, id: u64, record: Auction)
        ensures
            final(self)@.count == old(self)@.count,
            final(self)@.records == old(self)@.records.insert(id, record@),
    {
        let ghost v = record@;
        self.records.insert(id, record);
        assert(self@.records =~= old(self)@.records.insert(id, v));
    }

    /// Up to `limit` records (ten when none is given) with an id above
    /// `start_after` (from the first when none is given), in ascending id order.
    pub fn list(&self, start_after: Option<u64>, limit: Option<u32>) -> (r: Vec<Auction>)
        ensures
            models(r@) == listed(
                self@.records,
                list_start(start_after),
                self@.count as int,
                list_limit(limit),
            ),
    {
        let limit: usize = match limit {
            Some(l) => l as usize,
            None => DEFAULT_LIST_LIMIT as usize,
        };
        let start: u128 = match start_after {
            Some(s) => s as u128 + 1,
            None => 1,
        };
        let ghost m = self@.records;
        let ghost to = self@.count as int;
        let mut out: Vec<Auction> = Vec::new();
        let mut id: u128 = start;
        while id <= self.count as u128 && out.len() < limit
            invariant
                start <= id <= to + 1 || id == start,
                out@.len() <= limit,
                m == self@.records,
                to == self@.count,
                models(out@) + listed(m, id as int, to, (limit - out@.len()) as nat) == listed(
                    m,
                    start as int,
                    to,
                    limit as nat,
                ),
            decreases to + 1 - id,
        {
            let ghost before = out@;
            match self.get(id as u64) {
                Some(a) => {
                    out.push(a);
                    assert(models(out@) =~= models(before).push(m[id as u64]));
                    assert(models(out@) + listed(m, id + 1, to, (limit - out@.len()) as nat)
                        =~= models(before) + listed(m, id as int, to, (limit - before.len()) as nat));
                },
                None => {},
            }
            id = id + 1;
        }
        assert(listed(m, id as int, to, (limit - out@.len()) as nat) =~= Seq::<AuctionModel>::empty());
        assert(models(out@) =~= models(out@) + Seq::<AuctionModel>::empty());
        out
    }

    /// Every record whose status is `Active`, in ascending id order.
    pub fn active(&self) -> (r: Vec<Auction>)
        ensures
            models(r@) == active_in(self@.records, 1, self@.count as int),
    {
        let ghost m = self@.records;
        let ghost to = self@.count as int;
        let mut out: Vec<Auction> = Vec::new();
        let mut id: u128 = 1;
        while id <= self.count as u128
            invariant
                1 <= id <= to + 1,
                m == self@.records,
                to == self@.count,
                models(out@) + active_in(m, id as int, to) == active_in(m, 1, to),
            decreases to + 1 - id,
        {
            let ghost before = out@;
            match self.get(id as u64) {
                Some(a) => {
                    if a.status == AuctionStatus::Active {
                        out.push(a);
                        assert(models(out@) =~= models(before).push(m[id as u64]));
                        assert(models(out@) + active_in(m, id + 1, to) =~= models(before)
                            + active_in(m, id as int, to));
                    }
                },
                None => {},
            }
            id = id + 1;
        }
        assert(models(out@) =~= models(out@) + Seq::<AuctionModel>::empty());
        out
    }
}

} // verus!
