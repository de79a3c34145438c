//! The persisted state of one auction: its descriptor and the live bids.

use crate::auction::msg::ContractInfo;
use vstd::prelude::*;

verus! {

/// A bid: how much, and when it was placed or last changed.
#[derive(Clone, Copy, Debug, PartialEq, Eq, Structural)]
pub struct Bid {
    /// amount of bid tokens held in escrow for this bid
    pub amount: u128,
    /// time the bid was placed, in seconds since the epoch
    pub timestamp: u64,
}

/// A live bid together with the identity that placed it.
#[derive(Clone, Debug, PartialEq, Eq)]
pub struct OwnedBid {
    pub bidder: String,
    pub bid: Bid,
}

/// State of the auction. An identity is a bidder exactly when `bids` holds a
/// record for it, and it holds at most one.
#[derive(Clone, Debug, PartialEq, Eq)]
pub struct State {
    /// factory code hash and address
    pub factory: ContractInfo,
    /// auction index with the factory
    pub index: u32,
    /// address of this auction contract
    pub auction_addr: String,
    /// address of the auction creator
    pub seller: String,
    /// code hash and address of the sale token
    pub sell_contract: ContractInfo,
    /// decimal places of the sale token
    pub sell_decimals: u8,
    /// code hash and address of the bid token
    pub bid_contract: ContractInfo,
    /// decimal places of the bid token
    pub bid_decimals: u8,
    /// amount of tokens for sale
    pub sell_amount: u128,
    /// minimum bid that will be accepted
    pub minimum_bid: u128,
    /// amount of sale tokens currently held in escrow
    pub currently_consigned: u128,
    /// the live bids, oldest bidder first
    pub bids: Vec<OwnedBid>,
    /// time after which anyone may close the auction; without one only the
    /// seller may close it
    pub ends_at: Option<u64>,
    /// true once the auction has been closed
    pub is_completed: bool,
    /// true once the full sale amount has been consigned
    pub tokens_consigned: bool,
    /// optional description of the auction
    pub description: Option<String>,
    /// winning bid; zero while there is none
    pub winning_bid: u128,
}

/// No identity owns two of the bids.
pub open spec fn distinct_bidders(bids: Seq<OwnedBid>) -> bool {
    forall|i: int, j: int|
        0 <= i < j < bids.len() ==> (#[trigger] bids[i]).bidder@ != (#[trigger] bids[j]).bidder@
}

/// Whether `who` owns one of the bids.
pub open spec fn holds_bid(bids: Seq<OwnedBid>, who: Seq<char>) -> bool {
    exists|i: int| 0 <= i < bids.len() && (#[trigger] bids[i]).bidder@ == who
}

/// The position of the bid that `who` owns, where there is one.
pub open spec fn bid_index(bids: Seq<OwnedBid>, who: Seq<char>) -> int {
    choose|i: int| 0 <= i < bids.len() && (#[trigger] bids[i]).bidder@ == who
}

/// Whether the bid at position `i` stands at or above the bid at position `j`
/// when the auction closes: a higher amount stands above a lower; of equal
/// amounts the earlier timestamp stands above the later; of two bids equal in
/// both the one stored later stands above.
pub open spec fn stands_above(bids: Seq<OwnedBid>, i: int, j: int) -> bool {
    let a = bids[i].bid;
    let b = bids[j].bid;
    a.amount > b.amount || (a.amount == b.amount && (a.timestamp < b.timestamp || (a.timestamp
        == b.timestamp && i >= j)))
}

/// Whether position `w` holds the winning bid.
pub open spec fn is_winner(bids: Seq<OwnedBid>, w: int) -> bool {
    &&& 0 <= w < bids.len()
    &&& forall|j: int| 0 <= j < bids.len() ==> #[trigger] stands_above(bids, w, j)
}

/// The position of the winning bid among one or more bids.
pub open spec fn winner_index(bids: Seq<OwnedBid>) -> int {
    choose|w: int| is_winner(bids, w)
}

/// The sum of the amounts of all the bids.
pub open spec fn total_bid(bids: Seq<OwnedBid>) -> nat
    decreases bids.len(),
{
    if bids.len() == 0 {
        0
    } else {
        total_bid(bids.drop_last()) + bids.last().bid.amount as nat
    }
}

/// Only one position can hold the winning bid.
pub proof fn lemma_winner_unique(bids: Seq<OwnedBid>, v: int, w: int)
    requires
        is_winner(bids, v),
        is_winner(bids, w),
    ensures
        v == w,
{
    assert(stands_above(bids, v, w));
    assert(stands_above(bids, w, v));
}

/// Among one or more bids one is the winning bid.
pub proof fn lemma_winner_exists(bids: Seq<OwnedBid>)
    requires
        bids.len() > 0,
    ensures
        is_winner(bids, winner_index(bids)),
    decreases bids.len(),
{
    if bids.len() == 1 {
        assert(stands_above(bids, 0, 0));
        assert(is_winner(bids, 0));
    } else {
        let front = bids.drop_last();
        lemma_winner_exists(front);
        let v = winner_index(front);
        let last = bids.len() - 1;
        assert forall|j: int| 0 <= j < front.len() implies #[trigger] stands_above(bids, v, j) by {
            assert(stands_above(front, v, j));
        }
        if stands_above(bids, v, last) {
            assert(is_winner(bids, v));
        } else {
            assert forall|j: int| 0 <= j < bids.len() implies #[trigger] stands_above(
                bids,
                last,
                j,
            ) by {
                if j < last {
                    assert(stands_above(bids, v, j));
                }
            }
            assert(is_winner(bids, last));
        }
    }
}

/// Where each identity owns at most one bid, a bid found for `who` is the bid
/// of `who`.
pub proof fn lemma_bid_index(bids: Seq<OwnedBid>, who: Seq<char>, i: int)
    requires
        distinct_bidders(bids),
        0 <= i < bids.len(),
        bids[i].bidder@ == who,
    ensures
        holds_bid(bids, who),
        bid_index(bids, who) == i,
{
    let j = bid_index(bids, who);
    assert(0 <= j < bids.len() && bids[j].bidder@ == who);
    if j < i {
        assert(bids[j].bidder@ != bids[i].bidder@);
    }
    if i < j {
        assert(bids[i].bidder@ != bids[j].bidder@);
    }
}

impl OwnedBid {
    /// A copy of this record.
    pub fn duplicate(&self) -> (copy: OwnedBid)
        ensures
            copy == *self,
    {
        OwnedBid { bidder: self.bidder.clone(), bid: self.bid }
    }
}

impl State {
    /// The invariant of the auction state: something is for sale, the two
    /// tokens differ, escrow never exceeds the sale amount, the consigned flag
    /// tells whether escrow is full for as long as the auction is open, and
    /// each identity owns at most one bid.
    pub open spec fn wf(&self) -> bool {
        &&& self.sell_amount > 0
        &&& self.sell_contract.address@ != self.bid_contract.address@
        &&& self.currently_consigned <= self.sell_amount
        &&& !self.is_completed ==> (self.tokens_consigned <==> self.currently_consigned
            == self.sell_amount)
        &&& distinct_bidders(self.bids@)
    }

    /// The identities with a live bid.
    pub open spec fn bidders(&self) -> Set<Seq<char>> {
        Set::new(|who: Seq<char>| holds_bid(self.bids@, who))
    }

    /// The live bid of `who`, if any.
    pub open spec fn bid_of(&self, who: Seq<char>) -> Option<Bid> {
        if holds_bid(self.bids@, who) {
            Some(self.bids@[bid_index(self.bids@, who)].bid)
        } else {
            None
        }
    }

    /// Whether nothing is left in escrow: no bid and no sale tokens.
    pub open spec fn is_settled(&self) -> bool {
        self.bids@.len() == 0 && self.currently_consigned == 0
    }

    /// Looks up the position of the live bid of `who`.
    pub fn find_bid(&self, who: &String) -> (found: Option<usize>)
        requires
            self.wf(),
        ensures
            found.is_some() == holds_bid(self.bids@, who@),
            found matches Some(i) ==> i as int == bid_index(self.bids@, who@) && i
                < self.bids@.len() && self.bids@[i as int].bidder@ == who@,
    {
        let mut i: usize = 0;
        while i < self.bids.len()
            invariant
                i <= self.bids@.len(),
                self.wf(),
                forall|k: int| 0 <= k < i ==> (#[trigger] self.bids@[k]).bidder@ != who@,
            decreases self.bids@.len() - i,
        {
            if self.bids[i].bidder == *who {
                proof {
                    lemma_bid_index(self.bids@, who@, i as int);
                }
                return Some(i);
            }
            i += 1;
        }
        None
    }

    /// Finds the position of the winning bid among one or more bids.
    pub fn select_winner(&self) -> (w: usize)
        requires
            self.bids@.len() > 0,
        ensures
            is_winner(self.bids@, w as int),
            w as int == winner_index(self.bids@),
    {
        let mut w: usize = 0;
        let mut i: usize = 1;
        while i < self.bids.len()
            invariant
                1 <= i <= self.bids@.len(),
                w < i,
                forall|j: int| 0 <= j < i ==> #[trigger] stands_above(self.bids@, w as int, j),
            decreases self.bids@.len() - i,
        {
            let challenger = self.bids[i].bid;
            let holder = self.bids[w].bid;
            if challenger.amount > holder.amount || (challenger.amount == holder.amount
                && challenger.timestamp <= holder.timestamp) {
                proof {
                    assert forall|j: int| 0 <= j < i + 1 implies #[trigger] stands_above(
                        self.bids@,
                        i as int,
                        j,
                    ) by {
                        if j < i {
                            assert(stands_above(self.bids@, w as int, j));
                        }
                    }
                }
                w = i;
            }
            i += 1;
        }
        proof {
            assert(is_winner(self.bids@, w as int));
            lemma_winner_unique(self.bids@, w as int, winner_index(self.bids@));
        }
        w
    }
}

} // verus!
