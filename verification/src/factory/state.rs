//! What the registry keeps: its configuration, the table of token symbols
//! and sets of auction indexes.

use crate::factory::msg::AuctionContractInfo;
use std::collections::HashSet;
use vstd::prelude::*;

verus! {

broadcast use vstd::std_specs::hash::group_hash_axioms;

/// Symbol and number of decimal places of a token.
#[derive(Clone, Debug, PartialEq, Eq)]
pub struct TokenSymDec {
    /// token symbol
    pub symbol: String,
    /// number of decimal places for the token
    pub decimals: u8,
}

/// Maps a token contract address to its place in the table of symbols.
#[derive(Clone, Debug, PartialEq, Eq)]
pub struct SymbolIndex {
    pub token: String,
    pub index: u16,
}

/// The data used when creating a new auction.
#[derive(Clone, Debug, PartialEq, Eq)]
pub struct Config {
    /// code id and code hash of the auction contract
    pub version: AuctionContractInfo,
    /// token contract address to place in the table of symbols; a later
    /// entry for an address replaces an earlier one
    pub symdecmap: Vec<SymbolIndex>,
    /// unique id to give the next auction
    pub index: u32,
    /// true while the creation of auctions is disabled
    pub stopped: bool,
    /// address of the factory admin
    pub admin: String,
}

/// The place of `token` in the table of symbols, if it has one.
pub open spec fn symbol_of(entries: Seq<SymbolIndex>, token: Seq<char>) -> Option<u16>
    decreases entries.len(),
{
    if entries.len() == 0 {
        None
    } else if entries.last().token@ == token {
        Some(entries.last().index)
    } else {
        symbol_of(entries.drop_last(), token)
    }
}

/// Looks up the place of `token` in the table of symbols.
pub fn lookup_symbol(entries: &Vec<SymbolIndex>, token: &String) -> (found: Option<u16>)
    ensures
        found == symbol_of(entries@, token@),
{
    let mut i: usize = entries.len();
    proof {
        assert(entries@.take(i as int) =~= entries@);
    }
    while i > 0
        invariant
            i <= entries@.len(),
            symbol_of(entries@, token@) == symbol_of(entries@.take(i as int), token@),
        decreases i,
    {
        proof {
            assert(entries@.take(i as int).drop_last() =~= entries@.take(i - 1));
        }
        if entries[i - 1].token == *token {
            return Some(entries[i - 1].index);
        }
        i -= 1;
    }
    proof {
        assert(entries@.take(0).len() == 0);
    }
    None
}

/// The set that a person's list holds; a person without a list has none.
pub open spec fn listed(list: Option<&HashSet<u32>>) -> Set<u32> {
    match list {
        Some(l) => l@,
        None => Set::<u32>::empty(),
    }
}

/// Reconciles a person's list of active auctions with the factory's: keeps
/// what the factory still lists as active, and tells whether anything was
/// dropped. A person without a list has none active.
pub fn filter_only_active(mine: Option<&HashSet<u32>>, active: &HashSet<u32>) -> (out: (
    HashSet<u32>,
    bool,
))
    ensures
        out.0@ == listed(mine).intersect(active@),
        out.1 == !listed(mine).subset_of(active@),
{
    let mut kept: HashSet<u32> = HashSet::new();
    let mut dropped = false;
    let my_auctions = match mine {
        Some(m) => m,
        None => {
            proof {
                assert(kept@ =~= listed(mine).intersect(active@));
            }
            return (kept, false);
        },
    };
    for index in it: my_auctions.iter()
        invariant
            forall|y: u32|
                kept@.contains(y) <==> (active@.contains(y) && exists|k: int|
                    0 <= k < it.index() && #[trigger] it.seq().unref()[k] == y),
            dropped <==> (exists|k: int|
                0 <= k < it.index() && !active@.contains(#[trigger] it.seq().unref()[k])),
            forall|y: u32| my_auctions@.contains(y) <==> it.seq().unref().contains(y),
    {
        assert(it.seq().unref()[it.index()] == *index);
        if active.contains(index) {
            kept.insert(*index);
        } else {
            dropped = true;
        }
    }
    proof {
        assert(kept@ =~= my_auctions@.intersect(active@));
    }
    (kept, dropped)
}

} // verus!
