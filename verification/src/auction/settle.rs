//! Closing an auction: who wins, what is swapped and what is returned.

use crate::auction::msg::ContractInfo;
use crate::auction::msg::FactoryHandleMsg;
use crate::auction::msg::HandleAnswer;
use crate::auction::msg::Instruction;
use crate::auction::msg::ResponseStatus;
use crate::auction::state::bid_index;
use crate::auction::state::holds_bid;
use crate::auction::state::winner_index;
use crate::auction::state::OwnedBid;
use crate::auction::state::State;
use vstd::prelude::*;

verus! {

/// Whether closing the auction now swaps the sale tokens for a winning bid:
/// there is a bid, escrow is full and the auction is still open.
pub open spec fn has_winner(s: State) -> bool {
    s.bids@.len() > 0 && s.tokens_consigned && !s.is_completed
}

/// The bids that are returned when the auction closes: all but the winner's.
pub open spec fn losers(s: State) -> Seq<OwnedBid> {
    if has_winner(s) {
        s.bids@.remove(winner_index(s.bids@))
    } else {
        s.bids@
    }
}

/// One transfer of `token` per bid, back to its bidder, in the order of the
/// bids.
pub open spec fn refunds(bids: Seq<OwnedBid>, token: ContractInfo) -> Seq<Instruction> {
    Seq::new(
        bids.len(),
        |i: int|
            Instruction::Transfer {
                token,
                recipient: bids[i].bidder,
                amount: bids[i].bid.amount,
            },
    )
}

/// The swap: the winning bid goes to the seller, the sale tokens to the
/// winner.
pub open spec fn swap(s: State) -> Seq<Instruction> {
    if has_winner(s) {
        let win = s.bids@[winner_index(s.bids@)];
        seq![
            Instruction::Transfer {
                token: s.bid_contract,
                recipient: s.seller,
                amount: win.bid.amount,
            },
            Instruction::Transfer {
                token: s.sell_contract,
                recipient: win.bidder,
                amount: s.sell_amount,
            },
        ]
    } else {
        Seq::empty()
    }
}

/// The return of consigned tokens to the seller where no swap takes place.
pub open spec fn leftover(s: State) -> Seq<Instruction> {
    if !has_winner(s) && s.currently_consigned > 0 {
        seq![
            Instruction::Transfer {
                token: s.sell_contract,
                recipient: s.seller,
                amount: s.currently_consigned,
            },
        ]
    } else {
        Seq::empty()
    }
}

/// The notice of closure to the registry; sent once, when the auction
/// closes.
pub open spec fn closure_notice(s: State) -> Seq<Instruction> {
    if !s.is_completed {
        let win = s.bids@[winner_index(s.bids@)];
        seq![
            Instruction::Factory {
                factory: s.factory,
                msg: FactoryHandleMsg::CloseAuction {
                    index: s.index,
                    seller: s.seller,
                    bidder: if has_winner(s) {
                        Some(win.bidder)
                    } else {
                        None
                    },
                    winning_bid: if has_winner(s) {
                        Some(win.bid.amount)
                    } else {
                        None
                    },
                },
            },
        ]
    } else {
        Seq::empty()
    }
}

/// Everything that closing the auction, or sweeping a closed one, sends out:
/// the swap, the losing bids, the unsold consignment, the notice of closure.
pub open spec fn closing_messages(s: State) -> Seq<Instruction> {
    swap(s) + refunds(losers(s), s.bid_contract) + leftover(s) + closure_notice(s)
}

/// The sum of two amounts, held at the largest amount that can be told.
pub open spec fn capped_sum(a: u128, b: u128) -> u128 {
    if a + b <= u128::MAX {
        (a + b) as u128
    } else {
        u128::MAX
    }
}

/// The words of the answer to a closing request.
pub open spec fn closing_notice(
    won: bool,
    is_seller: bool,
    is_winner: bool,
    is_loser: bool,
    return_all: bool,
    consignment_returned: bool,
) -> Seq<char> {
    if won {
        "Sale has been finalized"@ + (if is_seller {
            ".  You have been sent the winning bid"@
        } else {
            Seq::empty()
        }) + (if is_winner {
            ".  Your bid won! You have been sent the sale token(s)"@
        } else if is_loser {
            ".  Your bid did not win and has been returned"@
        } else {
            Seq::empty()
        })
    } else if return_all {
        "Outstanding funds have been returned"@
    } else {
        "Auction has been closed"@ + (if consignment_returned {
            ".  Consigned tokens have been returned because there were no active bids"@
        } else {
            Seq::empty()
        })
    }
}

/// Whether `sender` placed the winning bid of `s`.
pub open spec fn sender_wins(s: State, sender: Seq<char>) -> bool {
    has_winner(s) && holds_bid(s.bids@, sender) && bid_index(s.bids@, sender) == winner_index(
        s.bids@,
    )
}

/// Whether `sender` placed a bid of `s` that is returned on closing.
pub open spec fn sender_loses(s: State, sender: Seq<char>) -> bool {
    holds_bid(s.bids@, sender) && !sender_wins(s, sender)
}

/// The sale tokens that closing `s` sends to `sender`: the unsold
/// consignment to the seller, the sale amount to the winner.
pub open spec fn sale_tokens_for(s: State, sender: Seq<char>) -> Option<u128> {
    if !has_winner(s) && s.currently_consigned > 0 && sender == s.seller@ {
        Some(s.currently_consigned)
    } else if sender_wins(s, sender) {
        Some(s.sell_amount)
    } else {
        None
    }
}

/// The bid tokens that closing `s` sends to `sender`: the winning bid to the
/// seller, and to a losing bidder its own bid.
pub open spec fn bid_tokens_for(s: State, sender: Seq<char>) -> Option<u128> {
    let won: Option<u128> = if has_winner(s) && sender == s.seller@ {
        Some(s.bids@[winner_index(s.bids@)].bid.amount)
    } else {
        None
    };
    if sender_loses(s, sender) {
        let own = s.bids@[bid_index(s.bids@, sender)].bid.amount;
        Some(
            capped_sum(
                match won {
                    Some(w) => w,
                    None => 0,
                },
                own,
            ),
        )
    } else {
        won
    }
}

/// Whether `answer` is the answer that closing `s` gives to `sender`.
pub open spec fn closing_answer_fits(
    s: State,
    sender: Seq<char>,
    return_all: bool,
    answer: HandleAnswer,
) -> bool {
    match answer {
        HandleAnswer::CloseAuction {
            status,
            message,
            winning_bid,
            bid_decimals,
            sell_tokens_received,
            sell_decimals,
            bid_tokens_received,
        } => {
            &&& status == ResponseStatus::Success
            &&& message@ == closing_notice(
                has_winner(s),
                sender == s.seller@,
                sender_wins(s, sender),
                sender_loses(s, sender),
                return_all,
                s.bids@.len() == 0 && sale_tokens_for(s, sender).is_some(),
            )
            &&& winning_bid == (if has_winner(s) {
                Some(s.bids@[winner_index(s.bids@)].bid.amount)
            } else {
                None
            })
            &&& bid_decimals == (if has_winner(s) || sender_loses(s, sender) {
                Some(s.bid_decimals)
            } else {
                None
            })
            &&& sell_tokens_received == sale_tokens_for(s, sender)
            &&& sell_decimals == (if sale_tokens_for(s, sender).is_some() {
                Some(s.sell_decimals)
            } else {
                None
            })
            &&& bid_tokens_received == bid_tokens_for(s, sender)
        },
        _ => false,
    }
}

/// Whether `after` is `before` closed: escrow empty, no bid left, the winning
/// bid recorded where there was a swap, and nothing else changed.
pub open spec fn closed_from(before: State, after: State) -> bool {
    &&& after.bids@.len() == 0
    &&& after == (State {
        currently_consigned: 0,
        bids: after.bids,
        is_completed: true,
        winning_bid: if has_winner(before) {
            before.bids@[winner_index(before.bids@)].bid.amount
        } else {
            before.winning_bid
        },
        ..before
    })
}

/// Builds the answer that closing `s` gives to `sender`.
pub fn closing_answer(s: &State, sender: &String, return_all: bool) -> (answer: HandleAnswer)
    requires
        s.wf(),
    ensures
        closing_answer_fits(*s, sender@, return_all, answer),
{
    let won = s.bids.len() > 0 && s.tokens_consigned && !s.is_completed;
    let is_seller = *sender == s.seller;
    let mine = s.find_bid(sender);
    let mut winning_bid: Option<u128> = None;
    let mut bid_tokens_received: Option<u128> = None;
    let mut sell_tokens_received: Option<u128> = None;
    let mut is_winner = false;
    let mut is_loser = false;
    if won {
        let w = s.select_winner();
        let amount = s.bids[w].bid.amount;
        winning_bid = Some(amount);
        if is_seller {
            bid_tokens_received = Some(amount);
        }
        if let Some(i) = mine {
            if i == w {
                is_winner = true;
                sell_tokens_received = Some(s.sell_amount);
            }
        }
    }
    if let Some(i) = mine {
        if !is_winner {
            is_loser = true;
            let own = s.bids[i].bid.amount;
            let so_far: u128 = match bid_tokens_received {
                Some(b) => b,
                None => 0,
            };
            let total: u128 = if so_far <= u128::MAX - own {
                so_far + own
            } else {
                u128::MAX
            };
            bid_tokens_received = Some(total);
        }
    }
    if !won && s.currently_consigned > 0 && is_seller {
        sell_tokens_received = Some(s.currently_consigned);
    }
    let bid_decimals = if won || is_loser {
        Some(s.bid_decimals)
    } else {
        None
    };
    let sell_decimals = if sell_tokens_received.is_some() {
        Some(s.sell_decimals)
    } else {
        None
    };
    let mut message: String;
    if won {
        message = String::from_str("Sale has been finalized");
        if is_seller {
            message.append(".  You have been sent the winning bid");
        }
        if is_winner {
            message.append(".  Your bid won! You have been sent the sale token(s)");
        } else if is_loser {
            message.append(".  Your bid did not win and has been returned");
        }
    } else if return_all {
        message = String::from_str("Outstanding funds have been returned");
    } else {
        message = String::from_str("Auction has been closed");
        if s.bids.len() == 0 && sell_tokens_received.is_some() {
            message.append(
                ".  Consigned tokens have been returned because there were no active bids",
            );
        }
    }
    proof {
        assert(message@ =~= closing_notice(
            has_winner(*s),
            sender@ == s.seller@,
            sender_wins(*s, sender@),
            sender_loses(*s, sender@),
            return_all,
            s.bids@.len() == 0 && sale_tokens_for(*s, sender@).is_some(),
        ));
    }
    HandleAnswer::CloseAuction {
        status: ResponseStatus::Success,
        message,
        winning_bid,
        bid_decimals,
        sell_tokens_received,
        sell_decimals,
        bid_tokens_received,
    }
}

/// Closes `state`, or sweeps it where it is closed already, and returns what
/// is to be sent out.
pub fn settle(state: &mut State) -> (messages: Vec<Instruction>)
    requires
        old(state).wf(),
    ensures
        final(state).wf(),
        closed_from(*old(state), *final(state)),
        messages@ == closing_messages(*old(state)),
{
    let ghost pre = *state;
    let mut messages: Vec<Instruction> = Vec::new();
    let won = state.bids.len() > 0 && state.tokens_consigned && !state.is_completed;
    let mut winner: Option<String> = None;
    let mut winning_amount: Option<u128> = None;
    if won {
        let w = state.select_winner();
        let win = state.bids.remove(w);
        messages.push(state.bid_contract.transfer_msg(state.seller.clone(), win.bid.amount));
        messages.push(state.sell_contract.transfer_msg(win.bidder.clone(), state.sell_amount));
        state.currently_consigned = 0;
        state.winning_bid = win.bid.amount;
        winning_amount = Some(win.bid.amount);
        winner = Some(win.bidder);
    }
    assert(messages@ =~= swap(pre));
    assert(state.bids@ =~= losers(pre));
    let mut i: usize = 0;
    while i < state.bids.len()
        invariant
            i <= state.bids@.len(),
            state.bids@ == losers(pre),
            state.bid_contract == pre.bid_contract,
            messages@ == swap(pre) + refunds(losers(pre).take(i as int), pre.bid_contract),
        decreases state.bids@.len() - i,
    {
        let refund = state.bid_contract.transfer_msg(
            state.bids[i].bidder.clone(),
            state.bids[i].bid.amount,
        );
        messages.push(refund);
        proof {
            assert(messages@ =~= swap(pre) + refunds(
                losers(pre).take(i + 1),
                pre.bid_contract,
            ));
        }
        i += 1;
    }
    assert(losers(pre).take(i as int) =~= losers(pre));
    state.bids = Vec::new();
    if state.currently_consigned > 0 {
        messages.push(
            state.sell_contract.transfer_msg(state.seller.clone(), state.currently_consigned),
        );
        state.currently_consigned = 0;
    }
    assert(messages@ =~= swap(pre) + refunds(losers(pre), pre.bid_contract) + leftover(pre));
    if !state.is_completed {
        state.is_completed = true;
        messages.push(
            Instruction::Factory {
                factory: state.factory.duplicate(),
                msg: FactoryHandleMsg::CloseAuction {
                    index: state.index,
                    seller: state.seller.clone(),
                    bidder: winner,
                    winning_bid: winning_amount,
                },
            },
        );
    }
    assert(messages@ =~= closing_messages(pre));
    messages
}

} // verus!
