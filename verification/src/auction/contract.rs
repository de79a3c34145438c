//! The handlers of the auction engine. Each takes the persisted state and an
//! event, changes the state, and returns the instructions to send out and the
//! answer for the caller; the three are committed together or not at all.

use crate::auction::msg::ContractError;
use crate::auction::msg::FactoryAuctionInfo;
use crate::auction::msg::FactoryHandleMsg;
use crate::auction::msg::HandleAnswer;
use crate::auction::msg::HandleMsg;
use crate::auction::msg::HandleResponse;
use crate::auction::msg::InitMsg;
use crate::auction::msg::Instruction;
use crate::auction::msg::ResponseStatus;
use crate::auction::settle::closed_from;
use crate::auction::settle::closing_answer;
use crate::auction::settle::closing_answer_fits;
use crate::auction::settle::closing_messages;
use crate::auction::settle::settle;
use crate::auction::state::bid_index;
use crate::auction::state::holds_bid;
use crate::auction::state::Bid;
use crate::auction::state::OwnedBid;
use crate::auction::state::State;
use vstd::prelude::*;

verus! {

/// What the ledger tells a handler about the call it serves.
#[derive(Clone, Debug, PartialEq, Eq)]
pub struct Env {
    /// identity of the caller
    pub sender: String,
    /// time of the block, in seconds since the epoch
    pub block_time: u64,
    /// address of the contract that is called
    pub contract_address: String,
    /// code hash of the contract that is called
    pub contract_code_hash: String,
}

/// A new auction and the instructions that announce it.
#[derive(Clone, Debug, PartialEq, Eq)]
pub struct InitResponse {
    pub state: State,
    pub messages: Vec<Instruction>,
}

/// Whether `state` is the state of a new auction with the terms of `msg`.
pub open spec fn initial_state(env: Env, msg: InitMsg, state: State) -> bool {
    &&& state.bids@.len() == 0
    &&& state == (State {
        factory: msg.factory,
        index: msg.index,
        auction_addr: env.contract_address,
        seller: msg.seller,
        sell_contract: msg.sell_contract,
        sell_decimals: msg.sell_decimals,
        bid_contract: msg.bid_contract,
        bid_decimals: msg.bid_decimals,
        sell_amount: msg.sell_amount,
        minimum_bid: msg.minimum_bid,
        currently_consigned: 0,
        bids: state.bids,
        ends_at: msg.ends_at,
        is_completed: false,
        tokens_consigned: false,
        description: msg.description,
        winning_bid: 0,
    })
}

/// What a new auction sends out: the two subscriptions to deposit
/// notifications, sale token first, then its registration with the factory.
pub open spec fn initial_messages(env: Env, msg: InitMsg) -> Seq<Instruction> {
    seq![
        Instruction::RegisterReceive {
            token: msg.sell_contract,
            code_hash: env.contract_code_hash,
        },
        Instruction::RegisterReceive {
            token: msg.bid_contract,
            code_hash: env.contract_code_hash,
        },
        Instruction::Factory {
            factory: msg.factory,
            msg: FactoryHandleMsg::RegisterAuction {
                seller: msg.seller,
                auction: FactoryAuctionInfo {
                    index: msg.index,
                    label: msg.label,
                    sell_symbol: msg.sell_symbol,
                    bid_symbol: msg.bid_symbol,
                    sell_amount: msg.sell_amount,
                    minimum_bid: msg.minimum_bid,
                    ends_at: msg.ends_at,
                },
                sell_contract: msg.sell_contract,
            },
        },
    ]
}

/// Creates an auction. Nothing can be sold of a sale amount of zero, and the
/// sale token cannot be the bid token.
pub fn init(env: Env, msg: InitMsg) -> (res: Result<InitResponse, ContractError>)
    ensures
        msg.sell_amount == 0 ==> res == Err::<InitResponse, ContractError>(
            ContractError::ZeroSellAmount,
        ),
        msg.sell_amount != 0 && msg.sell_contract.address@ == msg.bid_contract.address@ ==> res
            == Err::<InitResponse, ContractError>(ContractError::SameTokenContracts),
        msg.sell_amount != 0 && msg.sell_contract.address@ != msg.bid_contract.address@ ==> (
        res matches Ok(r) && r.state.wf() && initial_state(env, msg, r.state) && r.messages@
            == initial_messages(env, msg)),
{
    if msg.sell_amount == 0 {
        return Err(ContractError::ZeroSellAmount);
    }
    if msg.sell_contract.address == msg.bid_contract.address {
        return Err(ContractError::SameTokenContracts);
    }
    let auction = FactoryAuctionInfo {
        index: msg.index,
        label: msg.label,
        sell_symbol: msg.sell_symbol,
        bid_symbol: msg.bid_symbol,
        sell_amount: msg.sell_amount,
        minimum_bid: msg.minimum_bid,
        ends_at: msg.ends_at,
    };
    let mut messages: Vec<Instruction> = Vec::new();
    messages.push(msg.sell_contract.register_receive_msg(env.contract_code_hash.clone()));
    messages.push(msg.bid_contract.register_receive_msg(env.contract_code_hash));
    messages.push(
        Instruction::Factory {
            factory: msg.factory.duplicate(),
            msg: FactoryHandleMsg::RegisterAuction {
                seller: msg.seller.clone(),
                auction,
                sell_contract: msg.sell_contract.duplicate(),
            },
        },
    );
    let state = State {
        factory: msg.factory,
        index: msg.index,
        auction_addr: env.contract_address,
        seller: msg.seller,
        sell_contract: msg.sell_contract,
        sell_decimals: msg.sell_decimals,
        bid_contract: msg.bid_contract,
        bid_decimals: msg.bid_decimals,
        sell_amount: msg.sell_amount,
        minimum_bid: msg.minimum_bid,
        currently_consigned: 0,
        bids: Vec::new(),
        ends_at: msg.ends_at,
        is_completed: false,
        tokens_consigned: false,
        description: msg.description,
        winning_bid: 0,
    };
    proof {
        assert(messages@ =~= initial_messages(env, msg));
    }
    Ok(InitResponse { state, messages })
}

/// Whether `answer` is a consign answer with these fields.
pub open spec fn is_consign_answer(
    answer: HandleAnswer,
    want_status: ResponseStatus,
    text: Seq<char>,
    consigned: u128,
    needed: Option<u128>,
    returned: Option<u128>,
    decimals: u8,
) -> bool {
    match answer {
        HandleAnswer::Consign {
            status,
            message,
            amount_consigned,
            amount_needed,
            amount_returned,
            sell_decimals,
        } => status == want_status && message@ == text && amount_consigned == consigned
            && amount_needed == needed && amount_returned == returned && sell_decimals
            == decimals,
        _ => false,
    }
}

/// What stands in the way of a consignment, if anything: the depositor is
/// not the seller, the auction is closed, or escrow is full already.
pub open spec fn consign_refusal(s: State, owner: Seq<char>) -> Option<Seq<char>> {
    if owner != s.seller@ {
        Some("Only auction creator can consign tokens for sale.  Your tokens have been returned"@)
    } else if s.is_completed {
        Some("Auction has ended. Your tokens have been returned"@)
    } else if s.tokens_consigned {
        Some("Tokens to be sold have already been consigned. Your tokens have been returned"@)
    } else {
        None
    }
}

/// The state after a deposit of `amount` sale tokens by `owner`: unchanged
/// where the deposit is refused; otherwise escrow grows by the deposit, up
/// to the sale amount, and is marked full when it reaches it.
pub open spec fn consigned(before: State, owner: Seq<char>, amount: u128) -> State {
    let total = before.currently_consigned + amount;
    if consign_refusal(before, owner).is_some() {
        before
    } else if total < before.sell_amount {
        State { currently_consigned: total as u128, ..before }
    } else {
        State { currently_consigned: before.sell_amount, tokens_consigned: true, ..before }
    }
}

/// What a deposit of `amount` sale tokens by `owner` does to `before`.
pub open spec fn consign_post(
    before: State,
    owner: String,
    amount: u128,
    after: State,
    r: HandleResponse,
) -> bool {
    let total = before.currently_consigned + amount;
    &&& after == consigned(before, owner@, amount)
    &&& match consign_refusal(before, owner@) {
        Some(reason) => {
            &&& r.messages@ == seq![
                Instruction::Transfer { token: before.sell_contract, recipient: owner, amount },
            ]
            &&& is_consign_answer(
                r.answer,
                ResponseStatus::Failure,
                reason,
                before.currently_consigned,
                None,
                Some(amount),
                before.sell_decimals,
            )
        },
        None => if total < before.sell_amount {
            &&& r.messages@ == Seq::<Instruction>::empty()
            &&& is_consign_answer(
                r.answer,
                ResponseStatus::Failure,
                "You have not consigned the full amount to be sold.  You need to consign additional tokens"@,
                total as u128,
                Some((before.sell_amount - total) as u128),
                None,
                before.sell_decimals,
            )
        } else if total == before.sell_amount {
            &&& r.messages@ == Seq::<Instruction>::empty()
            &&& is_consign_answer(
                r.answer,
                ResponseStatus::Success,
                "Tokens to be sold have been consigned to the auction"@,
                before.sell_amount,
                None,
                None,
                before.sell_decimals,
            )
        } else {
            &&& r.messages@ == seq![
                Instruction::Transfer {
                    token: before.sell_contract,
                    recipient: owner,
                    amount: (total - before.sell_amount) as u128,
                },
            ]
            &&& is_consign_answer(
                r.answer,
                ResponseStatus::Success,
                "Tokens to be sold have been consigned to the auction"@
                    + ".  Excess tokens have been returned"@,
                before.sell_amount,
                None,
                Some((total - before.sell_amount) as u128),
                before.sell_decimals,
            )
        },
    }
}

/// Returns a deposit of sale tokens that cannot be consigned.
fn refuse_consign(state: &State, owner: String, amount: u128, reason: &str) -> (r:
    HandleResponse)
    ensures
        r.messages@ == seq![
            Instruction::Transfer { token: state.sell_contract, recipient: owner, amount },
        ],
        is_consign_answer(
            r.answer,
            ResponseStatus::Failure,
            reason@,
            state.currently_consigned,
            None,
            Some(amount),
            state.sell_decimals,
        ),
{
    let mut messages: Vec<Instruction> = Vec::new();
    messages.push(state.sell_contract.transfer_msg(owner, amount));
    proof {
        assert(messages@ =~= seq![
            Instruction::Transfer { token: state.sell_contract, recipient: owner, amount },
        ]);
    }
    HandleResponse {
        messages,
        answer: HandleAnswer::Consign {
            status: ResponseStatus::Failure,
            message: String::from_str(reason),
            amount_consigned: state.currently_consigned,
            amount_needed: None,
            amount_returned: Some(amount),
            sell_decimals: state.sell_decimals,
        },
    }
}

/// Processes a deposit of sale tokens. Only the seller consigns, only while
/// the auction is open and escrow is not full; any other deposit is returned.
/// Escrow fills up to the sale amount and what exceeds it is returned.
pub fn try_consign(state: &mut State, owner: String, amount: u128) -> (r: HandleResponse)
    requires
        old(state).wf(),
    ensures
        final(state).wf(),
        final(state).currently_consigned <= final(state).sell_amount,
        !final(state).is_completed ==> (final(state).tokens_consigned
            <==> final(state).currently_consigned == final(state).sell_amount),
        consign_post(*old(state), owner, amount, *final(state), r),
{
    if owner != state.seller {
        return refuse_consign(
            state,
            owner,
            amount,
            "Only auction creator can consign tokens for sale.  Your tokens have been returned",
        );
    }
    if state.is_completed {
        return refuse_consign(
            state,
            owner,
            amount,
            "Auction has ended. Your tokens have been returned",
        );
    }
    if state.tokens_consigned {
        return refuse_consign(
            state,
            owner,
            amount,
            "Tokens to be sold have already been consigned. Your tokens have been returned",
        );
    }
    let missing: u128 = state.sell_amount - state.currently_consigned;
    let mut messages: Vec<Instruction> = Vec::new();
    if amount < missing {
        state.currently_consigned = state.currently_consigned + amount;
        return HandleResponse {
            messages,
            answer: HandleAnswer::Consign {
                status: ResponseStatus::Failure,
                message: String::from_str(
                    "You have not consigned the full amount to be sold.  You need to consign additional tokens",
                ),
                amount_consigned: state.currently_consigned,
                amount_needed: Some(missing - amount),
                amount_returned: None,
                sell_decimals: state.sell_decimals,
            },
        };
    }
    state.tokens_consigned = true;
    state.currently_consigned = state.sell_amount;
    let mut message = String::from_str("Tokens to be sold have been consigned to the auction");
    let mut excess: Option<u128> = None;
    if amount > missing {
        excess = Some(amount - missing);
        messages.push(state.sell_contract.transfer_msg(owner, amount - missing));
        message.append(".  Excess tokens have been returned");
        proof {
            assert(messages@ =~= seq![
                Instruction::Transfer {
                    token: state.sell_contract,
                    recipient: owner,
                    amount: (amount - missing) as u128,
                },
            ]);
        }
    }
    HandleResponse {
        messages,
        answer: HandleAnswer::Consign {
            status: ResponseStatus::Success,
            message,
            amount_consigned: state.currently_consigned,
            amount_needed: None,
            amount_returned: excess,
            sell_decimals: state.sell_decimals,
        },
    }
}

/// Whether `answer` is a bid answer with these fields.
pub open spec fn is_bid_answer(
    answer: HandleAnswer,
    want_status: ResponseStatus,
    text: Seq<char>,
    previous: Option<u128>,
    minimum: Option<u128>,
    bid: Option<u128>,
    returned: Option<u128>,
    decimals: u8,
) -> bool {
    match answer {
        HandleAnswer::Bid {
            status,
            message,
            previous_bid,
            minimum_bid,
            amount_bid,
            amount_returned,
            bid_decimals,
        } => status == want_status && message@ == text && previous_bid == previous
            && minimum_bid == minimum && amount_bid == bid && amount_returned == returned
            && bid_decimals == decimals,
        _ => false,
    }
}

/// What a deposit of `amount` bid tokens by `bidder` at `time` does to
/// `before`.
///
/// A deposit into a closed auction, of nothing, or of less than the minimum
/// bid is returned. A first bid is recorded and the bidder registered with
/// the factory. A repeated bid of the same amount is returned and the
/// standing bid keeps its timestamp. A bid of another amount, higher or
/// lower, replaces the standing bid and its timestamp, and the standing
/// amount is returned.
pub open spec fn bid_post(
    before: State,
    bidder: String,
    amount: u128,
    time: u64,
    after: State,
    r: HandleResponse,
) -> bool {
    let give_back = seq![
        Instruction::Transfer { token: before.bid_contract, recipient: bidder, amount },
    ];
    let dec = before.bid_decimals;
    let i = bid_index(before.bids@, bidder@);
    let placed = OwnedBid { bidder, bid: Bid { amount, timestamp: time } };
    if before.is_completed {
        &&& after == before
        &&& r.messages@ == give_back
        &&& is_bid_answer(
            r.answer,
            ResponseStatus::Failure,
            "Auction has ended. Bid tokens have been returned"@,
            None,
            None,
            None,
            Some(amount),
            dec,
        )
    } else if amount == 0 {
        &&& after == before
        &&& r.messages@ == give_back
        &&& is_bid_answer(
            r.answer,
            ResponseStatus::Failure,
            "Bid must be greater than 0"@,
            None,
            None,
            None,
            Some(amount),
            dec,
        )
    } else if amount < before.minimum_bid {
        &&& after == before
        &&& r.messages@ == give_back
        &&& is_bid_answer(
            r.answer,
            ResponseStatus::Failure,
            "Bid was less than minimum allowed.  Bid tokens have been returned"@,
            None,
            Some(before.minimum_bid),
            None,
            Some(amount),
            dec,
        )
    } else if !holds_bid(before.bids@, bidder@) {
        &&& after == (State { bids: after.bids, ..before })
        &&& after.bids@ == before.bids@.push(placed)
        &&& r.messages@ == seq![
            Instruction::Factory {
                factory: before.factory,
                msg: FactoryHandleMsg::RegisterBidder { index: before.index, bidder },
            },
        ]
        &&& is_bid_answer(
            r.answer,
            ResponseStatus::Success,
            "Bid accepted"@,
            None,
            None,
            Some(amount),
            None,
            dec,
        )
    } else if before.bids@[i].bid.amount == amount {
        &&& after == before
        &&& r.messages@ == give_back
        &&& is_bid_answer(
            r.answer,
            ResponseStatus::Failure,
            "New bid is the same as previous bid.  Retaining previous timestamp"@,
            Some(amount),
            None,
            Some(amount),
            Some(amount),
            dec,
        )
    } else {
        &&& after == (State { bids: after.bids, ..before })
        &&& after.bids@ == before.bids@.update(i, placed)
        &&& r.messages@ == seq![
            Instruction::Transfer {
                token: before.bid_contract,
                recipient: bidder,
                amount: before.bids@[i].bid.amount,
            },
        ]
        &&& is_bid_answer(
            r.answer,
            ResponseStatus::Success,
            "Bid accepted"@ + ". Previously bid tokens have been returned"@,
            None,
            None,
            Some(amount),
            Some(before.bids@[i].bid.amount),
            dec,
        )
    }
}

/// Returns a deposit of bid tokens that is not accepted as a bid.
fn refuse_bid(
    state: &State,
    bidder: String,
    amount: u128,
    reason: &str,
    previous: Option<u128>,
    minimum: Option<u128>,
    bid: Option<u128>,
) -> (r: HandleResponse)
    ensures
        r.messages@ == seq![
            Instruction::Transfer { token: state.bid_contract, recipient: bidder, amount },
        ],
        is_bid_answer(
            r.answer,
            ResponseStatus::Failure,
            reason@,
            previous,
            minimum,
            bid,
            Some(amount),
            state.bid_decimals,
        ),
{
    let mut messages: Vec<Instruction> = Vec::new();
    messages.push(state.bid_contract.transfer_msg(bidder, amount));
    proof {
        assert(messages@ =~= seq![
            Instruction::Transfer { token: state.bid_contract, recipient: bidder, amount },
        ]);
    }
    HandleResponse {
        messages,
        answer: HandleAnswer::Bid {
            status: ResponseStatus::Failure,
            message: String::from_str(reason),
            previous_bid: previous,
            minimum_bid: minimum,
            amount_bid: bid,
            amount_returned: Some(amount),
            bid_decimals: state.bid_decimals,
        },
    }
}

/// Processes a deposit of bid tokens.
pub fn try_bid(state: &mut State, bidder: String, amount: u128, time: u64) -> (r:
    HandleResponse)
    requires
        old(state).wf(),
    ensures
        final(state).wf(),
        bid_post(*old(state), bidder, amount, time, *final(state), r),
{
    if state.is_completed {
        return refuse_bid(
            state,
            bidder,
            amount,
            "Auction has ended. Bid tokens have been returned",
            None,
            None,
            None,
        );
    }
    if amount == 0 {
        return refuse_bid(state, bidder, amount, "Bid must be greater than 0", None, None, None);
    }
    if amount < state.minimum_bid {
        return refuse_bid(
            state,
            bidder,
            amount,
            "Bid was less than minimum allowed.  Bid tokens have been returned",
            None,
            Some(state.minimum_bid),
            None,
        );
    }
    let ghost before = *state;
    let mut messages: Vec<Instruction> = Vec::new();
    let mut message = String::from_str("Bid accepted");
    let mut returned: Option<u128> = None;
    let placed = OwnedBid { bidder: bidder.clone(), bid: Bid { amount, timestamp: time } };
    match state.find_bid(&bidder) {
        Some(i) => {
            let standing = state.bids[i].bid.amount;
            if standing == amount {
                return refuse_bid(
                    state,
                    bidder,
                    amount,
                    "New bid is the same as previous bid.  Retaining previous timestamp",
                    Some(amount),
                    None,
                    Some(amount),
                );
            }
            state.bids.set(i, placed);
            returned = Some(standing);
            messages.push(state.bid_contract.transfer_msg(bidder, standing));
            message.append(". Previously bid tokens have been returned");
            proof {
                assert(messages@ =~= seq![
                    Instruction::Transfer {
                        token: before.bid_contract,
                        recipient: bidder,
                        amount: standing,
                    },
                ]);
                assert forall|a: int, b: int| 0 <= a < b < state.bids@.len() implies (
                #[trigger] state.bids@[a]).bidder@ != (#[trigger] state.bids@[b]).bidder@ by {
                    assert(before.bids@[a].bidder@ != before.bids@[b].bidder@);
                }
            }
        },
        None => {
            state.bids.push(placed);
            messages.push(
                Instruction::Factory {
                    factory: state.factory.duplicate(),
                    msg: FactoryHandleMsg::RegisterBidder { index: state.index, bidder },
                },
            );
            proof {
                assert(messages@ =~= seq![
                    Instruction::Factory {
                        factory: before.factory,
                        msg: FactoryHandleMsg::RegisterBidder { index: before.index, bidder },
                    },
                ]);
                assert forall|a: int, b: int| 0 <= a < b < state.bids@.len() implies (
                #[trigger] state.bids@[a]).bidder@ != (#[trigger] state.bids@[b]).bidder@ by {
                    if b < before.bids@.len() {
                        assert(before.bids@[a].bidder@ != before.bids@[b].bidder@);
                    } else {
                        assert(before.bids@[a].bidder@ != bidder@);
                    }
                }
            }
        },
    }
    HandleResponse {
        messages,
        answer: HandleAnswer::Bid {
            status: ResponseStatus::Success,
            message,
            previous_bid: None,
            minimum_bid: None,
            amount_bid: Some(amount),
            amount_returned: returned,
            bid_decimals: state.bid_decimals,
        },
    }
}

/// Whether `answer` is a retraction answer with these fields.
pub open spec fn is_retract_answer(
    answer: HandleAnswer,
    want_status: ResponseStatus,
    text: Seq<char>,
    returned: Option<u128>,
    decimals: Option<u8>,
) -> bool {
    match answer {
        HandleAnswer::RetractBid { status, message, amount_returned, bid_decimals } => status
            == want_status && message@ == text && amount_returned == returned && bid_decimals
            == decimals,
        _ => false,
    }
}

/// What a retraction by `bidder` does to `before`: where `bidder` has no
/// live bid, nothing; otherwise the bid is deleted, its amount returned and
/// the factory told.
pub open spec fn retract_post(before: State, bidder: String, after: State, r: HandleResponse) -> bool {
    let i = bid_index(before.bids@, bidder@);
    if !holds_bid(before.bids@, bidder@) {
        &&& after == before
        &&& r.messages@ == Seq::<Instruction>::empty()
        &&& is_retract_answer(
            r.answer,
            ResponseStatus::Failure,
            "No active bid for address: "@ + bidder@,
            None,
            None,
        )
    } else {
        &&& after == (State { bids: after.bids, ..before })
        &&& after.bids@ == before.bids@.remove(i)
        &&& r.messages@ == seq![
            Instruction::Transfer {
                token: before.bid_contract,
                recipient: bidder,
                amount: before.bids@[i].bid.amount,
            },
            Instruction::Factory {
                factory: before.factory,
                msg: FactoryHandleMsg::RemoveBidder { index: before.index, bidder },
            },
        ]
        &&& is_retract_answer(
            r.answer,
            ResponseStatus::Success,
            "Bid retracted.  Tokens have been returned"@,
            Some(before.bids@[i].bid.amount),
            Some(before.bid_decimals),
        )
    }
}

/// Retracts the live bid of `bidder`, if there is one.
pub fn try_retract(state: &mut State, bidder: String) -> (r: HandleResponse)
    requires
        old(state).wf(),
    ensures
        final(state).wf(),
        retract_post(*old(state), bidder, *final(state), r),
{
    let ghost before = *state;
    let mut messages: Vec<Instruction> = Vec::new();
    match state.find_bid(&bidder) {
        Some(i) => {
            let gone = state.bids.remove(i);
            messages.push(state.bid_contract.transfer_msg(bidder.clone(), gone.bid.amount));
            messages.push(
                Instruction::Factory {
                    factory: state.factory.duplicate(),
                    msg: FactoryHandleMsg::RemoveBidder { index: state.index, bidder },
                },
            );
            proof {
                assert(messages@ =~= seq![
                    Instruction::Transfer {
                        token: before.bid_contract,
                        recipient: bidder,
                        amount: before.bids@[i as int].bid.amount,
                    },
                    Instruction::Factory {
                        factory: before.factory,
                        msg: FactoryHandleMsg::RemoveBidder { index: before.index, bidder },
                    },
                ]);
                assert forall|a: int, b: int| 0 <= a < b < state.bids@.len() implies (
                #[trigger] state.bids@[a]).bidder@ != (#[trigger] state.bids@[b]).bidder@ by {
                    let a0 = if a < i { a } else { a + 1 };
                    let b0 = if b < i { b } else { b + 1 };
                    assert(before.bids@[a0].bidder@ != before.bids@[b0].bidder@);
                }
            }
            HandleResponse {
                messages,
                answer: HandleAnswer::RetractBid {
                    status: ResponseStatus::Success,
                    message: String::from_str("Bid retracted.  Tokens have been returned"),
                    amount_returned: Some(gone.bid.amount),
                    bid_decimals: Some(state.bid_decimals),
                },
            }
        },
        None => {
            let mut message = String::from_str("No active bid for address: ");
            message.append(bidder.as_str());
            HandleResponse {
                messages,
                answer: HandleAnswer::RetractBid {
                    status: ResponseStatus::Failure,
                    message,
                    amount_returned: None,
                    bid_decimals: None,
                },
            }
        },
    }
}

/// What a request of `sender` to change the minimum bid does to `before`.
pub open spec fn min_bid_post(
    before: State,
    sender: Seq<char>,
    minimum_bid: u128,
    after: State,
    res: Result<HandleResponse, ContractError>,
) -> bool {
    if sender != before.seller@ {
        after == before && res == Err::<HandleResponse, ContractError>(
            ContractError::MinimumBidNotSeller,
        )
    } else if before.is_completed {
        after == before && res == Err::<HandleResponse, ContractError>(
            ContractError::MinimumBidAfterEnd,
        )
    } else {
        &&& after == (State { minimum_bid, ..before })
        &&& res matches Ok(r) && r.messages@ == seq![
            Instruction::Factory {
                factory: before.factory,
                msg: FactoryHandleMsg::ChangeAuctionInfo {
                    index: before.index,
                    ends_at: None,
                    minimum_bid: Some(minimum_bid),
                },
            },
        ] && r.answer == (HandleAnswer::ChangeMinimumBid {
            status: ResponseStatus::Success,
            minimum_bid,
            bid_decimals: before.bid_decimals,
        })
    }
}

/// Lets the seller of an open auction change the minimum bid. The new
/// minimum applies to bids placed afterwards.
pub fn try_change_min_bid(state: &mut State, sender: &String, minimum_bid: u128) -> (res: Result<
    HandleResponse,
    ContractError,
>)
    requires
        old(state).wf(),
    ensures
        final(state).wf(),
        min_bid_post(*old(state), sender@, minimum_bid, *final(state), res),
{
    if *sender != state.seller {
        return Err(ContractError::MinimumBidNotSeller);
    }
    if state.is_completed {
        return Err(ContractError::MinimumBidAfterEnd);
    }
    state.minimum_bid = minimum_bid;
    let mut messages: Vec<Instruction> = Vec::new();
    messages.push(
        Instruction::Factory {
            factory: state.factory.duplicate(),
            msg: FactoryHandleMsg::ChangeAuctionInfo {
                index: state.index,
                ends_at: None,
                minimum_bid: Some(minimum_bid),
            },
        },
    );
    proof {
        assert(messages@ =~= seq![
            Instruction::Factory {
                factory: old(state).factory,
                msg: FactoryHandleMsg::ChangeAuctionInfo {
                    index: old(state).index,
                    ends_at: None,
                    minimum_bid: Some(minimum_bid),
                },
            },
        ]);
    }
    Ok(
        HandleResponse {
            messages,
            answer: HandleAnswer::ChangeMinimumBid {
                status: ResponseStatus::Success,
                minimum_bid,
                bid_decimals: state.bid_decimals,
            },
        },
    )
}

/// The words that tell which terms were updated.
pub open spec fn update_notice(ends_at: bool, minimum_bid: bool) -> Seq<char> {
    if ends_at && minimum_bid {
        "There were no active bids.  The closing time and minimum bid has been updated"@
    } else if ends_at {
        "There were no active bids.  The closing time has been updated"@
    } else {
        "There were no active bids.  The minimum bid has been updated"@
    }
}

/// Whether `time` is too early for anyone but the seller to close an
/// auction with this closing time: before it, or any time where there is
/// none.
pub open spec fn too_early(ends_at: Option<u64>, time: u64) -> bool {
    match ends_at {
        Some(t) => time < t,
        None => true,
    }
}

/// Whether `answer` is a closing answer that reports a failure in these
/// words and nothing else.
pub open spec fn is_closing_failure(answer: HandleAnswer, text: Seq<char>) -> bool {
    match answer {
        HandleAnswer::CloseAuction {
            status,
            message,
            winning_bid,
            bid_decimals,
            sell_tokens_received,
            sell_decimals,
            bid_tokens_received,
        } => status == ResponseStatus::Failure && message@ == text && winning_bid.is_none()
            && bid_decimals.is_none() && sell_tokens_received.is_none()
            && sell_decimals.is_none() && bid_tokens_received.is_none(),
        _ => false,
    }
}

/// What a request of `sender` at `time` to close the auction, or to sweep
/// it (`return_all`), does to `before`.
///
/// A sweep is for closed auctions only, and only the seller may update the
/// terms: either request is rejected otherwise. Anyone but the seller who
/// asks to close before the closing time, or at any time where the auction
/// has no closing time, is turned away with a failure answer. Where there is no bid and the auction is open, asking for new
/// terms applies them and tells the factory, and the auction stays open.
/// Otherwise the auction is closed: the swap, the returns and the notice of
/// closure go out and escrow is empty afterwards.
pub open spec fn finalize_post(
    before: State,
    sender: Seq<char>,
    time: u64,
    new_ends_at: Option<u64>,
    new_minimum_bid: Option<u128>,
    return_all: bool,
    after: State,
    res: Result<HandleResponse, ContractError>,
) -> bool {
    let is_seller = sender == before.seller@;
    let updating = new_ends_at.is_some() || new_minimum_bid.is_some();
    if return_all && !before.is_completed {
        after == before && res == Err::<HandleResponse, ContractError>(
            ContractError::ReturnAllBeforeEnd,
        )
    } else if !is_seller && updating {
        after == before && res == Err::<HandleResponse, ContractError>(
            ContractError::UpdateNotSeller,
        )
    } else if !return_all && !is_seller && too_early(before.ends_at, time) {
        &&& after == before
        &&& res matches Ok(r) && r.messages@ == Seq::<Instruction>::empty()
            && is_closing_failure(
            r.answer,
            "Only auction creator can finalize the sale before the closing time"@,
        )
    } else if before.bids@.len() == 0 && !before.is_completed && updating {
        &&& after == (State {
            ends_at: if new_ends_at.is_some() {
                new_ends_at
            } else {
                before.ends_at
            },
            minimum_bid: match new_minimum_bid {
                Some(m) => m,
                None => before.minimum_bid,
            },
            ..before
        })
        &&& res matches Ok(r) && r.messages@ == seq![
            Instruction::Factory {
                factory: before.factory,
                msg: FactoryHandleMsg::ChangeAuctionInfo {
                    index: before.index,
                    ends_at: new_ends_at,
                    minimum_bid: new_minimum_bid,
                },
            },
        ] && is_closing_failure(
            r.answer,
            update_notice(new_ends_at.is_some(), new_minimum_bid.is_some()),
        )
    } else {
        &&& closed_from(before, after)
        &&& res matches Ok(r) && r.messages@ == closing_messages(before)
            && closing_answer_fits(before, sender, return_all, r.answer)
    }
}

/// An answer to a closing request that reports a failure.
fn closing_failure(text: &str) -> (answer: HandleAnswer)
    ensures
        is_closing_failure(answer, text@),
{
    HandleAnswer::CloseAuction {
        status: ResponseStatus::Failure,
        message: String::from_str(text),
        winning_bid: None,
        bid_decimals: None,
        sell_tokens_received: None,
        sell_decimals: None,
        bid_tokens_received: None,
    }
}

/// Closes the auction and sends everything in escrow to where it belongs,
/// or, where there are no bids, updates the terms instead; with
/// `return_all`, sweeps an auction that is closed already.
pub fn try_finalize(
    state: &mut State,
    sender: &String,
    time: u64,
    new_ends_at: Option<u64>,
    new_minimum_bid: Option<u128>,
    return_all: bool,
) -> (res: Result<HandleResponse, ContractError>)
    requires
        old(state).wf(),
    ensures
        final(state).wf(),
        old(state).is_completed ==> final(state).is_completed,
        finalize_post(
            *old(state),
            sender@,
            time,
            new_ends_at,
            new_minimum_bid,
            return_all,
            *final(state),
            res,
        ),
{
    if return_all && !state.is_completed {
        return Err(ContractError::ReturnAllBeforeEnd);
    }
    let is_seller = *sender == state.seller;
    let update_ends_at = new_ends_at.is_some();
    let update_min_bid = new_minimum_bid.is_some();
    if !is_seller && (update_ends_at || update_min_bid) {
        return Err(ContractError::UpdateNotSeller);
    }
    let early = match state.ends_at {
        Some(ends_at) => time < ends_at,
        None => true,
    };
    if !return_all && !is_seller && early {
        return Ok(
            HandleResponse {
                messages: Vec::new(),
                answer: closing_failure(
                    "Only auction creator can finalize the sale before the closing time",
                ),
            },
        );
    }
    if state.bids.len() == 0 && !state.is_completed && (update_ends_at || update_min_bid) {
        if new_ends_at.is_some() {
            state.ends_at = new_ends_at;
        }
        if let Some(minimum_bid) = new_minimum_bid {
            state.minimum_bid = minimum_bid;
        }
        let mut messages: Vec<Instruction> = Vec::new();
        messages.push(
            Instruction::Factory {
                factory: state.factory.duplicate(),
                msg: FactoryHandleMsg::ChangeAuctionInfo {
                    index: state.index,
                    ends_at: new_ends_at,
                    minimum_bid: new_minimum_bid,
                },
            },
        );
        proof {
            assert(messages@ =~= seq![
                Instruction::Factory {
                    factory: old(state).factory,
                    msg: FactoryHandleMsg::ChangeAuctionInfo {
                        index: old(state).index,
                        ends_at: new_ends_at,
                        minimum_bid: new_minimum_bid,
                    },
                },
            ]);
        }
        let answer = if update_ends_at && update_min_bid {
            closing_failure(
                "There were no active bids.  The closing time and minimum bid has been updated",
            )
        } else if update_ends_at {
            closing_failure("There were no active bids.  The closing time has been updated")
        } else {
            closing_failure("There were no active bids.  The minimum bid has been updated")
        };
        return Ok(HandleResponse { messages, answer });
    }
    let answer = closing_answer(state, sender, return_all);
    let messages = settle(state);
    Ok(HandleResponse { messages, answer })
}

/// What a deposit notification does to `before`: a deposit of sale tokens
/// is a consignment, a deposit of bid tokens is a bid, and a notification
/// from any other contract is rejected.
pub open spec fn receive_post(
    before: State,
    env: Env,
    from: String,
    amount: u128,
    after: State,
    res: Result<HandleResponse, ContractError>,
) -> bool {
    if env.sender@ == before.sell_contract.address@ {
        res matches Ok(r) && consign_post(before, from, amount, after, r)
    } else if env.sender@ == before.bid_contract.address@ {
        res matches Ok(r) && bid_post(before, from, amount, env.block_time, after, r)
    } else {
        after == before && res == Err::<HandleResponse, ContractError>(
            ContractError::UnknownToken { sender: env.sender },
        )
    }
}

/// Processes the notification that `amount` tokens of `from` arrived in
/// escrow. The caller, `env.sender`, is the token contract that holds them.
pub fn try_receive(state: &mut State, env: Env, from: String, amount: u128) -> (res: Result<
    HandleResponse,
    ContractError,
>)
    requires
        old(state).wf(),
    ensures
        final(state).wf(),
        receive_post(*old(state), env, from, amount, *final(state), res),
{
    if env.sender == state.sell_contract.address {
        Ok(try_consign(state, from, amount))
    } else if env.sender == state.bid_contract.address {
        Ok(try_bid(state, from, amount, env.block_time))
    } else {
        Err(ContractError::UnknownToken { sender: env.sender })
    }
}

/// What handling `msg` does to `before`.
pub open spec fn handle_post(
    before: State,
    env: Env,
    msg: HandleMsg,
    after: State,
    res: Result<HandleResponse, ContractError>,
) -> bool {
    match msg {
        HandleMsg::RetractBid {  } => res matches Ok(r) && retract_post(
            before,
            env.sender,
            after,
            r,
        ),
        HandleMsg::Finalize { new_ends_at, new_minimum_bid } => finalize_post(
            before,
            env.sender@,
            env.block_time,
            new_ends_at,
            new_minimum_bid,
            false,
            after,
            res,
        ),
        HandleMsg::ReturnAll {  } => finalize_post(
            before,
            env.sender@,
            env.block_time,
            None,
            None,
            true,
            after,
            res,
        ),
        HandleMsg::Receive { sender, from, amount, msg } => receive_post(
            before,
            env,
            from,
            amount,
            after,
            res,
        ),
        HandleMsg::ChangeMinimumBid { minimum_bid } => min_bid_post(
            before,
            env.sender@,
            minimum_bid,
            after,
            res,
        ),
    }
}

/// Handles one message to the auction.
pub fn handle(state: &mut State, env: Env, msg: HandleMsg) -> (res: Result<
    HandleResponse,
    ContractError,
>)
    requires
        old(state).wf(),
    ensures
        final(state).wf(),
        old(state).is_completed ==> final(state).is_completed,
        handle_post(*old(state), env, msg, *final(state), res),
{
    match msg {
        HandleMsg::RetractBid {  } => Ok(try_retract(state, env.sender)),
        HandleMsg::Finalize { new_ends_at, new_minimum_bid } => try_finalize(
            state,
            &env.sender,
            env.block_time,
            new_ends_at,
            new_minimum_bid,
            false,
        ),
        HandleMsg::ReturnAll {  } => try_finalize(
            state,
            &env.sender,
            env.block_time,
            None,
            None,
            true,
        ),
        HandleMsg::Receive { sender, from, amount, msg } => try_receive(state, env, from, amount),
        HandleMsg::ChangeMinimumBid { minimum_bid } => try_change_min_bid(
            state,
            &env.sender,
            minimum_bid,
        ),
    }
}

} // verus!
