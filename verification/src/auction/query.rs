//! What the auction engine answers to queries.

use crate::auction::msg::IsKeyValidWrapper;
use crate::auction::msg::QueryAnswer;
use crate::auction::msg::QueryMsg;
use crate::auction::msg::ResponseStatus;
use crate::auction::msg::Token;
use crate::auction::msg::TokenInfo;
use crate::auction::state::bid_index;
use crate::auction::state::holds_bid;
use crate::auction::state::Bid;
use crate::auction::state::State;
use crate::timefmt::signed_seconds;
use crate::timefmt::timestamp_text;
use crate::timefmt::utc_text;
use vstd::prelude::*;

verus! {

/// The status line of an auction: closed, with a warning where escrow still
/// holds something, or accepting bids, with or without the sale tokens in
/// escrow.
pub open spec fn status_line(s: State) -> Seq<char> {
    if s.is_completed {
        "Closed"@ + (if s.bids@.len() > 0 || s.currently_consigned > 0 {
            ", but found outstanding balances.  Please run either retract_bid to retrieve your non-winning bid, or return_all to return all outstanding bids/consignment."@
        } else {
            Seq::empty()
        })
    } else {
        "Accepting bids: Token(s) to be sold have"@ + (if !s.tokens_consigned {
            " NOT"@
        } else {
            Seq::empty()
        }) + " been consigned to the auction"@
    }
}

/// Builds the status line of an auction.
pub fn status_text(state: &State) -> (text: String)
    ensures
        text@ == status_line(*state),
{
    let mut text: String;
    if state.is_completed {
        text = String::from_str("Closed");
        if state.bids.len() > 0 || state.currently_consigned > 0 {
            text.append(
                ", but found outstanding balances.  Please run either retract_bid to retrieve your non-winning bid, or return_all to return all outstanding bids/consignment.",
            );
        }
    } else {
        text = String::from_str("Accepting bids: Token(s) to be sold have");
        if !state.tokens_consigned {
            text.append(" NOT");
        }
        text.append(" been consigned to the auction");
    }
    proof {
        assert(text@ =~= status_line(*state));
    }
    text
}

/// Whether `answer` is the public information on `s`, given what the two
/// tokens say about themselves and the calendar text of the closing time.
pub open spec fn is_auction_info(
    s: State,
    sell_info: TokenInfo,
    bid_info: TokenInfo,
    closing: Option<Seq<char>>,
    answer: QueryAnswer,
) -> bool {
    match answer {
        QueryAnswer::AuctionInfo {
            sell_token,
            bid_token,
            sell_amount,
            minimum_bid,
            description,
            auction_address,
            ends_at,
            status,
            winning_bid,
        } => {
            &&& sell_token == (Token {
                contract_address: s.sell_contract.address,
                token_info: sell_info,
            })
            &&& bid_token == (Token {
                contract_address: s.bid_contract.address,
                token_info: bid_info,
            })
            &&& sell_amount == s.sell_amount
            &&& minimum_bid == s.minimum_bid
            &&& description == s.description
            &&& auction_address == s.auction_addr
            &&& match closing {
                Some(text) => ends_at matches Some(shown) && shown@ == text + " UTC"@,
                None => ends_at.is_none(),
            }
            &&& status@ == status_line(s)
            &&& winning_bid == (if s.winning_bid == 0 {
                None
            } else {
                Some(s.winning_bid)
            })
        },
        _ => false,
    }
}

/// The calendar text of an optional closing time, as far as given.
pub open spec fn text_of(closing: Option<&str>) -> Option<Seq<char>> {
    match closing {
        Some(text) => Some(text@),
        None => None,
    }
}

/// The public information on an auction, with the closing time, if there
/// is one, already rendered as `closing`.
pub fn auction_info(
    state: &State,
    sell_info: TokenInfo,
    bid_info: TokenInfo,
    closing: Option<&str>,
) -> (answer: QueryAnswer)
    ensures
        is_auction_info(*state, sell_info, bid_info, text_of(closing), answer),
{
    let ends_at = match closing {
        Some(text) => {
            let mut shown = String::from_str(text);
            shown.append(" UTC");
            Some(shown)
        },
        None => None,
    };
    let description = match &state.description {
        Some(d) => Some(d.clone()),
        None => None,
    };
    QueryAnswer::AuctionInfo {
        sell_token: Token {
            contract_address: state.sell_contract.address.clone(),
            token_info: sell_info,
        },
        bid_token: Token {
            contract_address: state.bid_contract.address.clone(),
            token_info: bid_info,
        },
        sell_amount: state.sell_amount,
        minimum_bid: state.minimum_bid,
        description,
        auction_address: state.auction_addr.clone(),
        ends_at,
        status: status_text(state),
        winning_bid: if state.winning_bid == 0 {
            None
        } else {
            Some(state.winning_bid)
        },
    }
}

/// What the public information on `s` is: `None` where the auction has a
/// closing time that the calendar cannot hold.
pub open spec fn query_info_post(
    s: State,
    sell_info: TokenInfo,
    bid_info: TokenInfo,
    answer: Option<QueryAnswer>,
) -> bool {
    match s.ends_at {
        None => answer matches Some(a) && is_auction_info(s, sell_info, bid_info, None, a),
        Some(t) => match utc_text(signed_seconds(t)) {
            Some(closing) => answer matches Some(a) && is_auction_info(
                s,
                sell_info,
                bid_info,
                Some(closing),
                a,
            ),
            None => answer.is_none(),
        },
    }
}

/// The public information on an auction, or `None` where the calendar
/// cannot hold its closing time.
pub fn try_query_info(state: &State, sell_info: TokenInfo, bid_info: TokenInfo) -> (answer: Option<
    QueryAnswer,
>)
    ensures
        query_info_post(*state, sell_info, bid_info, answer),
{
    match state.ends_at {
        None => Some(auction_info(state, sell_info, bid_info, None)),
        Some(t) => match timestamp_text(t) {
            Some(closing) => Some(
                auction_info(state, sell_info, bid_info, Some(closing.as_str())),
            ),
            None => None,
        },
    }
}

/// Whether `answer` is a bid answer with these fields.
pub open spec fn is_bid_view(
    answer: QueryAnswer,
    want_status: ResponseStatus,
    text: Seq<char>,
    amount: Option<u128>,
    decimals: Option<u8>,
) -> bool {
    match answer {
        QueryAnswer::Bid { status, message, amount_bid, bid_decimals } => status == want_status
            && message@ == text && amount_bid == amount && bid_decimals == decimals,
        _ => false,
    }
}

/// Whether `answer` is a credential error in these words.
pub open spec fn is_key_error(answer: QueryAnswer, text: Seq<char>) -> bool {
    match answer {
        QueryAnswer::ViewingKeyError { error } => error@ == text,
        _ => false,
    }
}

/// The answer that shows a live bid, with the time it was placed already
/// rendered as `placed`.
pub fn placed_bid_answer(bid: Bid, decimals: u8, placed: &str) -> (answer: QueryAnswer)
    ensures
        is_bid_view(
            answer,
            ResponseStatus::Success,
            "Bid placed "@ + placed@ + " UTC"@,
            Some(bid.amount),
            Some(decimals),
        ),
{
    let mut message = String::from_str("Bid placed ");
    message.append(placed);
    message.append(" UTC");
    QueryAnswer::Bid {
        status: ResponseStatus::Success,
        message,
        amount_bid: Some(bid.amount),
        bid_decimals: Some(decimals),
    }
}

/// What `bidder` is told about its own bid, given whether the credential it
/// presented is valid.
pub open spec fn view_bid_post(s: State, bidder: Seq<char>, valid: bool, answer: Option<QueryAnswer>) -> bool {
    let i = bid_index(s.bids@, bidder);
    if !valid {
        answer matches Some(a) && is_key_error(
            a,
            "Wrong viewing key for this address or viewing key not set"@,
        )
    } else if !holds_bid(s.bids@, bidder) {
        answer matches Some(a) && is_bid_view(
            a,
            ResponseStatus::Failure,
            "No active bid for address: "@ + bidder,
            None,
            None,
        )
    } else {
        match utc_text(signed_seconds(s.bids@[i].bid.timestamp)) {
            Some(placed) => answer matches Some(a) && is_bid_view(
                a,
                ResponseStatus::Success,
                "Bid placed "@ + placed + " UTC"@,
                Some(s.bids@[i].bid.amount),
                Some(s.bid_decimals),
            ),
            None => answer.is_none(),
        }
    }
}

/// What `bidder` is told about its own bid, given the factory's verdict on
/// the credential it presented; `None` where the calendar cannot hold the
/// time of the bid. Nothing about any bid is told without a valid credential.
pub fn try_view_bid(state: &State, bidder: &String, verdict: &IsKeyValidWrapper) -> (answer:
    Option<QueryAnswer>)
    requires
        state.wf(),
    ensures
        view_bid_post(*state, bidder@, verdict.is_key_valid.is_valid, answer),
{
    if !verdict.is_key_valid.is_valid {
        return Some(
            QueryAnswer::ViewingKeyError {
                error: String::from_str(
                    "Wrong viewing key for this address or viewing key not set",
                ),
            },
        );
    }
    match state.find_bid(bidder) {
        Some(i) => {
            let bid = state.bids[i].bid;
            match timestamp_text(bid.timestamp) {
                Some(placed) => Some(placed_bid_answer(bid, state.bid_decimals, placed.as_str())),
                None => None,
            }
        },
        None => {
            let mut message = String::from_str("No active bid for address: ");
            message.append(bidder.as_str());
            Some(
                QueryAnswer::Bid {
                    status: ResponseStatus::Failure,
                    message,
                    amount_bid: None,
                    bid_decimals: None,
                },
            )
        },
    }
}

/// What `address` is told about the presence of bids, given whether the
/// credential it presented is valid: the seller with a valid credential is
/// told, anyone else is turned away.
pub open spec fn has_bids_post(s: State, address: Seq<char>, valid: bool, answer: QueryAnswer) -> bool {
    if s.seller@ == address && valid {
        answer == (QueryAnswer::HasBids { has_bids: s.bids@.len() > 0 })
    } else {
        is_key_error(
            answer,
            "Address and/or viewing key does not match auction creator's information"@,
        )
    }
}

/// Tells the seller whether there are live bids, given the factory's
/// verdict on the credential presented for `address`.
pub fn try_has_bids(state: &State, address: &String, verdict: &IsKeyValidWrapper) -> (answer:
    QueryAnswer)
    ensures
        has_bids_post(*state, address@, verdict.is_key_valid.is_valid, answer),
{
    if state.seller == *address && verdict.is_key_valid.is_valid {
        return QueryAnswer::HasBids { has_bids: state.bids.len() > 0 };
    }
    QueryAnswer::ViewingKeyError {
        error: String::from_str(
            "Address and/or viewing key does not match auction creator's information",
        ),
    }
}

/// What the ledger tells for a query: what the two tokens say about
/// themselves, for the public information, and the factory's verdict on the
/// credential, for the confidential reads.
#[derive(Clone, Debug, PartialEq, Eq)]
pub struct QueryFacts {
    pub sell_info: Option<TokenInfo>,
    pub bid_info: Option<TokenInfo>,
    pub verdict: Option<IsKeyValidWrapper>,
}

/// Whether `facts` hold what answering `msg` reads.
pub open spec fn facts_ready(msg: QueryMsg, facts: QueryFacts) -> bool {
    if msg is AuctionInfo {
        facts.sell_info.is_some() && facts.bid_info.is_some()
    } else {
        facts.verdict.is_some()
    }
}

/// What the answer to `msg` is: `None` where it would show a time that the
/// calendar cannot hold.
pub open spec fn query_post(
    s: State,
    msg: QueryMsg,
    facts: QueryFacts,
    answer: Option<QueryAnswer>,
) -> bool {
    match msg {
        QueryMsg::AuctionInfo {  } => query_info_post(
            s,
            facts.sell_info.unwrap(),
            facts.bid_info.unwrap(),
            answer,
        ),
        QueryMsg::ViewBid { address, viewing_key } => view_bid_post(
            s,
            address@,
            facts.verdict.unwrap().is_key_valid.is_valid,
            answer,
        ),
        QueryMsg::HasBids { address, viewing_key } => answer matches Some(a) && has_bids_post(
            s,
            address@,
            facts.verdict.unwrap().is_key_valid.is_valid,
            a,
        ),
    }
}

/// Answers one query to the auction.
pub fn query(state: &State, msg: QueryMsg, facts: QueryFacts) -> (answer: Option<QueryAnswer>)
    requires
        state.wf(),
        facts_ready(msg, facts),
    ensures
        query_post(*state, msg, facts, answer),
{
    match msg {
        QueryMsg::AuctionInfo {  } => try_query_info(
            state,
            facts.sell_info.unwrap(),
            facts.bid_info.unwrap(),
        ),
        QueryMsg::ViewBid { address, viewing_key } => {
            let verdict = facts.verdict.unwrap();
            try_view_bid(state, &address, &verdict)
        },
        QueryMsg::HasBids { address, viewing_key } => {
            let verdict = facts.verdict.unwrap();
            Some(try_has_bids(state, &address, &verdict))
        },
    }
}

} // verus!
