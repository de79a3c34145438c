use sealed_auction::auction::contract::init;
use sealed_auction::auction::contract::try_bid;
use sealed_auction::auction::contract::try_consign;
use sealed_auction::auction::contract::try_finalize;
use sealed_auction::auction::contract::Env;
use sealed_auction::auction::msg::ContractInfo;
use sealed_auction::auction::msg::InitMsg;
use sealed_auction::auction::msg::IsKeyValid;
use sealed_auction::auction::msg::IsKeyValidWrapper;
use sealed_auction::auction::msg::QueryAnswer;
use sealed_auction::auction::msg::ResponseStatus;
use sealed_auction::auction::msg::Token;
use sealed_auction::auction::msg::TokenInfo;
use sealed_auction::auction::query::auction_info;
use sealed_auction::auction::query::status_text;
use sealed_auction::auction::query::try_has_bids;
use sealed_auction::auction::query::try_query_info;
use sealed_auction::auction::query::try_view_bid;
use sealed_auction::auction::state::State;
use sealed_auction::timefmt::timestamp_text;

fn open_auction() -> State {
    let env = Env {
        sender: "factoryaddr".to_string(),
        block_time: 1,
        contract_address: "auctionaddr".to_string(),
        contract_code_hash: "auctionhash".to_string(),
    };
    let msg = InitMsg {
        factory: ContractInfo {
            code_hash: "factoryhash".to_string(),
            address: "factoryaddr".to_string(),
        },
        index: 0,
        label: "auction".to_string(),
        seller: "alice".to_string(),
        sell_contract: ContractInfo {
            code_hash: "sellhash".to_string(),
            address: "selladdr".to_string(),
        },
        sell_symbol: 0,
        sell_decimals: 4,
        bid_contract: ContractInfo {
            code_hash: "bidhash".to_string(),
            address: "bidaddr".to_string(),
        },
        bid_symbol: 1,
        bid_decimals: 8,
        sell_amount: 10,
        minimum_bid: 10,
        ends_at: Some(1000),
        description: None,
    };
    init(env, msg).unwrap().state
}

fn verdict(is_valid: bool) -> IsKeyValidWrapper {
    IsKeyValidWrapper { is_key_valid: IsKeyValid { is_valid } }
}

fn info(symbol: &str, decimals: u8) -> TokenInfo {
    TokenInfo {
        name: format!("{} token", symbol),
        symbol: symbol.to_string(),
        decimals,
        total_supply: Some(1_000_000),
    }
}

#[test]
fn timestamps_are_rendered_in_utc() {
    assert_eq!(timestamp_text(0), Some("1970-01-01 00:00:00".to_string()));
    assert_eq!(timestamp_text(1000), Some("1970-01-01 00:16:40".to_string()));
    assert_eq!(timestamp_text(1_571_797_419), Some("2019-10-23 02:23:39".to_string()));
}

#[test]
fn timestamps_beyond_the_calendar_are_not_rendered() {
    assert_eq!(timestamp_text(u64::MAX / 2), None);
    assert_eq!(timestamp_text(u64::MAX), Some("1969-12-31 23:59:59".to_string()));
}

#[test]
fn status_tells_of_consignment_and_closure() {
    let mut state = open_auction();
    assert_eq!(
        status_text(&state),
        "Accepting bids: Token(s) to be sold have NOT been consigned to the auction"
    );
    let _ = try_consign(&mut state, "alice".to_string(), 10);
    assert_eq!(
        status_text(&state),
        "Accepting bids: Token(s) to be sold have been consigned to the auction"
    );
    let _ = try_finalize(&mut state, &"alice".to_string(), 1, None, None, false);
    assert_eq!(status_text(&state), "Closed");
    state.currently_consigned = 1;
    assert_eq!(
        status_text(&state),
        "Closed, but found outstanding balances.  Please run either retract_bid to retrieve your non-winning bid, or return_all to return all outstanding bids/consignment."
    );
}

#[test]
fn public_information_of_an_open_auction() {
    let state = open_auction();
    let answer = try_query_info(&state, info("SELL", 4), info("BID", 8)).unwrap();
    assert_eq!(
        answer,
        QueryAnswer::AuctionInfo {
            sell_token: Token {
                contract_address: "selladdr".to_string(),
                token_info: info("SELL", 4)
            },
            bid_token: Token { contract_address: "bidaddr".to_string(), token_info: info("BID", 8) },
            sell_amount: 10,
            minimum_bid: 10,
            description: None,
            auction_address: "auctionaddr".to_string(),
            ends_at: Some("1970-01-01 00:16:40 UTC".to_string()),
            status: "Accepting bids: Token(s) to be sold have NOT been consigned to the auction"
                .to_string(),
            winning_bid: None,
        }
    );
    assert_eq!(answer, auction_info(&state, info("SELL", 4), info("BID", 8), Some("1970-01-01 00:16:40")));
}

#[test]
fn public_information_shows_the_winning_bid() {
    let mut state = open_auction();
    let _ = try_consign(&mut state, "alice".to_string(), 10);
    let _ = try_bid(&mut state, "bob".to_string(), 77, 5);
    let _ = try_finalize(&mut state, &"alice".to_string(), 6, None, None, false);
    match try_query_info(&state, info("SELL", 4), info("BID", 8)).unwrap() {
        QueryAnswer::AuctionInfo { winning_bid, status, .. } => {
            assert_eq!(winning_bid, Some(77));
            assert_eq!(status, "Closed");
        }
        _ => panic!("not the auction information"),
    }
}

#[test]
fn public_information_needs_a_closing_time_on_the_calendar() {
    let mut state = open_auction();
    state.ends_at = Some(u64::MAX / 2);
    assert_eq!(try_query_info(&state, info("SELL", 4), info("BID", 8)), None);
}

#[test]
fn bid_is_shown_to_a_valid_key_only() {
    let mut state = open_auction();
    let _ = try_bid(&mut state, "bob".to_string(), 100, 1_571_797_419);
    assert_eq!(
        try_view_bid(&state, &"bob".to_string(), &verdict(false)),
        Some(QueryAnswer::ViewingKeyError {
            error: "Wrong viewing key for this address or viewing key not set".to_string()
        })
    );
    assert_eq!(
        try_view_bid(&state, &"bob".to_string(), &verdict(true)),
        Some(QueryAnswer::Bid {
            status: ResponseStatus::Success,
            message: "Bid placed 2019-10-23 02:23:39 UTC".to_string(),
            amount_bid: Some(100),
            bid_decimals: Some(8),
        })
    );
    assert_eq!(
        try_view_bid(&state, &"carol".to_string(), &verdict(true)),
        Some(QueryAnswer::Bid {
            status: ResponseStatus::Failure,
            message: "No active bid for address: carol".to_string(),
            amount_bid: None,
            bid_decimals: None,
        })
    );
}

#[test]
fn presence_of_bids_is_told_to_the_seller_only() {
    let mut state = open_auction();
    let refused = QueryAnswer::ViewingKeyError {
        error: "Address and/or viewing key does not match auction creator's information"
            .to_string(),
    };
    assert_eq!(try_has_bids(&state, &"alice".to_string(), &verdict(false)), refused);
    assert_eq!(try_has_bids(&state, &"bob".to_string(), &verdict(true)), refused);
    assert_eq!(
        try_has_bids(&state, &"alice".to_string(), &verdict(true)),
        QueryAnswer::HasBids { has_bids: false }
    );
    let _ = try_bid(&mut state, "bob".to_string(), 100, 1);
    assert_eq!(
        try_has_bids(&state, &"alice".to_string(), &verdict(true)),
        QueryAnswer::HasBids { has_bids: true }
    );
}

#[test]
fn public_information_of_an_auction_without_closing_time() {
    let mut state = open_auction();
    state.ends_at = None;
    match try_query_info(&state, info("SELL", 4), info("BID", 8)).unwrap() {
        QueryAnswer::AuctionInfo { ends_at, .. } => assert_eq!(ends_at, None),
        _ => panic!("not the auction information"),
    }
}
