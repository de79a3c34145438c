use sealed_auction::auction::contract::Env;
use sealed_auction::auction::contract::InitResponse;
use sealed_auction::auction::msg::ContractError;
use sealed_auction::auction::msg::ContractInfo;
use sealed_auction::auction::msg::HandleAnswer;
use sealed_auction::auction::msg::HandleMsg;
use sealed_auction::auction::msg::HandleResponse;
use sealed_auction::auction::msg::InitMsg;
use sealed_auction::auction::msg::IsKeyValid;
use sealed_auction::auction::msg::IsKeyValidWrapper;
use sealed_auction::auction::msg::QueryAnswer;
use sealed_auction::auction::msg::QueryMsg;
use sealed_auction::auction::msg::ResponseStatus;
use sealed_auction::auction::msg::TokenInfo;
use sealed_auction::auction::query::QueryFacts;
use sealed_auction::auction::state::Bid;
use sealed_auction::auction::state::State;

/// An auction together with the verdict that the factory gives on any
/// viewing key.
#[derive(Clone)]
struct Deps {
    state: Option<State>,
    key_valid: bool,
}

impl Deps {
    fn with_key_validity(&self, is_valid: bool) -> Deps {
        Deps { state: self.state.clone(), key_valid: is_valid }
    }
}

fn env_at(sender: &str, time: u64) -> Env {
    Env {
        sender: sender.to_string(),
        block_time: time,
        contract_address: "cosmos2contract".to_string(),
        contract_code_hash: "".to_string(),
    }
}

fn mock_env(sender: &str) -> Env {
    env_at(sender, 1_571_797_419)
}

fn init_helper() -> (Result<InitResponse, String>, Deps) {
    let env = mock_env("factory");
    let factory = ContractInfo {
        code_hash: "factoryhash".to_string(),
        address: "factoryaddr".to_string(),
    };
    let sell_contract = ContractInfo {
        code_hash: "sellhash".to_string(),
        address: "selladdr".to_string(),
    };
    let bid_contract = ContractInfo {
        code_hash: "bidhash".to_string(),
        address: "bidaddr".to_string(),
    };
    let init_msg = InitMsg {
        factory,
        index: 0,
        label: "auction".to_string(),
        sell_symbol: 0,
        sell_decimals: 4,
        bid_symbol: 1,
        bid_decimals: 8,
        seller: "alice".to_string(),
        sell_contract,
        bid_contract,
        sell_amount: 10,
        minimum_bid: 10,
        ends_at: Some(1000),
        description: None,
    };
    match sealed_auction::auction::contract::init(env, init_msg) {
        Ok(response) => {
            let state = response.state.clone();
            (Ok(response), Deps { state: Some(state), key_valid: false })
        }
        Err(err) => (Err(err.message()), Deps { state: None, key_valid: false }),
    }
}

fn handle(deps: &mut Deps, env: Env, msg: HandleMsg) -> Result<HandleResponse, ContractError> {
    let state = deps.state.as_mut().expect("the auction was not created");
    sealed_auction::auction::contract::handle(state, env, msg)
}

fn token_info(symbol: &str, decimals: u8) -> TokenInfo {
    TokenInfo {
        name: symbol.to_string(),
        symbol: symbol.to_string(),
        decimals,
        total_supply: None,
    }
}

fn query(deps: &Deps, msg: QueryMsg) -> Result<QueryAnswer, String> {
    let state = deps.state.as_ref().expect("the auction was not created");
    let facts = QueryFacts {
        sell_info: Some(token_info("SELL", state.sell_decimals)),
        bid_info: Some(token_info("BID", state.bid_decimals)),
        verdict: Some(IsKeyValidWrapper { is_key_valid: IsKeyValid { is_valid: deps.key_valid } }),
    };
    sealed_auction::auction::query::query(state, msg, facts)
        .ok_or_else(|| "time out of range".to_string())
}

fn load_bid(deps: &Deps, bidder: &String) -> Option<Bid> {
    let state = deps.state.as_ref().expect("the auction was not created");
    state.bids.iter().find(|owned| owned.bidder == *bidder).map(|owned| owned.bid)
}

fn status_name(status: &ResponseStatus) -> &'static str {
    match status {
        ResponseStatus::Success => "Success",
        ResponseStatus::Failure => "Failure",
    }
}

fn amount_field(name: &str, amount: &Option<u128>) -> String {
    match amount {
        Some(a) => format!(",\"{}\":\"{}\"", name, a),
        None => String::new(),
    }
}

fn decimals_field(name: &str, decimals: &Option<u8>) -> String {
    match decimals {
        Some(d) => format!(",\"{}\":{}", name, d),
        None => String::new(),
    }
}

/// The answer as the text that a caller finds in the log.
fn answer_json(answer: &HandleAnswer) -> String {
    match answer {
        HandleAnswer::Consign {
            status,
            message,
            amount_consigned,
            amount_needed,
            amount_returned,
            sell_decimals,
        } => format!(
            "{{\"consign\":{{\"status\":\"{}\",\"message\":\"{}\",\"amount_consigned\":\"{}\"{}{},\"sell_decimals\":{}}}}}",
            status_name(status),
            message,
            amount_consigned,
            amount_field("amount_needed", amount_needed),
            amount_field("amount_returned", amount_returned),
            sell_decimals
        ),
        HandleAnswer::Bid {
            status,
            message,
            previous_bid,
            minimum_bid,
            amount_bid,
            amount_returned,
            bid_decimals,
        } => format!(
            "{{\"bid\":{{\"status\":\"{}\",\"message\":\"{}\"{}{}{}{},\"bid_decimals\":{}}}}}",
            status_name(status),
            message,
            amount_field("previous_bid", previous_bid),
            amount_field("minimum_bid", minimum_bid),
            amount_field("amount_bid", amount_bid),
            amount_field("amount_returned", amount_returned),
            bid_decimals
        ),
        HandleAnswer::CloseAuction {
            status,
            message,
            winning_bid,
            bid_decimals,
            sell_tokens_received,
            sell_decimals,
            bid_tokens_received,
        } => format!(
            "{{\"close_auction\":{{\"status\":\"{}\",\"message\":\"{}\"{}{}{}{}{}}}}}",
            status_name(status),
            message,
            amount_field("winning_bid", winning_bid),
            decimals_field("bid_decimals", bid_decimals),
            amount_field("sell_tokens_received", sell_tokens_received),
            decimals_field("sell_decimals", sell_decimals),
            amount_field("bid_tokens_received", bid_tokens_received)
        ),
        HandleAnswer::RetractBid { status, message, amount_returned, bid_decimals } => format!(
            "{{\"retract_bid\":{{\"status\":\"{}\",\"message\":\"{}\"{}{}}}}}",
            status_name(status),
            message,
            amount_field("amount_returned", amount_returned),
            decimals_field("bid_decimals", bid_decimals)
        ),
        HandleAnswer::ChangeMinimumBid { status, minimum_bid, bid_decimals } => format!(
            "{{\"change_minimum_bid\":{{\"status\":\"{}\",\"minimum_bid\":\"{}\",\"bid_decimals\":{}}}}}",
            status_name(status),
            minimum_bid,
            bid_decimals
        ),
    }
}

fn answer_message(answer: &HandleAnswer) -> String {
    match answer {
        HandleAnswer::Bid { message, .. } => message.clone(),
        HandleAnswer::Consign { message, .. } => message.clone(),
        HandleAnswer::CloseAuction { message, .. } => message.clone(),
        HandleAnswer::RetractBid { message, .. } => message.clone(),
        _ => panic!("Unexpected HandleAnswer"),
    }
}

fn answer_status(answer: &HandleAnswer) -> ResponseStatus {
    match answer {
        HandleAnswer::Bid { status, .. } => *status,
        HandleAnswer::Consign { status, .. } => *status,
        HandleAnswer::CloseAuction { status, .. } => *status,
        HandleAnswer::RetractBid { status, .. } => *status,
        HandleAnswer::ChangeMinimumBid { status, .. } => *status,
    }
}

/// The reason of a request that did not do what was asked: of a rejection,
/// or of an answer that reports a failure.
fn extract_error_msg(error: Result<HandleResponse, ContractError>) -> String {
    match error {
        Ok(response) => {
            assert_eq!(
                answer_status(&response.answer),
                ResponseStatus::Failure,
                "An error was expected, but no error could be extracted"
            );
            answer_message(&response.answer)
        }
        Err(err) => err.message(),
    }
}

fn extract_query_error(error: Result<QueryAnswer, String>) -> String {
    match error {
        Ok(QueryAnswer::ViewingKeyError { error }) => error,
        Ok(_) => panic!("Unexpected query answer"),
        Err(err) => err,
    }
}

fn extract_log(resp: Result<HandleResponse, ContractError>) -> String {
    match resp {
        Ok(response) => answer_json(&response.answer),
        Err(_err) => "These are not the logs you are looking for".to_string(),
    }
}

fn extract_msg(resp: &Result<HandleResponse, ContractError>) -> String {
    answer_message(&resp.as_ref().unwrap().answer)
}

fn extract_finalize_fields(
    resp: &Result<HandleResponse, ContractError>,
) -> (String, Option<u128>, Option<u8>, Option<u128>, Option<u8>, Option<u128>) {
    match resp.as_ref().unwrap().answer.clone() {
        HandleAnswer::CloseAuction {
            message,
            winning_bid,
            bid_decimals,
            sell_tokens_received,
            sell_decimals,
            bid_tokens_received,
            ..
        } => (
            message,
            winning_bid,
            bid_decimals,
            sell_tokens_received,
            sell_decimals,
            bid_tokens_received,
        ),
        _ => panic!("Unexpected HandleAnswer"),
    }
}

fn extract_amount_returned(
    resp: &Result<HandleResponse, ContractError>,
) -> (Option<u128>, Option<u8>) {
    match resp.as_ref().unwrap().answer.clone() {
        HandleAnswer::RetractBid { amount_returned, bid_decimals, .. } => {
            (amount_returned, bid_decimals)
        }
        _ => panic!("Unexpected HandleAnswer"),
    }
}

#[test]
fn test_init_sanity() {
    let (init_result, deps) = init_helper();
    assert!(
        init_result.is_ok(),
        "Init failed: {}",
        init_result.err().unwrap()
    );
    let state: State = deps.state.clone().unwrap();
    let factory = ContractInfo {
        code_hash: "factoryhash".to_string(),
        address: "factoryaddr".to_string(),
    };
    let sell_contract = ContractInfo {
        code_hash: "sellhash".to_string(),
        address: "selladdr".to_string(),
    };
    let bid_contract = ContractInfo {
        code_hash: "bidhash".to_string(),
        address: "bidaddr".to_string(),
    };

    assert_eq!(factory, state.factory);
    assert_eq!("alice".to_string(), state.seller);
    assert_eq!(sell_contract, state.sell_contract);
    assert_eq!(4, state.sell_decimals);
    assert_eq!(bid_contract, state.bid_contract);
    assert_eq!(8, state.bid_decimals);
    assert_eq!(10, state.sell_amount);
    assert_eq!(10, state.minimum_bid);
    assert_eq!(0, state.currently_consigned);
    assert!(state.bids.is_empty());
    assert_eq!(false, state.is_completed);
    assert_eq!(false, state.tokens_consigned);
    assert_eq!(Some(1000), state.ends_at);
    assert_eq!(None, state.description);
    assert_eq!(0, state.winning_bid);
}

#[test]
fn test_consign() {
    let (init_result, mut deps) = init_helper();
    assert!(
        init_result.is_ok(),
        "Init failed: {}",
        init_result.err().unwrap()
    );

    // try to consign if not seller
    let handle_msg = HandleMsg::Receive {
        sender: "blah".to_string(),
        from: "bob".to_string(),
        amount: 2500,
        msg: None,
    };
    let handle_result = handle(&mut deps, mock_env("selladdr"), handle_msg);
    let error = extract_error_msg(handle_result);
    assert!(error.contains("Only auction creator can consign tokens for sale"));

    // try already consigned
    let handle_msg = HandleMsg::Receive {
        sender: "blah".to_string(),
        from: "alice".to_string(),
        amount: 2500,
        msg: None,
    };
    let _handle_result = handle(&mut deps, mock_env("selladdr"), handle_msg);
    let handle_msg = HandleMsg::Receive {
        sender: "blah".to_string(),
        from: "alice".to_string(),
        amount: 2500,
        msg: None,
    };
    let handle_result = handle(&mut deps, mock_env("selladdr"), handle_msg);
    let error = extract_error_msg(handle_result);
    assert!(error.contains("Tokens to be sold have already been consigned."));

    // try to consign after closing
    let handle_msg = HandleMsg::Finalize {
        new_ends_at: None,
        new_minimum_bid: None,
    };
    let _used = handle(&mut deps, mock_env("alice"), handle_msg);
    let handle_msg = HandleMsg::Receive {
        sender: "blah".to_string(),
        from: "alice".to_string(),
        amount: 2500,
        msg: None,
    };

    let handle_result = handle(&mut deps, mock_env("selladdr"), handle_msg);
    let error = extract_error_msg(handle_result);
    assert!(error.contains("Auction has ended. Your tokens have been returned"));

    // try consign too little
    let (init_result, mut deps) = init_helper();
    assert!(
        init_result.is_ok(),
        "Init failed: {}",
        init_result.err().unwrap()
    );
    let handle_msg = HandleMsg::Receive {
        sender: "blah".to_string(),
        from: "alice".to_string(),
        amount: 2,
        msg: None,
    };
    let handle_result = handle(&mut deps, mock_env("selladdr"), handle_msg);
    let log = extract_log(handle_result);
    assert!(log.contains("not consigned the full amount"));
    assert!(log.contains("\"amount_needed\":\"8\""));
    assert!(log.contains("\"sell_decimals\":4"));
    let state: State = deps.state.clone().unwrap();
    assert_eq!(false, state.tokens_consigned);

    // try consign too much
    let handle_msg = HandleMsg::Receive {
        sender: "blah".to_string(),
        from: "alice".to_string(),
        amount: 20,
        msg: None,
    };
    let handle_result = handle(&mut deps, mock_env("selladdr"), handle_msg);
    let log = extract_log(handle_result);
    assert!(log.contains("Excess tokens have been returned"));
    assert!(log.contains("\"amount_returned\":\"12\""));
    assert!(log.contains("\"sell_decimals\":4"));
    let state: State = deps.state.clone().unwrap();
    assert!(state.tokens_consigned);
}

#[test]
fn test_bid() {
    let (init_result, mut deps) = init_helper();
    assert!(
        init_result.is_ok(),
        "Init failed: {}",
        init_result.err().unwrap()
    );

    // try bid 0
    let handle_msg = HandleMsg::Receive {
        sender: "blah".to_string(),
        from: "bob".to_string(),
        amount: 0,
        msg: None,
    };
    let handle_result = handle(&mut deps, mock_env("bidaddr"), handle_msg);
    let error = extract_error_msg(handle_result);
    assert!(error.contains("Bid must be greater than 0"));

    // try bid less than minimum
    let (init_result, mut deps) = init_helper();
    assert!(
        init_result.is_ok(),
        "Init failed: {}",
        init_result.err().unwrap()
    );
    let handle_msg = HandleMsg::Receive {
        sender: "blah".to_string(),
        from: "bob".to_string(),
        amount: 9,
        msg: None,
    };
    let handle_result = handle(&mut deps, mock_env("bidaddr"), handle_msg);
    let log = extract_log(handle_result);
    assert!(log.contains("Bid was less than minimum allowed"));
    assert!(log.contains("\"minimum_bid\":\"10\""));
    assert!(log.contains("\"amount_returned\":\"9\""));
    assert!(log.contains("\"bid_decimals\":8"));

    let state: State = deps.state.clone().unwrap();
    assert_eq!(state.bids.len(), 0);

    // sanity check
    let handle_msg = HandleMsg::Receive {
        sender: "blah".to_string(),
        from: "bob".to_string(),
        amount: 100,
        msg: None,
    };
    let handle_result = handle(&mut deps, mock_env("bidaddr"), handle_msg);
    let log = extract_log(handle_result);
    assert!(log.contains("\"amount_bid\":\"100\""));
    assert!(log.contains("\"bid_decimals\":8"));
    let state: State = deps.state.clone().unwrap();
    assert_eq!(state.bids.len(), 1);
    let bid: Bid = load_bid(&deps, &"bob".to_string()).unwrap();
    assert_eq!(bid.amount, 100);

    // test bid equal to  previous bid
    let handle_msg = HandleMsg::Receive {
        sender: "blah".to_string(),
        from: "bob".to_string(),
        amount: 100,
        msg: None,
    };
    let handle_result = handle(&mut deps, mock_env("bidaddr"), handle_msg);
    let log = extract_log(handle_result);
    assert!(log.contains("New bid is the same as previous bid.  Retaining previous timestamp"));
    assert!(log.contains("\"previous_bid\":\"100\""));
    assert!(log.contains("\"amount_bid\":\"100\""));
    assert!(log.contains("\"amount_returned\":\"100\""));
    assert!(log.contains("\"bid_decimals\":8"));
    let state: State = deps.state.clone().unwrap();
    assert_eq!(state.bids.len(), 1);

    // test bid less than previous bid
    let handle_msg = HandleMsg::Receive {
        sender: "blah".to_string(),
        from: "bob".to_string(),
        amount: 25,
        msg: None,
    };
    let handle_result = handle(&mut deps, mock_env("bidaddr"), handle_msg);
    let log = extract_log(handle_result);
    assert!(log.contains("Previously bid tokens have been returned"));
    assert!(log.contains("\"amount_bid\":\"25\""));
    assert!(log.contains("\"amount_returned\":\"100\""));
    assert!(log.contains("\"bid_decimals\":8"));
    let state: State = deps.state.clone().unwrap();
    assert_eq!(state.bids.len(), 1);

    // test bid more than previous bid
    let handle_msg = HandleMsg::Receive {
        sender: "blah".to_string(),
        from: "bob".to_string(),
        amount: 250,
        msg: None,
    };
    let handle_result = handle(&mut deps, mock_env("bidaddr"), handle_msg);
    let log = extract_log(handle_result);
    assert!(log.contains("Previously bid tokens have been returned"));
    assert!(log.contains("\"amount_bid\":\"250\""));
    assert!(log.contains("\"amount_returned\":\"25\""));
    assert!(log.contains("\"bid_decimals\":8"));
    let state: State = deps.state.clone().unwrap();
    assert_eq!(state.bids.len(), 1);

    // try bid after close
    let handle_msg = HandleMsg::Finalize {
        new_ends_at: Some(2000),
        new_minimum_bid: Some(1000),
    };
    let _used = handle(&mut deps, mock_env("alice"), handle_msg);
    let handle_msg = HandleMsg::Receive {
        sender: "blah".to_string(),
        from: "bob".to_string(),
        amount: 2500,
        msg: None,
    };

    let handle_result = handle(&mut deps, mock_env("bidaddr"), handle_msg);
    let error = extract_error_msg(handle_result);
    assert!(error.contains("Auction has ended"));
}

#[test]
fn test_change_min_bid() {
    let (init_result, mut deps) = init_helper();
    assert!(
        init_result.is_ok(),
        "Init failed: {}",
        init_result.err().unwrap()
    );
    // try change min bid not seller
    let handle_msg = HandleMsg::ChangeMinimumBid {
        minimum_bid: 20,
    };
    let handle_result = handle(&mut deps, mock_env("bob"), handle_msg);
    let error = extract_error_msg(handle_result);
    assert!(error.contains("Only the auction seller can change the minimum bid"));
    let state: State = deps.state.clone().unwrap();
    assert_eq!(state.minimum_bid, 10);

    // try change min bid after close
    let handle_msg = HandleMsg::Finalize {
        new_ends_at: None,
        new_minimum_bid: None,
    };
    let handle_result = handle(
        &mut deps,
        env_at("bob", 1000),
        handle_msg,
    );
    let (
        message,
        winning_bid,
        bid_decimals,
        sell_tokens_received,
        sell_decimals,
        bid_tokens_received,
    ) = extract_finalize_fields(&handle_result);
    assert_eq!(winning_bid, None);
    assert_eq!(bid_decimals, None);
    assert_eq!(sell_tokens_received, None);
    assert_eq!(sell_decimals, None);
    assert_eq!(bid_tokens_received, None);
    assert!(message.contains("Auction has been closed"));
    assert!(!message.contains("Auction has been closed."));

    let handle_msg = HandleMsg::ChangeMinimumBid {
        minimum_bid: 20,
    };
    let handle_result = handle(&mut deps, mock_env("alice"), handle_msg);
    let error = extract_error_msg(handle_result);
    assert!(error.contains("Can not change the minimum bid of an auction that has ended"));
    let state: State = deps.state.clone().unwrap();
    assert_eq!(state.minimum_bid, 10);

    // sanity check
    let (init_result, mut deps) = init_helper();
    assert!(
        init_result.is_ok(),
        "Init failed: {}",
        init_result.err().unwrap()
    );
    let handle_msg = HandleMsg::Receive {
        sender: "blah".to_string(),
        from: "bob".to_string(),
        amount: 10,
        msg: None,
    };
    let handle_result = handle(&mut deps, mock_env("bidaddr"), handle_msg);
    let log = extract_log(handle_result);
    assert!(log.contains("\"amount_bid\":\"10\""));
    assert!(log.contains("\"bid_decimals\":8"));
    let state: State = deps.state.clone().unwrap();
    assert_eq!(state.bids.len(), 1);

    let handle_msg = HandleMsg::ChangeMinimumBid {
        minimum_bid: 20,
    };
    let _handle_result = handle(&mut deps, mock_env("alice"), handle_msg);
    let state: State = deps.state.clone().unwrap();
    assert_eq!(state.minimum_bid, 20);

    let handle_msg = HandleMsg::Receive {
        sender: "blah".to_string(),
        from: "charlie".to_string(),
        amount: 15,
        msg: None,
    };
    let handle_result = handle(&mut deps, mock_env("bidaddr"), handle_msg);
    let log = extract_log(handle_result);
    assert!(log.contains("Bid was less than minimum allowed"));
    assert!(log.contains("\"minimum_bid\":\"20\""));
    assert!(log.contains("\"amount_returned\":\"15\""));
    assert!(log.contains("\"bid_decimals\":8"));
    let state: State = deps.state.clone().unwrap();
    assert_eq!(state.bids.len(), 1);
}

#[test]
fn test_retract_bid() {
    let (init_result, mut deps) = init_helper();
    assert!(
        init_result.is_ok(),
        "Init failed: {}",
        init_result.err().unwrap()
    );

    // try no bid placed
    let handle_msg = HandleMsg::RetractBid {};
    let handle_result = handle(&mut deps, mock_env("bob"), handle_msg);
    let message = extract_msg(&handle_result);
    assert!(message.contains("No active bid for address"));
    let (amount, decimals) = extract_amount_returned(&handle_result);
    assert_eq!(amount, None);
    assert_eq!(decimals, None);

    // sanity check
    let handle_msg = HandleMsg::Receive {
        sender: "blah".to_string(),
        from: "bob".to_string(),
        amount: 100,
        msg: None,
    };
    let _handle_result = handle(&mut deps, mock_env("bidaddr"), handle_msg);
    let state: State = deps.state.clone().unwrap();
    assert_eq!(state.bids.len(), 1);
    let bid: Bid = load_bid(&deps, &"bob".to_string()).unwrap();
    assert_eq!(bid.amount, 100);

    let handle_msg = HandleMsg::RetractBid {};
    let handle_result = handle(&mut deps, mock_env("bob"), handle_msg);
    let message = extract_msg(&handle_result);
    assert!(message.contains("Bid retracted.  Tokens have been returned"));
    let (amount, decimals) = extract_amount_returned(&handle_result);
    assert_eq!(amount, Some(100));
    assert_eq!(decimals, Some(8));
    let state: State = deps.state.clone().unwrap();
    assert_eq!(state.bids.len(), 0);
}

#[test]
fn test_finalize() {
    let (init_result, mut deps) = init_helper();
    assert!(
        init_result.is_ok(),
        "Init failed: {}",
        init_result.err().unwrap()
    );

    // try return all before closing
    let handle_msg = HandleMsg::ReturnAll {};
    let handle_result = handle(&mut deps, mock_env("bob"), handle_msg);
    let error = extract_error_msg(handle_result);
    assert!(error.contains("return_all can only be executed after the auction has ended"));

    // try non-seller closing before end time
    let handle_msg = HandleMsg::Finalize {
        new_ends_at: None,
        new_minimum_bid: None,
    };
    let handle_result = handle(
        &mut deps,
        env_at("bob", 1),
        handle_msg,
    );
    let error = extract_error_msg(handle_result);
    assert!(
        error.contains("Only auction creator can finalize the sale before the closing time")
    );

    // try non-seller closing after end time
    let (init_result, mut deps) = init_helper();
    assert!(
        init_result.is_ok(),
        "Init failed: {}",
        init_result.err().unwrap()
    );

    let handle_msg = HandleMsg::Finalize {
        new_ends_at: None,
        new_minimum_bid: None,
    };
    let handle_result = handle(
        &mut deps,
        env_at("bob", 1000),
        handle_msg,
    );
    let (
        message,
        winning_bid,
        bid_decimals,
        sell_tokens_received,
        sell_decimals,
        bid_tokens_received,
    ) = extract_finalize_fields(&handle_result);
    assert_eq!(winning_bid, None);
    assert_eq!(bid_decimals, None);
    assert_eq!(sell_tokens_received, None);
    assert_eq!(sell_decimals, None);
    assert_eq!(bid_tokens_received, None);
    assert!(message.contains("Auction has been closed"));
    assert!(!message.contains("Auction has been closed."));

    let (init_result, mut deps) = init_helper();
    assert!(
        init_result.is_ok(),
        "Init failed: {}",
        init_result.err().unwrap()
    );
    // try stranger not wanting to close without bids
    let handle_msg = HandleMsg::Finalize {
        new_ends_at: Some(2000),
        new_minimum_bid: None,
    };
    let handle_result = handle(
        &mut deps,
        env_at("bob", 1100),
        handle_msg,
    );
    let error = extract_error_msg(handle_result);
    assert!(error
        .contains("Only the auction seller can change the closing time or the minimum bid"));
    // try stranger not wanting to close without bids
    let handle_msg = HandleMsg::Finalize {
        new_ends_at: None,
        new_minimum_bid: Some(1000),
    };
    let handle_result = handle(
        &mut deps,
        env_at("bob", 1100),
        handle_msg,
    );
    let error = extract_error_msg(handle_result);
    assert!(error
        .contains("Only the auction seller can change the closing time or the minimum bid"));
    // try stranger not wanting to close without bids
    let handle_msg = HandleMsg::Finalize {
        new_ends_at: Some(2000),
        new_minimum_bid: Some(1000),
    };
    let handle_result = handle(
        &mut deps,
        env_at("bob", 1100),
        handle_msg,
    );
    let error = extract_error_msg(handle_result);
    assert!(error
        .contains("Only the auction seller can change the closing time or the minimum bid"));

    // try seller not wanting to close without bids
    let handle_msg = HandleMsg::Finalize {
        new_ends_at: Some(2000),
        new_minimum_bid: None,
    };
    let handle_result = handle(
        &mut deps,
        env_at("alice", 1),
        handle_msg,
    );
    let (
        message,
        winning_bid,
        bid_decimals,
        sell_tokens_received,
        sell_decimals,
        bid_tokens_received,
    ) = extract_finalize_fields(&handle_result);
    assert_eq!(winning_bid, None);
    assert_eq!(bid_decimals, None);
    assert_eq!(sell_tokens_received, None);
    assert_eq!(sell_decimals, None);
    assert_eq!(bid_tokens_received, None);
    assert!(message.contains("There were no active bids.  The closing time has been updated"));
    let state: State = deps.state.clone().unwrap();
    assert_eq!(state.ends_at, Some(2000));
    assert_eq!(state.minimum_bid, 10);

    // try seller not wanting to close without bids
    let handle_msg = HandleMsg::Finalize {
        new_ends_at: None,
        new_minimum_bid: Some(1000),
    };
    let handle_result = handle(
        &mut deps,
        env_at("alice", 1),
        handle_msg,
    );
    let (
        message,
        winning_bid,
        bid_decimals,
        sell_tokens_received,
        sell_decimals,
        bid_tokens_received,
    ) = extract_finalize_fields(&handle_result);
    assert_eq!(winning_bid, None);
    assert_eq!(bid_decimals, None);
    assert_eq!(sell_tokens_received, None);
    assert_eq!(sell_decimals, None);
    assert_eq!(bid_tokens_received, None);
    assert!(message.contains("There were no active bids.  The minimum bid has been updated"));
    let state: State = deps.state.clone().unwrap();
    assert_eq!(state.ends_at, Some(2000));
    assert_eq!(state.minimum_bid, 1000);

    // try seller not wanting to close without bids
    let handle_msg = HandleMsg::Finalize {
        new_ends_at: Some(10000),
        new_minimum_bid: Some(100000),
    };
    let handle_result = handle(
        &mut deps,
        env_at("alice", 1),
        handle_msg,
    );
    let (
        message,
        winning_bid,
        bid_decimals,
        sell_tokens_received,
        sell_decimals,
        bid_tokens_received,
    ) = extract_finalize_fields(&handle_result);
    assert_eq!(winning_bid, None);
    assert_eq!(bid_decimals, None);
    assert_eq!(sell_tokens_received, None);
    assert_eq!(sell_decimals, None);
    assert_eq!(bid_tokens_received, None);
    assert!(message.contains(
        "There were no active bids.  The closing time and minimum bid has been updated"
    ));
    let state: State = deps.state.clone().unwrap();
    assert_eq!(state.ends_at, Some(10000));
    assert_eq!(state.minimum_bid, 100000);

    // test 3 bidders, highest retracts, other two are tied with time tie-breaker
    // winner closes after end time
    let (init_result, mut deps) = init_helper();
    assert!(
        init_result.is_ok(),
        "Init failed: {}",
        init_result.err().unwrap()
    );

    let handle_msg = HandleMsg::Receive {
        sender: "blah".to_string(),
        from: "bob".to_string(),
        amount: 100,
        msg: None,
    };
    let _handle_result = handle(
        &mut deps,
        env_at("bidaddr", 10),
        handle_msg,
    );
    let handle_msg = HandleMsg::Receive {
        sender: "blah".to_string(),
        from: "charlie".to_string(),
        amount: 100,
        msg: None,
    };
    let _handle_result = handle(
        &mut deps,
        env_at("bidaddr", 12),
        handle_msg,
    );
    let handle_msg = HandleMsg::Receive {
        sender: "blah".to_string(),
        from: "david".to_string(),
        amount: 1000,
        msg: None,
    };
    let _handle_result = handle(
        &mut deps,
        env_at("bidaddr", 5),
        handle_msg,
    );
    let state: State = deps.state.clone().unwrap();
    assert_eq!(state.bids.len(), 3);
    let handle_msg = HandleMsg::RetractBid {};
    let _handle_result = handle(&mut deps, mock_env("david"), handle_msg);
    let state: State = deps.state.clone().unwrap();
    assert_eq!(state.bids.len(), 2);

    let handle_msg = HandleMsg::Receive {
        sender: "blah".to_string(),
        from: "alice".to_string(),
        amount: 20,
        msg: None,
    };
    let _handle_result = handle(&mut deps, mock_env("selladdr"), handle_msg);
    let handle_msg = HandleMsg::Finalize {
        new_ends_at: None,
        new_minimum_bid: None,
    };
    let handle_result = handle(
        &mut deps,
        env_at("bob", 2000),
        handle_msg,
    );
    let (
        message,
        winning_bid,
        bid_decimals,
        sell_tokens_received,
        sell_decimals,
        bid_tokens_received,
    ) = extract_finalize_fields(&handle_result);
    assert_eq!(winning_bid, Some(100));
    assert_eq!(bid_decimals, Some(8));
    assert_eq!(sell_tokens_received, Some(10));
    assert_eq!(sell_decimals, Some(4));
    assert_eq!(bid_tokens_received, None);
    assert!(message.contains(
        "Sale has been finalized.  Your bid won! You have been sent the sale token(s)"
    ));

    // test 3 bidders, highest is seller, seller closes
    let (init_result, mut deps) = init_helper();
    assert!(
        init_result.is_ok(),
        "Init failed: {}",
        init_result.err().unwrap()
    );

    let handle_msg = HandleMsg::Receive {
        sender: "blah".to_string(),
        from: "bob".to_string(),
        amount: 100,
        msg: None,
    };
    let _handle_result = handle(
        &mut deps,
        env_at("bidaddr", 10),
        handle_msg,
    );
    let handle_msg = HandleMsg::Receive {
        sender: "blah".to_string(),
        from: "charlie".to_string(),
        amount: 200,
        msg: None,
    };
    let _handle_result = handle(
        &mut deps,
        env_at("bidaddr", 12),
        handle_msg,
    );
    let handle_msg = HandleMsg::Receive {
        sender: "blah".to_string(),
        from: "alice".to_string(),
        amount: 1000,
        msg: None,
    };
    let _handle_result = handle(
        &mut deps,
        env_at("bidaddr", 5),
        handle_msg,
    );
    let state: State = deps.state.clone().unwrap();
    assert_eq!(state.bids.len(), 3);

    let handle_msg = HandleMsg::Receive {
        sender: "blah".to_string(),
        from: "alice".to_string(),
        amount: 20,
        msg: None,
    };
    let _handle_result = handle(&mut deps, mock_env("selladdr"), handle_msg);
    let handle_msg = HandleMsg::Finalize {
        new_ends_at: Some(2000),
        new_minimum_bid: Some(1000),
    };
    let handle_result = handle(
        &mut deps,
        env_at("alice", 1),
        handle_msg,
    );
    let (
        message,
        winning_bid,
        bid_decimals,
        sell_tokens_received,
        sell_decimals,
        bid_tokens_received,
    ) = extract_finalize_fields(&handle_result);
    assert_eq!(winning_bid, Some(1000));
    assert_eq!(bid_decimals, Some(8));
    assert_eq!(sell_tokens_received, Some(10));
    assert_eq!(sell_decimals, Some(4));
    assert_eq!(bid_tokens_received, Some(1000));
    assert!(message.contains("Sale has been finalized.  You have been sent the winning bid.  Your bid won! You have been sent the sale token(s)"));

    // test 3 bidders, seller loses, seller closes
    let (init_result, mut deps) = init_helper();
    assert!(
        init_result.is_ok(),
        "Init failed: {}",
        init_result.err().unwrap()
    );

    let handle_msg = HandleMsg::Receive {
        sender: "blah".to_string(),
        from: "bob".to_string(),
        amount: 1000,
        msg: None,
    };
    let _handle_result = handle(
        &mut deps,
        env_at("bidaddr", 10),
        handle_msg,
    );
    let handle_msg = HandleMsg::Receive {
        sender: "blah".to_string(),
        from: "charlie".to_string(),
        amount: 200,
        msg: None,
    };
    let _handle_result = handle(
        &mut deps,
        env_at("bidaddr", 12),
        handle_msg,
    );
    let handle_msg = HandleMsg::Receive {
        sender: "blah".to_string(),
        from: "alice".to_string(),
        amount: 25,
        msg: None,
    };
    let _handle_result = handle(
        &mut deps,
        env_at("bidaddr", 5),
        handle_msg,
    );
    let state: State = deps.state.clone().unwrap();
    assert_eq!(state.bids.len(), 3);

    let handle_msg = HandleMsg::Receive {
        sender: "blah".to_string(),
        from: "alice".to_string(),
        amount: 20,
        msg: None,
    };
    let _handle_result = handle(&mut deps, mock_env("selladdr"), handle_msg);
    let handle_msg = HandleMsg::Finalize {
        new_ends_at: Some(2000),
        new_minimum_bid: None,
    };
    let handle_result = handle(
        &mut deps,
        env_at("alice", 1),
        handle_msg,
    );
    let (
        message,
        winning_bid,
        bid_decimals,
        sell_tokens_received,
        sell_decimals,
        bid_tokens_received,
    ) = extract_finalize_fields(&handle_result);
    assert_eq!(winning_bid, Some(1000));
    assert_eq!(bid_decimals, Some(8));
    assert_eq!(sell_tokens_received, None);
    assert_eq!(sell_decimals, None);
    assert_eq!(bid_tokens_received, Some(1025));
    assert!(message.contains("Sale has been finalized.  You have been sent the winning bid.  Your bid did not win and has been returned"));

    // test 3 bidders, loser closes
    let (init_result, mut deps) = init_helper();
    assert!(
        init_result.is_ok(),
        "Init failed: {}",
        init_result.err().unwrap()
    );

    let handle_msg = HandleMsg::Receive {
        sender: "blah".to_string(),
        from: "bob".to_string(),
        amount: 500,
        msg: None,
    };
    let _handle_result = handle(
        &mut deps,
        env_at("bidaddr", 10),
        handle_msg,
    );
    let handle_msg = HandleMsg::Receive {
        sender: "blah".to_string(),
        from: "charlie".to_string(),
        amount: 500,
        msg: None,
    };
    let _handle_result = handle(
        &mut deps,
        env_at("bidaddr", 12),
        handle_msg,
    );
    let handle_msg = HandleMsg::Receive {
        sender: "blah".to_string(),
        from: "david".to_string(),
        amount: 25,
        msg: None,
    };
    let _handle_result = handle(
        &mut deps,
        env_at("bidaddr", 5),
        handle_msg,
    );
    let state: State = deps.state.clone().unwrap();
    assert_eq!(state.bids.len(), 3);

    let handle_msg = HandleMsg::Receive {
        sender: "blah".to_string(),
        from: "alice".to_string(),
        amount: 20,
        msg: None,
    };
    let _handle_result = handle(&mut deps, mock_env("selladdr"), handle_msg);
    let handle_msg = HandleMsg::Finalize {
        new_ends_at: None,
        new_minimum_bid: None,
    };
    let handle_result = handle(
        &mut deps,
        env_at("charlie", 1000),
        handle_msg,
    );
    let (
        message,
        winning_bid,
        bid_decimals,
        sell_tokens_received,
        sell_decimals,
        bid_tokens_received,
    ) = extract_finalize_fields(&handle_result);
    assert_eq!(winning_bid, Some(500));
    assert_eq!(bid_decimals, Some(8));
    assert_eq!(sell_tokens_received, None);
    assert_eq!(sell_decimals, None);
    assert_eq!(bid_tokens_received, Some(500));
    assert!(message
        .contains("Sale has been finalized.  Your bid did not win and has been returned"));

    // test 3 bidders, seller closes
    let (init_result, mut deps) = init_helper();
    assert!(
        init_result.is_ok(),
        "Init failed: {}",
        init_result.err().unwrap()
    );

    let handle_msg = HandleMsg::Receive {
        sender: "blah".to_string(),
        from: "bob".to_string(),
        amount: 1000,
        msg: None,
    };
    let _handle_result = handle(
        &mut deps,
        env_at("bidaddr", 10),
        handle_msg,
    );
    let handle_msg = HandleMsg::Receive {
        sender: "blah".to_string(),
        from: "charlie".to_string(),
        amount: 200,
        msg: None,
    };
    let _handle_result = handle(
        &mut deps,
        env_at("bidaddr", 12),
        handle_msg,
    );
    let handle_msg = HandleMsg::Receive {
        sender: "blah".to_string(),
        from: "david".to_string(),
        amount: 25,
        msg: None,
    };
    let _handle_result = handle(
        &mut deps,
        env_at("bidaddr", 5),
        handle_msg,
    );
    let state: State = deps.state.clone().unwrap();
    assert_eq!(state.bids.len(), 3);

    let handle_msg = HandleMsg::Receive {
        sender: "blah".to_string(),
        from: "alice".to_string(),
        amount: 20,
        msg: None,
    };
    let _handle_result = handle(&mut deps, mock_env("selladdr"), handle_msg);
    let handle_msg = HandleMsg::Finalize {
        new_ends_at: None,
        new_minimum_bid: None,
    };
    let handle_result = handle(
        &mut deps,
        env_at("alice", 1000),
        handle_msg,
    );
    let (
        message,
        winning_bid,
        bid_decimals,
        sell_tokens_received,
        sell_decimals,
        bid_tokens_received,
    ) = extract_finalize_fields(&handle_result);
    assert_eq!(winning_bid, Some(1000));
    assert_eq!(bid_decimals, Some(8));
    assert_eq!(sell_tokens_received, None);
    assert_eq!(sell_decimals, None);
    assert_eq!(bid_tokens_received, Some(1000));
    assert!(message.contains("Sale has been finalized.  You have been sent the winning bid"));
    assert!(!message.contains("Sale has been finalized.  You have been sent the winning bid."));

    // return all response
    let handle_msg = HandleMsg::ReturnAll {};
    let handle_result = handle(&mut deps, mock_env("bob"), handle_msg);
    let message = extract_msg(&handle_result);
    assert!(message.contains("Outstanding funds have been returned"));

    // test 3 bidders, stranger closes
    let (init_result, mut deps) = init_helper();
    assert!(
        init_result.is_ok(),
        "Init failed: {}",
        init_result.err().unwrap()
    );

    let handle_msg = HandleMsg::Receive {
        sender: "blah".to_string(),
        from: "bob".to_string(),
        amount: 1000,
        msg: None,
    };
    let _handle_result = handle(
        &mut deps,
        env_at("bidaddr", 10),
        handle_msg,
    );
    let handle_msg = HandleMsg::Receive {
        sender: "blah".to_string(),
        from: "charlie".to_string(),
        amount: 200,
        msg: None,
    };
    let _handle_result = handle(
        &mut deps,
        env_at("bidaddr", 12),
        handle_msg,
    );
    let handle_msg = HandleMsg::Receive {
        sender: "blah".to_string(),
        from: "david".to_string(),
        amount: 25,
        msg: None,
    };
    let _handle_result = handle(
        &mut deps,
        env_at("bidaddr", 5),
        handle_msg,
    );
    let state: State = deps.state.clone().unwrap();
    assert_eq!(state.bids.len(), 3);

    let handle_msg = HandleMsg::Receive {
        sender: "blah".to_string(),
        from: "alice".to_string(),
        amount: 20,
        msg: None,
    };
    let _handle_result = handle(&mut deps, mock_env("selladdr"), handle_msg);
    let handle_msg = HandleMsg::Finalize {
        new_ends_at: None,
        new_minimum_bid: None,
    };
    let handle_result = handle(
        &mut deps,
        env_at("edmund", 1000),
        handle_msg,
    );
    let (
        message,
        winning_bid,
        bid_decimals,
        sell_tokens_received,
        sell_decimals,
        bid_tokens_received,
    ) = extract_finalize_fields(&handle_result);
    assert_eq!(winning_bid, Some(1000));
    assert_eq!(bid_decimals, Some(8));
    assert_eq!(sell_tokens_received, None);
    assert_eq!(sell_decimals, None);
    assert_eq!(bid_tokens_received, None);
    assert!(message.contains("Sale has been finalized"));
    assert!(!message.contains("Sale has been finalized."));

    // test already closed, stranger closes
    let handle_msg = HandleMsg::Finalize {
        new_ends_at: None,
        new_minimum_bid: None,
    };
    let handle_result = handle(
        &mut deps,
        env_at("bob", 1000),
        handle_msg,
    );
    let (
        message,
        winning_bid,
        bid_decimals,
        sell_tokens_received,
        sell_decimals,
        bid_tokens_received,
    ) = extract_finalize_fields(&handle_result);
    assert_eq!(winning_bid, None);
    assert_eq!(bid_decimals, None);
    assert_eq!(sell_tokens_received, None);
    assert_eq!(sell_decimals, None);
    assert_eq!(bid_tokens_received, None);
    assert!(message.contains("Auction has been closed"));
    assert!(!message.contains("Auction has been closed."));

    // test no bidders, seller closes
    let (init_result, mut deps) = init_helper();
    assert!(
        init_result.is_ok(),
        "Init failed: {}",
        init_result.err().unwrap()
    );

    let handle_msg = HandleMsg::Receive {
        sender: "blah".to_string(),
        from: "alice".to_string(),
        amount: 20,
        msg: None,
    };
    let _handle_result = handle(&mut deps, mock_env("selladdr"), handle_msg);
    let handle_msg = HandleMsg::Finalize {
        new_ends_at: None,
        new_minimum_bid: None,
    };
    let handle_result = handle(
        &mut deps,
        env_at("alice", 10),
        handle_msg,
    );
    let (
        message,
        winning_bid,
        bid_decimals,
        sell_tokens_received,
        sell_decimals,
        bid_tokens_received,
    ) = extract_finalize_fields(&handle_result);
    assert_eq!(winning_bid, None);
    assert_eq!(bid_decimals, None);
    assert_eq!(sell_tokens_received, Some(10));
    assert_eq!(sell_decimals, Some(4));
    assert_eq!(bid_tokens_received, None);
    assert!(message.contains("Auction has been closed.  Consigned tokens have been returned because there were no active bids"));

    // test no bidders, stranger closes
    let (init_result, mut deps) = init_helper();
    assert!(
        init_result.is_ok(),
        "Init failed: {}",
        init_result.err().unwrap()
    );

    let handle_msg = HandleMsg::Receive {
        sender: "blah".to_string(),
        from: "alice".to_string(),
        amount: 20,
        msg: None,
    };
    let _handle_result = handle(&mut deps, mock_env("selladdr"), handle_msg);
    let handle_msg = HandleMsg::Finalize {
        new_ends_at: None,
        new_minimum_bid: None,
    };
    let handle_result = handle(
        &mut deps,
        env_at("bob", 1000),
        handle_msg,
    );
    let (
        message,
        winning_bid,
        bid_decimals,
        sell_tokens_received,
        sell_decimals,
        bid_tokens_received,
    ) = extract_finalize_fields(&handle_result);
    assert_eq!(winning_bid, None);
    assert_eq!(bid_decimals, None);
    assert_eq!(sell_tokens_received, None);
    assert_eq!(sell_decimals, None);
    assert_eq!(bid_tokens_received, None);
    assert!(message.contains("Auction has been closed"));
    assert!(!message.contains("Auction has been closed."));
}

#[test]
fn test_query_view_bid() {
    let (init_result, deps) = init_helper();
    assert!(
        init_result.is_ok(),
        "Init failed: {}",
        init_result.err().unwrap()
    );

    let invalid_deps = deps.with_key_validity(false);
    // try wrong key
    let query_msg = QueryMsg::ViewBid {
        address: "bob".to_string(),
        viewing_key: "wrong_key".to_string(),
    };
    let query_result = query(&invalid_deps, query_msg);
    let error = extract_query_error(query_result);
    assert!(error.contains("Wrong viewing key"));

    let (init_result, deps) = init_helper();
    assert!(
        init_result.is_ok(),
        "Init failed: {}",
        init_result.err().unwrap()
    );
    let valid_deps = deps.with_key_validity(true);
    // try no bid
    let query_msg = QueryMsg::ViewBid {
        address: "bob".to_string(),
        viewing_key: "key".to_string(),
    };
    let query_result = query(&valid_deps, query_msg);
    let (message, bid_decimals) = match query_result.unwrap() {
        QueryAnswer::Bid {
            message,
            bid_decimals,
            ..
        } => (message, bid_decimals),
        _ => panic!("Unexpected"),
    };
    assert!(message.contains("No active bid for address: bob"));
    assert_eq!(bid_decimals, None);

    // sanity check
    let (init_result, deps) = init_helper();
    assert!(
        init_result.is_ok(),
        "Init failed: {}",
        init_result.err().unwrap()
    );
    let mut valid_deps = deps.with_key_validity(true);
    let handle_msg = HandleMsg::Receive {
        sender: "blah".to_string(),
        from: "bob".to_string(),
        amount: 100,
        msg: None,
    };
    let _handle_result = handle(&mut valid_deps, mock_env("bidaddr"), handle_msg);
    let query_msg = QueryMsg::ViewBid {
        address: "bob".to_string(),
        viewing_key: "key".to_string(),
    };
    let query_result = query(&valid_deps, query_msg);
    let (message, amount_bid, bid_decimals) = match query_result.unwrap()
    {
        QueryAnswer::Bid {
            message,
            amount_bid,
            bid_decimals,
            ..
        } => (message, amount_bid, bid_decimals),
        _ => panic!("Unexpected"),
    };
    assert!(message.contains("Bid placed"));
    assert_eq!(amount_bid, Some(100));
    assert_eq!(bid_decimals, Some(8));
}

#[test]
fn test_query_has_bids() {
    let (init_result, deps) = init_helper();
    assert!(
        init_result.is_ok(),
        "Init failed: {}",
        init_result.err().unwrap()
    );

    let invalid_deps = deps.with_key_validity(false);
    // try wrong key
    let query_msg = QueryMsg::HasBids {
        address: "alice".to_string(),
        viewing_key: "wrong_key".to_string(),
    };
    let query_result = query(&invalid_deps, query_msg);
    let error = extract_query_error(query_result);
    assert!(error
        .contains("Address and/or viewing key does not match auction creator's information"));

    let (init_result, deps) = init_helper();
    assert!(
        init_result.is_ok(),
        "Init failed: {}",
        init_result.err().unwrap()
    );
    let valid_deps = deps.with_key_validity(true);
    // try not seller
    let query_msg = QueryMsg::HasBids {
        address: "bob".to_string(),
        viewing_key: "key".to_string(),
    };
    let query_result = query(&valid_deps, query_msg);
    let error = extract_query_error(query_result);
    assert!(error
        .contains("Address and/or viewing key does not match auction creator's information"));

    // sanity check, no bids
    let (init_result, deps) = init_helper();
    assert!(
        init_result.is_ok(),
        "Init failed: {}",
        init_result.err().unwrap()
    );
    let mut valid_deps = deps.with_key_validity(true);
    let query_msg = QueryMsg::HasBids {
        address: "alice".to_string(),
        viewing_key: "key".to_string(),
    };
    let query_result = query(&valid_deps, query_msg);
    let has_bids = match query_result.unwrap() {
        QueryAnswer::HasBids { has_bids, .. } => has_bids,
        _ => panic!("Unexpected"),
    };
    assert!(!has_bids);

    // sanity check, with bids
    let handle_msg = HandleMsg::Receive {
        sender: "blah".to_string(),
        from: "bob".to_string(),
        amount: 100,
        msg: None,
    };
    let _handle_result = handle(&mut valid_deps, mock_env("bidaddr"), handle_msg);
    let query_msg = QueryMsg::HasBids {
        address: "alice".to_string(),
        viewing_key: "key".to_string(),
    };
    let query_result = query(&valid_deps, query_msg);
    let has_bids = match query_result.unwrap() {
        QueryAnswer::HasBids { has_bids, .. } => has_bids,
        _ => panic!("Unexpected"),
    };
    assert!(has_bids);

    let handle_msg = HandleMsg::Receive {
        sender: "blah".to_string(),
        from: "charlie".to_string(),
        amount: 100,
        msg: None,
    };
    let _handle_result = handle(&mut valid_deps, mock_env("bidaddr"), handle_msg);
    let query_msg = QueryMsg::HasBids {
        address: "alice".to_string(),
        viewing_key: "key".to_string(),
    };
    let query_result = query(&valid_deps, query_msg);
    let has_bids = match query_result.unwrap() {
        QueryAnswer::HasBids { has_bids, .. } => has_bids,
        _ => panic!("Unexpected"),
    };
    assert!(has_bids);
}