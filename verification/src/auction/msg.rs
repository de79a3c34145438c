//! Messages the auction engine receives, answers it gives and instructions
//! it hands to the ledger.

use vstd::prelude::*;

verus! {

/// Success or failure of the business intent of a request.
#[derive(Clone, Copy, Debug, PartialEq, Eq, Structural)]
pub enum ResponseStatus {
    Success,
    Failure,
}

/// Code hash and address of a contract.
#[derive(Clone, Debug, PartialEq, Eq)]
pub struct ContractInfo {
    /// contract's code hash string
    pub code_hash: String,
    /// contract's address
    pub address: String,
}

/// An outgoing instruction. A handler returns its instructions in the order
/// in which the ledger is to carry them out, together with the state change.
#[allow(inconsistent_fields)]
#[derive(Clone, Debug, PartialEq, Eq)]
pub enum Instruction {
    /// send `amount` units of `token` to `recipient`
    Transfer { token: ContractInfo, recipient: String, amount: u128 },
    /// ask `token` to notify the contract with `code_hash` of deposits
    RegisterReceive { token: ContractInfo, code_hash: String },
    /// call back into the registry
    Factory { factory: ContractInfo, msg: FactoryHandleMsg },
}

impl ContractInfo {
    /// A copy of this reference.
    pub fn duplicate(&self) -> (copy: ContractInfo)
        ensures
            copy == *self,
    {
        ContractInfo { code_hash: self.code_hash.clone(), address: self.address.clone() }
    }

    /// The instruction that sends `amount` of this token to `recipient`.
    pub fn transfer_msg(&self, recipient: String, amount: u128) -> (msg: Instruction)
        ensures
            msg == (Instruction::Transfer { token: *self, recipient, amount }),
    {
        Instruction::Transfer { token: self.duplicate(), recipient, amount }
    }

    /// The instruction that subscribes the contract with `code_hash` to this
    /// token's deposit notifications.
    pub fn register_receive_msg(&self, code_hash: String) -> (msg: Instruction)
        ensures
            msg == (Instruction::RegisterReceive { token: *self, code_hash }),
    {
        Instruction::RegisterReceive { token: self.duplicate(), code_hash }
    }
}

/// What a token answers when asked about itself.
#[derive(Clone, Debug, PartialEq, Eq)]
pub struct TokenInfo {
    pub name: String,
    pub symbol: String,
    pub decimals: u8,
    pub total_supply: Option<u128>,
}

/// A token's contract address and what it says about itself.
#[derive(Clone, Debug, PartialEq, Eq)]
pub struct Token {
    /// contract address of token
    pub contract_address: String,
    /// token info query response
    pub token_info: TokenInfo,
}

/// Instantiation message.
#[derive(Clone, Debug, PartialEq, Eq)]
pub struct InitMsg {
    /// factory contract code hash and address
    pub factory: ContractInfo,
    /// auction index with the factory
    pub index: u32,
    /// label for the auction
    pub label: String,
    /// auction seller
    pub seller: String,
    /// sell contract code hash and address
    pub sell_contract: ContractInfo,
    /// sell symbol index
    pub sell_symbol: u16,
    /// sell token decimal places
    pub sell_decimals: u8,
    /// bid contract code hash and address
    pub bid_contract: ContractInfo,
    /// bid symbol index
    pub bid_symbol: u16,
    /// bid token decimal places
    pub bid_decimals: u8,
    /// amount of tokens being sold
    pub sell_amount: u128,
    /// minimum bid that will be accepted
    pub minimum_bid: u128,
    /// timestamp after which anyone may close the auction, in seconds since
    /// the epoch; without one only the seller may close it
    pub ends_at: Option<u64>,
    /// optional free-form description of the auction
    pub description: Option<String>,
}

/// Handle messages.
#[allow(inconsistent_fields)]
#[derive(Clone, Debug, PartialEq, Eq)]
pub enum HandleMsg {
    /// Sent by a token contract after tokens arrived in escrow.
    Receive {
        /// address that triggered the deposit
        sender: String,
        /// owner of the deposited tokens
        from: String,
        /// amount of tokens deposited
        amount: u128,
        /// optional payload sent along with the deposit; not used
        msg: Option<Vec<u8>>,
    },
    /// Retracts the caller's live bid.
    RetractBid {},
    /// Closes the auction, or, where there are no bids, updates its terms.
    Finalize {
        /// optional new closing time
        new_ends_at: Option<u64>,
        /// optional new minimum bid
        new_minimum_bid: Option<u128>,
    },
    /// Returns whatever a closed auction still holds.
    ReturnAll {},
    /// Changes the minimum bid; applies to bids placed afterwards.
    ChangeMinimumBid {
        /// new minimum bid
        minimum_bid: u128,
    },
}

/// Queries.
#[allow(inconsistent_fields)]
#[derive(Clone, Debug, PartialEq, Eq)]
pub enum QueryMsg {
    /// displays the auction information
    AuctionInfo {},
    /// view the live bid of an address
    ViewBid { address: String, viewing_key: String },
    /// whether there are any live bids; for the seller
    HasBids { address: String, viewing_key: String },
}

/// Responses to queries.
#[allow(inconsistent_fields)]
#[derive(Clone, Debug, PartialEq, Eq)]
pub enum QueryAnswer {
    /// public auction information
    AuctionInfo {
        sell_token: Token,
        bid_token: Token,
        sell_amount: u128,
        minimum_bid: u128,
        description: Option<String>,
        auction_address: String,
        ends_at: Option<String>,
        status: String,
        winning_bid: Option<u128>,
    },
    /// response from a view-bid attempt
    Bid {
        status: ResponseStatus,
        message: String,
        amount_bid: Option<u128>,
        bid_decimals: Option<u8>,
    },
    /// whether there are any live bids
    HasBids { has_bids: bool },
    /// the credential did not authenticate
    ViewingKeyError { error: String },
}

/// Responses from handle functions.
#[allow(inconsistent_fields)]
#[derive(Clone, Debug, PartialEq, Eq)]
pub enum HandleAnswer {
    /// response from a consign attempt
    Consign {
        status: ResponseStatus,
        message: String,
        amount_consigned: u128,
        amount_needed: Option<u128>,
        amount_returned: Option<u128>,
        sell_decimals: u8,
    },
    /// response from a bid attempt
    Bid {
        status: ResponseStatus,
        message: String,
        previous_bid: Option<u128>,
        minimum_bid: Option<u128>,
        amount_bid: Option<u128>,
        amount_returned: Option<u128>,
        bid_decimals: u8,
    },
    /// response from closing the auction
    CloseAuction {
        status: ResponseStatus,
        message: String,
        winning_bid: Option<u128>,
        bid_decimals: Option<u8>,
        sell_tokens_received: Option<u128>,
        sell_decimals: Option<u8>,
        bid_tokens_received: Option<u128>,
    },
    /// response from an attempt to retract a bid
    RetractBid {
        status: ResponseStatus,
        message: String,
        amount_returned: Option<u128>,
        bid_decimals: Option<u8>,
    },
    /// response from an attempt to change the minimum bid
    ChangeMinimumBid { status: ResponseStatus, minimum_bid: u128, bid_decimals: u8 },
}

/// What a handler hands back: the instructions to carry out, in order, and
/// the answer for the caller.
#[derive(Clone, Debug, PartialEq, Eq)]
pub struct HandleResponse {
    pub messages: Vec<Instruction>,
    pub answer: HandleAnswer,
}

/// Auction info needed by the factory.
#[derive(Clone, Debug, PartialEq, Eq)]
pub struct FactoryAuctionInfo {
    /// auction index with the factory
    pub index: u32,
    /// auction label
    pub label: String,
    /// sell symbol index
    pub sell_symbol: u16,
    /// bid symbol index
    pub bid_symbol: u16,
    /// sell amount
    pub sell_amount: u128,
    /// minimum bid
    pub minimum_bid: u128,
    /// timestamp after which anyone may close the auction, if any
    pub ends_at: Option<u64>,
}

/// The factory's handle messages that an auction sends.
#[allow(inconsistent_fields)]
#[derive(Clone, Debug, PartialEq, Eq)]
pub enum FactoryHandleMsg {
    /// saves the auction info of a newly instantiated auction
    RegisterAuction { seller: String, auction: FactoryAuctionInfo, sell_contract: ContractInfo },
    /// registers the closure of this auction
    CloseAuction {
        index: u32,
        seller: String,
        bidder: Option<String>,
        winning_bid: Option<u128>,
    },
    /// registers a new bidder
    RegisterBidder { index: u32, bidder: String },
    /// the address is no longer a bidder in this auction
    RemoveBidder { index: u32, bidder: String },
    /// the closing time and/or the minimum bid changed
    ChangeAuctionInfo { index: u32, ends_at: Option<u64>, minimum_bid: Option<u128> },
}

/// The factory's query messages that an auction sends.
#[allow(inconsistent_fields)]
#[derive(Clone, Debug, PartialEq, Eq)]
pub enum FactoryQueryMsg {
    /// authenticates the supplied address and viewing key
    IsKeyValid { address: String, viewing_key: String },
}

/// Result of authenticating an address and key.
#[derive(Clone, Copy, Debug, PartialEq, Eq)]
pub struct IsKeyValid {
    pub is_valid: bool,
}

/// The envelope in which the factory returns `IsKeyValid`.
#[derive(Clone, Copy, Debug, PartialEq, Eq)]
pub struct IsKeyValidWrapper {
    pub is_key_valid: IsKeyValid,
}

/// Why a request was rejected outright, with nothing moved and nothing
/// changed.
#[allow(inconsistent_fields)]
#[derive(Clone, Debug, PartialEq, Eq)]
pub enum ContractError {
    /// the sale amount of a new auction is zero
    ZeroSellAmount,
    /// the sale token and the bid token are the same contract
    SameTokenContracts,
    /// a deposit notification came from a contract that is neither token
    UnknownToken { sender: String },
    /// someone other than the seller asked to change the minimum bid
    MinimumBidNotSeller,
    /// a change of the minimum bid was asked of a closed auction
    MinimumBidAfterEnd,
    /// a sweep of leftovers was asked of an auction that is still open
    ReturnAllBeforeEnd,
    /// someone other than the seller asked to update the terms on closing
    UpdateNotSeller,
}

impl ContractError {
    /// The reason in words.
    pub fn message(&self) -> (text: String)
        ensures
            text@ == match *self {
                ContractError::ZeroSellAmount => "Sell amount must be greater than 0"@,
                ContractError::SameTokenContracts =>
                    "Sell contract and bid contract must be different"@,
                ContractError::UnknownToken { sender } =>
                    "Address: "@ + sender@ + " is not a token in this auction"@,
                ContractError::MinimumBidNotSeller =>
                    "Only the auction seller can change the minimum bid"@,
                ContractError::MinimumBidAfterEnd =>
                    "Can not change the minimum bid of an auction that has ended"@,
                ContractError::ReturnAllBeforeEnd =>
                    "return_all can only be executed after the auction has ended"@,
                ContractError::UpdateNotSeller =>
                    "Only the auction seller can change the closing time or the minimum bid"@,
            },
    {
        match self {
            ContractError::ZeroSellAmount => String::from_str(
                "Sell amount must be greater than 0",
            ),
            ContractError::SameTokenContracts => String::from_str(
                "Sell contract and bid contract must be different",
            ),
            ContractError::UnknownToken { sender } => {
                let mut text = String::from_str("Address: ");
                text.append(sender.as_str());
                text.append(" is not a token in this auction");
                text
            },
            ContractError::MinimumBidNotSeller => String::from_str(
                "Only the auction seller can change the minimum bid",
            ),
            ContractError::MinimumBidAfterEnd => String::from_str(
                "Can not change the minimum bid of an auction that has ended",
            ),
            ContractError::ReturnAllBeforeEnd => String::from_str(
                "return_all can only be executed after the auction has ended",
            ),
            ContractError::UpdateNotSeller => String::from_str(
                "Only the auction seller can change the closing time or the minimum bid",
            ),
        }
    }
}

} // verus!
