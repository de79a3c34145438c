//! Records and answers of the registry.

use crate::auction::msg::ContractInfo;
use vstd::prelude::*;

verus! {

/// The filter types when viewing an address' auctions.
#[derive(Clone, Copy, Debug, PartialEq, Eq, Structural)]
pub enum FilterTypes {
    Active,
    Closed,
    All,
}

/// Success or failure response.
#[derive(Clone, Copy, Debug, PartialEq, Eq, Structural)]
pub enum ResponseStatus {
    Success,
    Failure,
}

/// Info needed to instantiate an auction.
#[derive(Clone, Debug, PartialEq, Eq)]
pub struct AuctionContractInfo {
    /// code id of the stored auction contract
    pub code_id: u64,
    /// code hash of the stored auction contract
    pub code_hash: String,
}

/// Active auction info for storage.
#[derive(Clone, Debug, PartialEq, Eq)]
pub struct StoreAuctionInfo {
    /// auction address
    pub address: String,
    /// auction label
    pub label: String,
    /// sell symbol index
    pub sell_symbol: u16,
    /// bid symbol index
    pub bid_symbol: u16,
    /// sell amount
    pub sell_amount: u128,
    /// minimum bid
    pub minimum_bid: u128,
    /// timestamp after which anyone may close the auction, if any
    pub ends_at: Option<u64>,
}

/// Closed auction storage format.
#[derive(Clone, Debug, PartialEq, Eq)]
pub struct StoreClosedAuctionInfo {
    /// auction address
    pub address: String,
    /// auction label
    pub label: String,
    /// sell symbol index
    pub sell_symbol: u16,
    /// bid symbol index
    pub bid_symbol: u16,
    /// sell amount
    pub sell_amount: u128,
    /// winning bid
    pub winning_bid: Option<u128>,
    /// time the auction closed in seconds since the epoch
    pub timestamp: u64,
}

impl StoreAuctionInfo {
    /// The closed-log record of this auction, closed at `timestamp` with the
    /// given winning bid, if any.
    pub fn to_store_closed_auction_info(
        &self,
        winning_bid: Option<u128>,
        timestamp: u64,
    ) -> (closed: StoreClosedAuctionInfo)
        ensures
            closed == (StoreClosedAuctionInfo {
                address: self.address,
                label: self.label,
                sell_symbol: self.sell_symbol,
                bid_symbol: self.bid_symbol,
                sell_amount: self.sell_amount,
                winning_bid,
                timestamp,
            }),
    {
        StoreClosedAuctionInfo {
            address: self.address.clone(),
            label: self.label.clone(),
            sell_symbol: self.sell_symbol,
            bid_symbol: self.bid_symbol,
            sell_amount: self.sell_amount,
            winning_bid,
            timestamp,
        }
    }
}

/// Instantiation message.
#[derive(Clone, Debug, PartialEq, Eq)]
pub struct InitMsg {
    /// entropy used to generate the seed of the key generator
    pub entropy: String,
    /// auction contract info
    pub auction_contract: AuctionContractInfo,
}

/// Handle messages.
#[allow(inconsistent_fields)]
#[derive(Clone, Debug, PartialEq, Eq)]
pub enum HandleMsg {
    /// instantiates a new auction
    CreateAuction {
        label: String,
        sell_contract: ContractInfo,
        bid_contract: ContractInfo,
        sell_amount: u128,
        minimum_bid: u128,
        ends_at: Option<u64>,
        description: Option<String>,
    },
    /// saves the info of a newly instantiated auction; sent by auctions
    RegisterAuction { seller: String, auction: RegisterAuctionInfo, sell_contract: ContractInfo },
    /// tells that the auction closed; sent by auctions
    CloseAuction {
        index: u32,
        seller: String,
        bidder: Option<String>,
        winning_bid: Option<u128>,
    },
    /// tells that an auction has a new bidder; sent by auctions
    RegisterBidder { index: u32, bidder: String },
    /// tells that a bidder retracted its bid; sent by auctions
    RemoveBidder { index: u32, bidder: String },
    /// lets the admin set the auction contract that new auctions run
    NewAuctionContract { auction_contract: AuctionContractInfo },
    /// creates a viewing key from entropy
    CreateViewingKey { entropy: String },
    /// sets a viewing key
    SetViewingKey { key: String, padding: Option<String> },
    /// lets the admin stop or resume the creation of auctions
    SetStatus { stop: bool },
    /// tells that closing time or minimum bid changed; sent by auctions
    ChangeAuctionInfo { index: u32, ends_at: Option<u64>, minimum_bid: Option<u128> },
}

/// Queries.
#[derive(Clone, Debug, PartialEq, Eq)]
pub enum QueryMsg {
    /// lists the auctions that the address sold, won or bids in
    ListMyAuctions { address: String, viewing_key: String, filter: Option<FilterTypes> },
    /// lists all active auctions sorted by pair
    ListActiveAuctions {},
    /// lists closed auctions, latest first, from before the given position
    ListClosedAuctions { before: Option<u32>, page_size: Option<u32> },
    /// authenticates an address and viewing key; asked by auctions
    IsKeyValid { address: String, viewing_key: String },
}

/// Active auction display info.
#[derive(Clone, Debug, PartialEq, Eq)]
pub struct AuctionInfo {
    /// auction address
    pub address: String,
    /// auction label
    pub label: String,
    /// symbols of the tokens for sale and being bid, as SELL-BID
    pub pair: String,
    /// sell amount
    pub sell_amount: u128,
    /// decimal places of the sell amount
    pub sell_decimals: u8,
    /// minimum bid
    pub minimum_bid: u128,
    /// decimal places of the minimum bid
    pub bid_decimals: u8,
    /// timestamp after which anyone may close the auction, if any
    pub ends_at: Option<u64>,
}

/// Closed auction display info.
#[derive(Clone, Debug, PartialEq, Eq)]
pub struct ClosedAuctionInfo {
    /// position in the closed log, where the listing is of the log itself
    pub index: Option<u32>,
    /// auction address
    pub address: String,
    /// auction label
    pub label: String,
    /// symbols of the tokens for sale and being bid, as SELL-BID
    pub pair: String,
    /// sell amount
    pub sell_amount: u128,
    /// decimal places of the sell amount
    pub sell_decimals: u8,
    /// winning bid
    pub winning_bid: Option<u128>,
    /// decimal places of the winning bid
    pub bid_decimals: Option<u8>,
    /// time the auction closed in seconds since the epoch
    pub timestamp: u64,
}

/// Lists of active auctions sorted by pair where the address is seller or
/// bidder.
#[derive(Clone, Debug, PartialEq, Eq)]
pub struct MyActiveLists {
    pub as_seller: Option<Vec<AuctionInfo>>,
    pub as_bidder: Option<Vec<AuctionInfo>>,
}

/// Lists of closed auctions, latest first, where the address sold or won.
#[derive(Clone, Debug, PartialEq, Eq)]
pub struct MyClosedLists {
    pub as_seller: Option<Vec<ClosedAuctionInfo>>,
    pub won: Option<Vec<ClosedAuctionInfo>>,
}

/// Responses to queries.
#[allow(inconsistent_fields)]
#[derive(Clone, Debug, PartialEq, Eq)]
pub enum QueryAnswer {
    /// the auctions of an address
    ListMyAuctions { active: Option<MyActiveLists>, closed: Option<MyClosedLists> },
    /// active auctions sorted by pair
    ListActiveAuctions { active: Option<Vec<AuctionInfo>> },
    /// closed auctions, latest first
    ListClosedAuctions { closed: Option<Vec<ClosedAuctionInfo>> },
    /// the credential did not authenticate
    ViewingKeyError { error: String },
    /// result of authenticating an address and key
    IsKeyValid { is_valid: bool },
}

/// Responses from handle functions.
#[derive(Clone, Debug, PartialEq, Eq)]
pub enum HandleAnswer {
    /// response from creating or setting a viewing key
    ViewingKey { key: String },
    /// generic status response
    Status { status: ResponseStatus, message: Option<String> },
}

/// What an auction tells the factory about itself when it registers.
#[derive(Clone, Debug, PartialEq, Eq)]
pub struct RegisterAuctionInfo {
    /// auction index with the factory
    pub index: u32,
    /// auction label
    pub label: String,
    /// sell symbol index
    pub sell_symbol: u16,
    /// bid symbol index
    pub bid_symbol: u16,
    /// sell amount
    pub sell_amount: u128,
    /// minimum bid
    pub minimum_bid: u128,
    /// timestamp after which anyone may close the auction, if any
    pub ends_at: Option<u64>,
}

impl RegisterAuctionInfo {
    /// The record to store for the auction at `address`.
    pub fn to_store_auction_info(&self, address: String) -> (info: StoreAuctionInfo)
        ensures
            info == (StoreAuctionInfo {
                address,
                label: self.label,
                sell_symbol: self.sell_symbol,
                bid_symbol: self.bid_symbol,
                sell_amount: self.sell_amount,
                minimum_bid: self.minimum_bid,
                ends_at: self.ends_at,
            }),
    {
        StoreAuctionInfo {
            address,
            label: self.label.clone(),
            sell_symbol: self.sell_symbol,
            bid_symbol: self.bid_symbol,
            sell_amount: self.sell_amount,
            minimum_bid: self.minimum_bid,
            ends_at: self.ends_at,
        }
    }
}

/// The message that instantiates an auction.
#[derive(Clone, Debug, PartialEq, Eq)]
pub struct AuctionInitMsg {
    /// factory contract code hash and address
    pub factory: ContractInfo,
    /// auction index with the factory
    pub index: u32,
    /// label for the auction
    pub label: String,
    /// auction seller
    pub seller: String,
    /// sell contract code hash and address
    pub sell_contract: ContractInfo,
    /// sell symbol index
    pub sell_symbol: u16,
    /// sell token decimal places
    pub sell_decimals: u8,
    /// bid contract code hash and address
    pub bid_contract: ContractInfo,
    /// bid symbol index
    pub bid_symbol: u16,
    /// bid token decimal places
    pub bid_decimals: u8,
    /// amount of tokens being sold
    pub sell_amount: u128,
    /// minimum bid that will be accepted
    pub minimum_bid: u128,
    /// timestamp after which anyone may close the auction, if any
    pub ends_at: Option<u64>,
    /// optional free-form description of the auction
    pub description: Option<String>,
}

/// An outgoing instruction of the factory.
#[derive(Clone, Debug, PartialEq, Eq)]
pub enum FactoryInstruction {
    /// instantiate an auction from the stored contract `code_id`
    Instantiate { label: String, code_id: u64, code_hash: String, msg: AuctionInitMsg },
    /// move `amount` of `token` from `owner` to `recipient`, on the
    /// allowance that `owner` gave the factory
    SendFrom { token: ContractInfo, owner: String, recipient: String, amount: u128 },
}

/// A named value for the caller's log.
#[derive(Clone, Debug, PartialEq, Eq)]
pub struct LogAttribute {
    pub key: String,
    pub value: String,
}

/// Why a request to the factory was rejected outright.
#[derive(Clone, Copy, Debug, PartialEq, Eq, Structural)]
pub enum FactoryError {
    /// the creation of auctions is disabled
    Stopped,
    /// an admin command came from another address than the admin's
    NotAdmin,
    /// an auction tried to register while none is being created
    NoPendingRegistration,
    /// the label of the registering auction is not the one being created
    LabelMismatch,
}

impl FactoryError {
    /// The reason in words.
    pub fn message(&self) -> (text: String)
        ensures
            text@ == match *self {
                FactoryError::Stopped =>
                    "The factory has been stopped.  No new auctions can be created"@,
                FactoryError::NotAdmin =>
                    "This is an admin command. Admin commands can only be run from admin address"@,
                FactoryError::NoPendingRegistration => "Unable to authenticate registration."@,
                FactoryError::LabelMismatch =>
                    "Label does not match the auction we are creating"@,
            },
    {
        match self {
            FactoryError::Stopped => String::from_str(
                "The factory has been stopped.  No new auctions can be created",
            ),
            FactoryError::NotAdmin => String::from_str(
                "This is an admin command. Admin commands can only be run from admin address",
            ),
            FactoryError::NoPendingRegistration => String::from_str(
                "Unable to authenticate registration.",
            ),
            FactoryError::LabelMismatch => String::from_str(
                "Label does not match the auction we are creating",
            ),
        }
    }
}

} // verus!
