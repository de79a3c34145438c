//! The handlers of the registry. Each works on the records that its caller
//! loaded and returns the records to store, the instructions to send out
//! and the answer.

use crate::auction::contract::Env;
use crate::auction::msg::ContractInfo;
use crate::auction::msg::TokenInfo;
use crate::factory::msg::AuctionContractInfo;
use crate::factory::msg::AuctionInitMsg;
use crate::factory::msg::FactoryError;
use crate::factory::msg::FactoryInstruction;
use crate::factory::msg::HandleAnswer;
use crate::factory::msg::HandleMsg;
use crate::factory::msg::InitMsg;
use crate::factory::msg::LogAttribute;
use crate::factory::msg::RegisterAuctionInfo;
use crate::factory::msg::ResponseStatus;
use crate::factory::msg::StoreAuctionInfo;
use crate::factory::msg::StoreClosedAuctionInfo;
use crate::factory::state::filter_only_active;
use crate::factory::state::lookup_symbol;
use crate::factory::state::symbol_of;
use crate::factory::state::Config;
use crate::factory::state::SymbolIndex;
use crate::factory::state::TokenSymDec;
use crate::viewing_key::create_hashed_password;
use crate::viewing_key::sha256_of_text;
use crate::viewing_key::ViewingKey;
use std::collections::HashSet;
use vstd::prelude::*;

verus! {

broadcast use vstd::std_specs::hash::group_hash_axioms;

/// The base64 text, in the standard alphabet with padding, of the UTF-8
/// encoding of a text.
pub uninterp spec fn base64_of_text(text: Seq<char>) -> Seq<char>;

/// Encodes a text with `base64::encode`. The contract names the encoded
/// text.
#[verifier::external_body]
pub(crate) fn encode_base64(text: &str) -> (encoded: String)
    ensures
        encoded@ == base64_of_text(text@),
{
    base64::encode(text)
}

/// The records of a new factory.
#[derive(Debug, PartialEq, Eq)]
pub struct InitState {
    pub config: Config,
    /// seed of the viewing-key generator
    pub prng_seed: Vec<u8>,
    /// the factory's list of active auctions
    pub active: HashSet<u32>,
    /// the table of token symbols and decimals
    pub symdecs: Vec<TokenSymDec>,
}

/// The seed that a factory derives from the entropy it is created with.
pub open spec fn seed_of(entropy: Seq<char>) -> Seq<u8> {
    sha256_of_text(base64_of_text(entropy))
}

/// Creates the factory: the caller becomes admin, nothing is active and no
/// token is known.
pub fn init(env: Env, msg: InitMsg) -> (r: InitState)
    ensures
        r.config == (Config {
            version: msg.auction_contract,
            symdecmap: r.config.symdecmap,
            index: 0,
            stopped: false,
            admin: env.sender,
        }),
        r.config.symdecmap@.len() == 0,
        r.prng_seed@ == seed_of(msg.entropy@),
        r.active@ == Set::<u32>::empty(),
        r.symdecs@.len() == 0,
{
    let encoded = encode_base64(msg.entropy.as_str());
    let hashed = create_hashed_password(encoded.as_str());
    let prng_seed = vstd::slice::slice_to_vec(hashed.as_slice());
    InitState {
        config: Config {
            version: msg.auction_contract,
            symdecmap: Vec::new(),
            index: 0,
            stopped: false,
            admin: env.sender,
        },
        prng_seed,
        active: HashSet::new(),
        symdecs: Vec::new(),
    }
}

/// What creating an auction hands back.
#[derive(Clone, Debug, PartialEq, Eq)]
pub struct CreateResponse {
    /// the label to lock until the new auction registers
    pub pending: String,
    /// the instantiation of the auction
    pub message: FactoryInstruction,
    pub answer: HandleAnswer,
}

/// The terms of a sale as its creator gives them.
#[derive(Clone, Debug, PartialEq, Eq)]
pub struct SaleTerms {
    /// label of the auction
    pub label: String,
    /// sale token
    pub sell_contract: ContractInfo,
    /// bid token
    pub bid_contract: ContractInfo,
    /// amount for sale
    pub sell_amount: u128,
    /// minimum bid
    pub minimum_bid: u128,
    /// time after which anyone may close the auction, if any
    pub ends_at: Option<u64>,
    /// optional description
    pub description: Option<String>,
}

/// The table entry of a token with this information.
pub open spec fn symdec_of(info: TokenInfo) -> TokenSymDec {
    TokenSymDec { symbol: info.symbol, decimals: info.decimals }
}

/// The table of symbols once `token` is in it: as it was where the token
/// was known, with the token appended where it was not.
pub open spec fn table_with(table: Seq<TokenSymDec>, known: Option<u16>, info: TokenInfo) -> Seq<
    TokenSymDec,
> {
    if known.is_some() {
        table
    } else {
        table.push(symdec_of(info))
    }
}

/// The address map once `token` is in it.
pub open spec fn map_with(
    entries: Seq<SymbolIndex>,
    known: Option<u16>,
    token: String,
    table: Seq<TokenSymDec>,
) -> Seq<SymbolIndex> {
    if known.is_some() {
        entries
    } else {
        entries.push(SymbolIndex { token, index: table.len() as u16 })
    }
}

/// The place of a token in the table: the known one, or the next free one.
pub open spec fn place_of(known: Option<u16>, table: Seq<TokenSymDec>) -> u16 {
    match known {
        Some(i) => i,
        None => table.len() as u16,
    }
}

/// What a request of `env.sender` to create an auction does.
///
/// A stopped factory creates nothing. Otherwise each of the two tokens that
/// is not yet known is appended to the table of symbols, sale token first,
/// and mapped to its place; a known token keeps its place. The auction gets
/// the next index, and the instantiation carries the two places, the
/// decimals, the current auction contract and the terms.
pub open spec fn create_post(
    before: Config,
    table_before: Seq<TokenSymDec>,
    env: Env,
    terms: SaleTerms,
    sell_info: TokenInfo,
    bid_info: TokenInfo,
    after: Config,
    table_after: Seq<TokenSymDec>,
    res: Result<CreateResponse, FactoryError>,
) -> bool {
    let sell_known = symbol_of(before.symdecmap@, terms.sell_contract.address@);
    let bid_known = symbol_of(before.symdecmap@, terms.bid_contract.address@);
    let middle = table_with(table_before, sell_known, sell_info);
    if before.stopped {
        after == before && table_after == table_before && res == Err::<
            CreateResponse,
            FactoryError,
        >(FactoryError::Stopped)
    } else {
        &&& table_after == table_with(middle, bid_known, bid_info)
        &&& after == (Config { symdecmap: after.symdecmap, index: (before.index + 1) as u32, ..before })
        &&& after.symdecmap@ == map_with(
            map_with(before.symdecmap@, sell_known, terms.sell_contract.address, table_before),
            bid_known,
            terms.bid_contract.address,
            middle,
        )
        &&& res matches Ok(r) && r.pending == terms.label && r.answer == (HandleAnswer::Status {
            status: ResponseStatus::Success,
            message: None,
        }) && r.message == (FactoryInstruction::Instantiate {
            label: terms.label,
            code_id: before.version.code_id,
            code_hash: before.version.code_hash,
            msg: AuctionInitMsg {
                factory: ContractInfo {
                    code_hash: env.contract_code_hash,
                    address: env.contract_address,
                },
                index: before.index,
                label: terms.label,
                seller: env.sender,
                sell_contract: terms.sell_contract,
                sell_symbol: place_of(sell_known, table_before),
                sell_decimals: sell_info.decimals,
                bid_contract: terms.bid_contract,
                bid_symbol: place_of(bid_known, middle),
                bid_decimals: bid_info.decimals,
                sell_amount: terms.sell_amount,
                minimum_bid: terms.minimum_bid,
                ends_at: terms.ends_at,
                description: terms.description,
            },
        })
    }
}

/// Gives `token` a place in the table of symbols unless it has one.
fn intern(
    config: &mut Config,
    symdecs: &mut Vec<TokenSymDec>,
    known: Option<u16>,
    token: &String,
    info: &TokenInfo,
) -> (place: u16)
    requires
        known.is_none() ==> old(symdecs)@.len() < 0x10000,
    ensures
        place == place_of(known, old(symdecs)@),
        final(symdecs)@ == table_with(old(symdecs)@, known, *info),
        *final(config) == (Config { symdecmap: final(config).symdecmap, ..*old(config) }),
        final(config).symdecmap@ == map_with(old(config).symdecmap@, known, *token, old(symdecs)@),
{
    match known {
        Some(i) => i,
        None => {
            let place = symdecs.len() as u16;
            config.symdecmap.push(SymbolIndex { token: token.clone(), index: place });
            symdecs.push(TokenSymDec { symbol: info.symbol.clone(), decimals: info.decimals });
            place
        },
    }
}

/// How many of the two tokens at `sell` and `bid` have no place in the
/// table of symbols yet.
pub open spec fn unknown_tokens(entries: Seq<SymbolIndex>, sell: Seq<char>, bid: Seq<char>) -> nat {
    (if symbol_of(entries, sell).is_none() {
        1nat
    } else {
        0nat
    }) + (if symbol_of(entries, bid).is_none() {
        1nat
    } else {
        0nat
    })
}

/// Whether a request to create an auction of these two tokens can be
/// served: a stopped factory serves it by rejecting it; otherwise the
/// table of symbols, whose places are 16 bits wide, has a place for each
/// of the two tokens that has none yet, and there is a next auction index.
pub open spec fn room_to_create(
    config: Config,
    table: Seq<TokenSymDec>,
    sell: Seq<char>,
    bid: Seq<char>,
) -> bool {
    config.stopped || (table.len() + unknown_tokens(config.symdecmap@, sell, bid) <= 0x10000
        && config.index < u32::MAX)
}

/// Tells whether a request to create an auction of the tokens at `sell`
/// and `bid` can be served.
pub fn has_room(config: &Config, symdecs: &Vec<TokenSymDec>, sell: &String, bid: &String) -> (room:
    bool)
    ensures
        room == room_to_create(*config, symdecs@, sell@, bid@),
{
    if config.stopped {
        return true;
    }
    let mut free: usize = 0;
    if symdecs.len() <= 0x10000 {
        free = 0x10000 - symdecs.len();
    } else {
        return false;
    }
    let mut unknown: usize = 0;
    if lookup_symbol(&config.symdecmap, sell).is_none() {
        unknown = unknown + 1;
    }
    if lookup_symbol(&config.symdecmap, bid).is_none() {
        unknown = unknown + 1;
    }
    unknown <= free && config.index < u32::MAX
}

/// Creates a new auction for `env.sender`, given what the two tokens say
/// about themselves.
pub fn try_create_auction(
    config: &mut Config,
    symdecs: &mut Vec<TokenSymDec>,
    env: Env,
    terms: SaleTerms,
    sell_info: &TokenInfo,
    bid_info: &TokenInfo,
) -> (res: Result<CreateResponse, FactoryError>)
    requires
        room_to_create(
            *old(config),
            old(symdecs)@,
            terms.sell_contract.address@,
            terms.bid_contract.address@,
        ),
    ensures
        create_post(
            *old(config),
            old(symdecs)@,
            env,
            terms,
            *sell_info,
            *bid_info,
            *final(config),
            final(symdecs)@,
            res,
        ),
{
    if config.stopped {
        return Err(FactoryError::Stopped);
    }
    let factory = ContractInfo {
        code_hash: env.contract_code_hash,
        address: env.contract_address,
    };
    let may_sell_index = lookup_symbol(&config.symdecmap, &terms.sell_contract.address);
    let may_bid_index = lookup_symbol(&config.symdecmap, &terms.bid_contract.address);
    let sell_index = intern(
        config,
        symdecs,
        may_sell_index,
        &terms.sell_contract.address,
        sell_info,
    );
    let bid_index = intern(config, symdecs, may_bid_index, &terms.bid_contract.address, bid_info);
    let initmsg = AuctionInitMsg {
        factory,
        index: config.index,
        label: terms.label.clone(),
        seller: env.sender,
        sell_contract: terms.sell_contract,
        sell_symbol: sell_index,
        sell_decimals: sell_info.decimals,
        bid_contract: terms.bid_contract,
        bid_symbol: bid_index,
        bid_decimals: bid_info.decimals,
        sell_amount: terms.sell_amount,
        minimum_bid: terms.minimum_bid,
        ends_at: terms.ends_at,
        description: terms.description,
    };
    config.index = config.index + 1;
    Ok(
        CreateResponse {
            pending: terms.label.clone(),
            message: FactoryInstruction::Instantiate {
                label: terms.label,
                code_id: config.version.code_id,
                code_hash: config.version.code_hash.clone(),
                msg: initmsg,
            },
            answer: HandleAnswer::Status { status: ResponseStatus::Success, message: None },
        },
    )
}

/// Why a callback was not acted upon. The caller still gets an answer, not
/// an error: the auction that sent the callback must not fail on it.
#[derive(Clone, Copy, Debug, PartialEq, Eq, Structural)]
pub enum AuthFailure {
    /// the caller is not an active auction that this factory created
    Unauthorized,
    /// the factory has no record of the auction
    MissingInfo,
    /// the factory has no list of active auctions
    MissingActiveList,
}

/// Whether a callback that claims to come from the auction `index` is
/// genuine: the factory lists `index` as active and holds for it the very
/// address that calls. Both are needed. `None` says it is genuine.
pub open spec fn auth_failure(
    active: Option<HashSet<u32>>,
    info: Option<StoreAuctionInfo>,
    auction: Seq<char>,
    index: u32,
) -> Option<AuthFailure> {
    match active {
        None => Some(AuthFailure::MissingActiveList),
        Some(set) => match info {
            None => Some(AuthFailure::MissingInfo),
            Some(i) => if i.address@ != auction || !set@.contains(index) {
                Some(AuthFailure::Unauthorized)
            } else {
                None
            },
        },
    }
}

/// Authenticates a callback of `auction` for the auction `index`, given the
/// list of active auctions and the record stored for `index`, as far as
/// they exist.
pub fn authenticate_auction(
    active: &Option<HashSet<u32>>,
    info: &Option<StoreAuctionInfo>,
    auction: &String,
    index: u32,
) -> (failure: Option<AuthFailure>)
    ensures
        failure == auth_failure(*active, *info, auction@, index),
{
    match active {
        None => Some(AuthFailure::MissingActiveList),
        Some(active_set) => match info {
            None => Some(AuthFailure::MissingInfo),
            Some(auction_info) => {
                if auction_info.address != *auction || !active_set.contains(&index) {
                    Some(AuthFailure::Unauthorized)
                } else {
                    None
                }
            },
        },
    }
}

impl AuthFailure {
    /// How many log entries tell of this failure.
    pub open spec fn notice_len(&self) -> nat {
        match *self {
            AuthFailure::Unauthorized => 1,
            _ => 2,
        }
    }

    /// The log entries that tell the caller of this failure.
    pub fn notice(&self) -> (log: Vec<LogAttribute>)
        ensures
            log@.len() == self.notice_len(),
            *self == AuthFailure::Unauthorized ==> log@[0].key@ == "Unauthorized"@ && log@[0].value@
                == "You are not an active auction this factory created"@,
            *self != AuthFailure::Unauthorized ==> log@[0].key@ == "Error"@ && log@[0].value@
                == "Unable to register action with the factory contract"@ && log@[1].key@
                == "Reason"@,
            *self == AuthFailure::MissingInfo ==> log@[1].value@ == "Missing auction information"@,
            *self == AuthFailure::MissingActiveList ==> log@[1].value@
                == "Missing active auction list"@,
    {
        let mut log: Vec<LogAttribute> = Vec::new();
        match self {
            AuthFailure::Unauthorized => {
                log.push(
                    LogAttribute {
                        key: String::from_str("Unauthorized"),
                        value: String::from_str(
                            "You are not an active auction this factory created",
                        ),
                    },
                );
            },
            AuthFailure::MissingInfo => {
                log.push(
                    LogAttribute {
                        key: String::from_str("Error"),
                        value: String::from_str(
                            "Unable to register action with the factory contract",
                        ),
                    },
                );
                log.push(
                    LogAttribute {
                        key: String::from_str("Reason"),
                        value: String::from_str("Missing auction information"),
                    },
                );
            },
            AuthFailure::MissingActiveList => {
                log.push(
                    LogAttribute {
                        key: String::from_str("Error"),
                        value: String::from_str(
                            "Unable to register action with the factory contract",
                        ),
                    },
                );
                log.push(
                    LogAttribute {
                        key: String::from_str("Reason"),
                        value: String::from_str("Missing active auction list"),
                    },
                );
            },
        }
        log
    }
}

/// What registering an auction hands back.
#[derive(Debug, PartialEq, Eq)]
pub struct RegisterResponse {
    /// the record to store for the auction, under its index
    pub info: StoreAuctionInfo,
    /// the seller's list of active auctions, to store
    pub seller_active: HashSet<u32>,
    /// the consignment: the sale amount goes from the seller to the auction
    pub message: FactoryInstruction,
    /// tells the address of the new auction
    pub log: LogAttribute,
}

/// What the registration of the auction at `auction` does. It is accepted
/// only under the label that is locked as pending; the lock is then used
/// up. The auction becomes active, also in its seller's list, and the
/// seller's sale tokens are sent to it.
pub open spec fn register_post(
    pending: Option<String>,
    active_before: HashSet<u32>,
    seller_list: Option<HashSet<u32>>,
    auction: String,
    seller: String,
    reg: RegisterAuctionInfo,
    sell_contract: ContractInfo,
    active_after: HashSet<u32>,
    pending_after: Option<String>,
    res: Result<RegisterResponse, FactoryError>,
) -> bool {
    match pending {
        None => active_after == active_before && pending_after == pending && res == Err::<
            RegisterResponse,
            FactoryError,
        >(FactoryError::NoPendingRegistration),
        Some(label) => if label@ != reg.label@ {
            active_after == active_before && pending_after == pending && res == Err::<
                RegisterResponse,
                FactoryError,
            >(FactoryError::LabelMismatch)
        } else {
            &&& pending_after.is_none()
            &&& active_after@ == active_before@.insert(reg.index)
            &&& res matches Ok(r) && r.info == (StoreAuctionInfo {
                address: auction,
                label: reg.label,
                sell_symbol: reg.sell_symbol,
                bid_symbol: reg.bid_symbol,
                sell_amount: reg.sell_amount,
                minimum_bid: reg.minimum_bid,
                ends_at: reg.ends_at,
            }) && r.seller_active@ == (match seller_list {
                Some(l) => l@,
                None => Set::<u32>::empty(),
            }).insert(reg.index) && r.message == (FactoryInstruction::SendFrom {
                token: sell_contract,
                owner: seller,
                recipient: auction,
                amount: reg.sell_amount,
            }) && r.log.key@ == "auction_address"@ && r.log.value == auction
        },
    }
}

/// Registers the calling auction. `pending` is the locked label, if any;
/// a registration that succeeds uses the lock up.
pub fn try_register_auction(
    pending: &mut Option<String>,
    active: &mut HashSet<u32>,
    seller_list: Option<HashSet<u32>>,
    auction: String,
    seller: String,
    reg: &RegisterAuctionInfo,
    sell_contract: ContractInfo,
) -> (res: Result<RegisterResponse, FactoryError>)
    ensures
        register_post(
            *old(pending),
            *old(active),
            seller_list,
            auction,
            seller,
            *reg,
            sell_contract,
            *final(active),
            *final(pending),
            res,
        ),
{
    if pending.is_none() {
        return Err(FactoryError::NoPendingRegistration);
    }
    if *pending.as_ref().unwrap() != reg.label {
        return Err(FactoryError::LabelMismatch);
    }
    *pending = None;
    let info = reg.to_store_auction_info(auction.clone());
    let _ = active.insert(reg.index);
    let mut my_active = match seller_list {
        Some(l) => l,
        None => HashSet::new(),
    };
    let _ = my_active.insert(reg.index);
    Ok(
        RegisterResponse {
            info,
            seller_active: my_active,
            message: FactoryInstruction::SendFrom {
                token: sell_contract,
                owner: seller,
                recipient: auction.clone(),
                amount: reg.sell_amount,
            },
            log: LogAttribute { key: String::from_str("auction_address"), value: auction },
        },
    )
}

/// A person's log of closed auctions with one more entry.
pub fn add_to_persons_closed(closed: Option<Vec<u32>>, index: u32) -> (log: Vec<u32>)
    ensures
        log@ == (match closed {
            Some(c) => c@,
            None => Seq::<u32>::empty(),
        }).push(index),
{
    let mut log = match closed {
        Some(c) => c,
        None => Vec::new(),
    };
    log.push(index);
    log
}

/// Whether `list` holds exactly `want`.
pub open spec fn holds_exactly(list: Option<HashSet<u32>>, want: Option<Set<u32>>) -> bool {
    match list {
        Some(l) => want == Some(l@),
        None => want.is_none(),
    }
}

/// A person's list of active auctions without `index`; a person without a
/// list stays without.
pub fn remove_from_persons_active(list: Option<HashSet<u32>>, index: u32) -> (out: Option<HashSet<u32>>)
    ensures
        holds_exactly(
            out,
            match list {
                Some(l) => Some(l@.remove(index)),
                None => None,
            },
        ),
{
    match list {
        Some(l) => {
            let mut l = l;
            let _ = l.remove(&index);
            Some(l)
        },
        None => None,
    }
}

/// The records that closing an auction reads.
#[derive(Debug, PartialEq, Eq)]
pub struct CloseRecords {
    /// the factory's list of active auctions, if stored
    pub active: Option<HashSet<u32>>,
    /// the record stored for the closing auction, if any
    pub info: Option<StoreAuctionInfo>,
    /// the length of the closed log
    pub closed_len: u32,
    /// the seller's list of active auctions
    pub seller_active: Option<HashSet<u32>>,
    /// the seller's log of closed auctions
    pub seller_closed: Option<Vec<u32>>,
    /// the winner's list of auctions it bids in; read where there is a winner
    pub winner_active: Option<HashSet<u32>>,
    /// the winner's log of auctions won; read where there is a winner
    pub winner_closed: Option<Vec<u32>>,
}

/// The records that closing an auction writes. The record of the closed
/// auction is deleted from the active store by the caller.
#[derive(Debug, PartialEq, Eq)]
pub struct ClosedRecords {
    /// the factory's list of active auctions
    pub active: HashSet<u32>,
    /// the entry to append to the closed log
    pub closed_info: StoreClosedAuctionInfo,
    /// the seller's list of active auctions, where it had one
    pub seller_active: Option<HashSet<u32>>,
    /// the seller's log of closed auctions
    pub seller_closed: Vec<u32>,
    /// the winner's list of auctions it bids in, where there is a winner
    pub winner_active: Option<HashSet<u32>>,
    /// the winner's log of auctions won, where there is a winner
    pub winner_closed: Option<Vec<u32>>,
}

/// The log `closed` with `index` appended.
pub open spec fn appended(closed: Option<Vec<u32>>, index: u32) -> Seq<u32> {
    (match closed {
        Some(c) => c@,
        None => Seq::<u32>::empty(),
    }).push(index)
}

/// The set that an optional list holds.
pub open spec fn set_of(list: Option<HashSet<u32>>) -> Set<u32> {
    match list {
        Some(l) => l@,
        None => Set::<u32>::empty(),
    }
}

/// What a callback of `auction` that closes the auction `index` does.
///
/// A callback that is not genuine changes nothing. A genuine one takes the
/// auction off the list of active auctions and off its seller's list, puts
/// its record at the end of the closed log, and notes the position in the
/// seller's log. Where there is a winner, the winner's list is reconciled
/// with the list of active auctions and the position noted in the log of
/// auctions won.
pub open spec fn close_post(
    records: CloseRecords,
    auction: Seq<char>,
    index: u32,
    has_winner: bool,
    winning_bid: Option<u128>,
    time: u64,
    res: Result<ClosedRecords, AuthFailure>,
) -> bool {
    match auth_failure(records.active, records.info, auction, index) {
        Some(failure) => res == Err::<ClosedRecords, AuthFailure>(failure),
        None => {
            let info = records.info.unwrap();
            let still_active = records.active.unwrap()@.remove(index);
            &&& res matches Ok(r) && r.active@ == still_active && r.closed_info
                == (StoreClosedAuctionInfo {
                address: info.address,
                label: info.label,
                sell_symbol: info.sell_symbol,
                bid_symbol: info.bid_symbol,
                sell_amount: info.sell_amount,
                winning_bid,
                timestamp: time,
            }) && holds_exactly(
                r.seller_active,
                match records.seller_active {
                    Some(l) => Some(l@.remove(index)),
                    None => None,
                },
            ) && r.seller_closed@ == appended(records.seller_closed, records.closed_len)
                && holds_exactly(
                r.winner_active,
                if has_winner {
                    Some(set_of(records.winner_active).intersect(still_active))
                } else {
                    None
                },
            ) && (match r.winner_closed {
                Some(log) => has_winner && log@ == appended(
                    records.winner_closed,
                    records.closed_len,
                ),
                None => !has_winner,
            })
        },
    }
}

/// Closes the calling auction in the factory's books.
pub fn try_close_auction(
    records: CloseRecords,
    auction: &String,
    index: u32,
    has_winner: bool,
    winning_bid: Option<u128>,
    time: u64,
) -> (res: Result<ClosedRecords, AuthFailure>)
    ensures
        close_post(records, auction@, index, has_winner, winning_bid, time, res),
{
    if let Some(failure) = authenticate_auction(&records.active, &records.info, auction, index) {
        return Err(failure);
    }
    let mut active = match records.active {
        Some(a) => a,
        None => HashSet::new(),
    };
    let _ = active.remove(&index);
    let closed_info = match &records.info {
        Some(i) => i.to_store_closed_auction_info(winning_bid, time),
        None => {
            return Err(AuthFailure::MissingInfo);
        },
    };
    let seller_active = remove_from_persons_active(records.seller_active, index);
    let seller_closed = add_to_persons_closed(records.seller_closed, records.closed_len);
    let mut winner_active: Option<HashSet<u32>> = None;
    let mut winner_closed: Option<Vec<u32>> = None;
    if has_winner {
        let (win_active, _) = filter_only_active(records.winner_active.as_ref(), &active);
        winner_active = Some(win_active);
        winner_closed = Some(add_to_persons_closed(records.winner_closed, records.closed_len));
    }
    Ok(
        ClosedRecords {
            active,
            closed_info,
            seller_active,
            seller_closed,
            winner_active,
            winner_closed,
        },
    )
}

/// What a callback of `auction` that changes the terms of the auction
/// `index` gives: where it is genuine, the stored record with the new
/// closing time and the new minimum bid, as far as they are given.
pub open spec fn change_info_post(
    active: Option<HashSet<u32>>,
    info: Option<StoreAuctionInfo>,
    auction: Seq<char>,
    index: u32,
    ends_at: Option<u64>,
    minimum_bid: Option<u128>,
    res: Result<StoreAuctionInfo, AuthFailure>,
) -> bool {
    match auth_failure(active, info, auction, index) {
        Some(failure) => res == Err::<StoreAuctionInfo, AuthFailure>(failure),
        None => res == Ok::<StoreAuctionInfo, AuthFailure>(
            StoreAuctionInfo {
                minimum_bid: match minimum_bid {
                    Some(m) => m,
                    None => info.unwrap().minimum_bid,
                },
                ends_at: if ends_at.is_some() {
                    ends_at
                } else {
                    info.unwrap().ends_at
                },
                ..info.unwrap()
            },
        ),
    }
}

/// Changes the closing time and/or minimum bid in the record of the calling
/// auction.
pub fn try_change_auction_info(
    active: &Option<HashSet<u32>>,
    info: Option<StoreAuctionInfo>,
    auction: &String,
    index: u32,
    ends_at: Option<u64>,
    minimum_bid: Option<u128>,
) -> (res: Result<StoreAuctionInfo, AuthFailure>)
    ensures
        change_info_post(*active, info, auction@, index, ends_at, minimum_bid, res),
{
    if let Some(failure) = authenticate_auction(active, &info, auction, index) {
        return Err(failure);
    }
    let mut auction_info = match info {
        Some(i) => i,
        None => {
            return Err(AuthFailure::MissingInfo);
        },
    };
    if let Some(min_bid) = minimum_bid {
        auction_info.minimum_bid = min_bid;
    }
    if ends_at.is_some() {
        auction_info.ends_at = ends_at;
    }
    Ok(auction_info)
}

/// What a callback of `auction` about a bidder of the auction `index`
/// gives: where it is genuine, the bidder's list reconciled with the list
/// of active auctions, with `index` added (`joins`) or taken out.
pub open spec fn bidder_post(
    active: Option<HashSet<u32>>,
    info: Option<StoreAuctionInfo>,
    auction: Seq<char>,
    index: u32,
    bidder_list: Option<HashSet<u32>>,
    joins: bool,
    res: Result<HashSet<u32>, AuthFailure>,
) -> bool {
    match auth_failure(active, info, auction, index) {
        Some(failure) => res == Err::<HashSet<u32>, AuthFailure>(failure),
        None => {
            let reconciled = set_of(bidder_list).intersect(active.unwrap()@);
            res matches Ok(list) && list@ == (if joins {
                reconciled.insert(index)
            } else {
                reconciled.remove(index)
            })
        },
    }
}

/// Notes that the calling auction has a new bidder.
pub fn try_reg_bidder(
    active: &Option<HashSet<u32>>,
    info: &Option<StoreAuctionInfo>,
    auction: &String,
    index: u32,
    bidder_list: Option<HashSet<u32>>,
) -> (res: Result<HashSet<u32>, AuthFailure>)
    ensures
        bidder_post(*active, *info, auction@, index, bidder_list, true, res),
{
    if let Some(failure) = authenticate_auction(active, info, auction, index) {
        return Err(failure);
    }
    match active {
        Some(active_set) => {
            let (mut my_active, _) = filter_only_active(bidder_list.as_ref(), active_set);
            let _ = my_active.insert(index);
            Ok(my_active)
        },
        None => Err(AuthFailure::MissingActiveList),
    }
}

/// Notes that a bidder of the calling auction retracted its bid.
pub fn try_remove_bidder(
    active: &Option<HashSet<u32>>,
    info: &Option<StoreAuctionInfo>,
    auction: &String,
    index: u32,
    bidder_list: Option<HashSet<u32>>,
) -> (res: Result<HashSet<u32>, AuthFailure>)
    ensures
        bidder_post(*active, *info, auction@, index, bidder_list, false, res),
{
    if let Some(failure) = authenticate_auction(active, info, auction, index) {
        return Err(failure);
    }
    match active {
        Some(active_set) => {
            let (mut my_active, _) = filter_only_active(bidder_list.as_ref(), active_set);
            let _ = my_active.remove(&index);
            Ok(my_active)
        },
        None => Err(AuthFailure::MissingActiveList),
    }
}

/// Lets the admin set the auction contract that new auctions run.
pub fn try_new_contract(config: &mut Config, sender: &String, auction_contract: AuctionContractInfo) -> (res:
    Result<HandleAnswer, FactoryError>)
    ensures
        sender@ != old(config).admin@ ==> *final(config) == *old(config) && res == Err::<
            HandleAnswer,
            FactoryError,
        >(FactoryError::NotAdmin),
        sender@ == old(config).admin@ ==> *final(config) == (Config {
            version: auction_contract,
            ..*old(config)
        }) && res == Ok::<HandleAnswer, FactoryError>(
            HandleAnswer::Status { status: ResponseStatus::Success, message: None },
        ),
{
    if config.admin != *sender {
        return Err(FactoryError::NotAdmin);
    }
    config.version = auction_contract;
    Ok(HandleAnswer::Status { status: ResponseStatus::Success, message: None })
}

/// Lets the admin stop or resume the creation of auctions.
pub fn try_set_status(config: &mut Config, sender: &String, stop: bool) -> (res: Result<
    HandleAnswer,
    FactoryError,
>)
    ensures
        sender@ != old(config).admin@ ==> *final(config) == *old(config) && res == Err::<
            HandleAnswer,
            FactoryError,
        >(FactoryError::NotAdmin),
        sender@ == old(config).admin@ ==> *final(config) == (Config {
            stopped: stop,
            ..*old(config)
        }) && res == Ok::<HandleAnswer, FactoryError>(
            HandleAnswer::Status { status: ResponseStatus::Success, message: None },
        ),
{
    if config.admin != *sender {
        return Err(FactoryError::NotAdmin);
    }
    config.stopped = stop;
    Ok(HandleAnswer::Status { status: ResponseStatus::Success, message: None })
}

/// What setting a viewing key hands back.
#[derive(Debug, PartialEq, Eq)]
pub struct KeyResponse {
    /// the hash to store for the caller
    pub hashed: [u8; 32],
    /// the caller's reconciled list of auctions it bids in, where the list
    /// shrank and is to be stored
    pub pruned: Option<HashSet<u32>>,
    pub answer: HandleAnswer,
}

/// Whether `r` is what setting the key `key` hands back, given the list of
/// active auctions and the caller's list of auctions it bids in.
pub open spec fn key_post(
    key: Seq<char>,
    active: Option<HashSet<u32>>,
    bidder_list: Option<HashSet<u32>>,
    r: KeyResponse,
) -> bool {
    &&& r.hashed@ == sha256_of_text(key)
    &&& (match r.answer {
        HandleAnswer::ViewingKey { key: shown } => shown@ == key,
        _ => false,
    })
    &&& holds_exactly(
        r.pruned,
        if active.is_some() && !set_of(bidder_list).subset_of(active.unwrap()@) {
            Some(set_of(bidder_list).intersect(active.unwrap()@))
        } else {
            None
        },
    )
}

/// Sets the caller's viewing key, and reconciles the caller's list of
/// auctions it bids in.
pub fn try_set_key(key: &str, active: &Option<HashSet<u32>>, bidder_list: Option<HashSet<u32>>) -> (r:
    KeyResponse)
    ensures
        key_post(key@, *active, bidder_list, r),
{
    let vk = ViewingKey(String::from_str(key));
    let hashed = vk.to_hashed();
    let mut pruned: Option<HashSet<u32>> = None;
    if let Some(active_set) = active {
        let (my_active, update) = filter_only_active(bidder_list.as_ref(), active_set);
        if update {
            pruned = Some(my_active);
        }
    }
    KeyResponse { hashed, pruned, answer: HandleAnswer::ViewingKey { key: vk.text() } }
}

/// Sets a new viewing key for the caller, and reconciles the
/// caller's list of auctions it bids in.
pub fn try_create_key(key: &ViewingKey, active: &Option<HashSet<u32>>, bidder_list: Option<HashSet<u32>>) -> (r:
    KeyResponse)
    ensures
        key_post(key.0@, *active, bidder_list, r),
{
    try_set_key(key.0.as_str(), active, bidder_list)
}

/// What the factory reads to handle one message: the records that the
/// message touches, as far as they are stored, and what the ledger tells.
#[derive(Debug, PartialEq, Eq)]
pub struct Records {
    pub config: Config,
    /// the table of token symbols
    pub symdecs: Vec<TokenSymDec>,
    /// the label locked for the auction that is being created
    pub pending: Option<String>,
    /// the factory's list of active auctions
    pub active: Option<HashSet<u32>>,
    /// the record of the auction whose index the message names
    pub info: Option<StoreAuctionInfo>,
    /// the length of the closed log
    pub closed_len: u32,
    /// the list of active auctions of the seller that the message names
    pub seller_active: Option<HashSet<u32>>,
    /// the log of closed auctions of the seller that the message names
    pub seller_closed: Option<Vec<u32>>,
    /// the list of auctions in which the bidder bids that the message names,
    /// or its sender where it is about a viewing key
    pub bidder_active: Option<HashSet<u32>>,
    /// the log of auctions won of the bidder that the message names
    pub winner_closed: Option<Vec<u32>>,
    /// what the sale token of a new auction says about itself
    pub sell_info: Option<TokenInfo>,
    /// what the bid token of a new auction says about itself
    pub bid_info: Option<TokenInfo>,
    /// the key drawn for a sender who asks for a new viewing key
    pub new_key: Option<ViewingKey>,
}

/// What handling a message gives: the records to store and the answer.
#[allow(inconsistent_fields)]
#[derive(Debug, PartialEq, Eq)]
pub enum Outcome {
    /// an auction is being created
    Created { config: Config, symdecs: Vec<TokenSymDec>, response: CreateResponse },
    /// an auction registered; `pending` is the lock on its label afterwards
    Registered { active: HashSet<u32>, pending: Option<String>, response: RegisterResponse },
    /// an auction closed
    Closed { records: ClosedRecords },
    /// the terms of an auction changed
    InfoChanged { info: StoreAuctionInfo },
    /// the list of a bidder changed
    BidderList { list: HashSet<u32> },
    /// a viewing key was set
    Key { response: KeyResponse },
    /// the configuration changed
    Configured { config: Config, answer: HandleAnswer },
    /// a callback was not acted upon
    Refused { failure: AuthFailure },
}

/// Whether `records` hold what handling `msg` reads: to create an
/// auction, unless the factory is stopped, both tokens have
/// told about themselves and the request can be served; an auction
/// registers only where there is a list of active auctions; and a new key
/// has been drawn for who asks for one.
pub open spec fn request_ready(records: Records, msg: HandleMsg) -> bool {
    &&& match msg {
        HandleMsg::CreateAuction {
            label,
            sell_contract,
            bid_contract,
            sell_amount,
            minimum_bid,
            ends_at,
            description,
        } => records.config.stopped || (records.sell_info.is_some()
            && records.bid_info.is_some() && room_to_create(
            records.config,
            records.symdecs@,
            sell_contract.address@,
            bid_contract.address@,
        )),
        _ => true,
    }
    &&& msg is RegisterAuction ==> records.active.is_some()
    &&& msg is CreateViewingKey ==> records.new_key.is_some()
}

/// The records that closing an auction reads, among `records`.
pub open spec fn close_records(records: Records) -> CloseRecords {
    CloseRecords {
        active: records.active,
        info: records.info,
        closed_len: records.closed_len,
        seller_active: records.seller_active,
        seller_closed: records.seller_closed,
        winner_active: records.bidder_active,
        winner_closed: records.winner_closed,
    }
}

/// What handling `msg` from `env.sender` gives on `records`: what the
/// handler of that message gives.
pub open spec fn handle_post(
    records: Records,
    env: Env,
    msg: HandleMsg,
    res: Result<Outcome, FactoryError>,
) -> bool {
    match msg {
        HandleMsg::CreateAuction {
            label,
            sell_contract,
            bid_contract,
            sell_amount,
            minimum_bid,
            ends_at,
            description,
        } => {
            let terms = SaleTerms {
                label,
                sell_contract,
                bid_contract,
                sell_amount,
                minimum_bid,
                ends_at,
                description,
            };
            match res {
                Ok(Outcome::Created { config, symdecs, response }) => create_post(
                    records.config,
                    records.symdecs@,
                    env,
                    terms,
                    records.sell_info.unwrap(),
                    records.bid_info.unwrap(),
                    config,
                    symdecs@,
                    Ok(response),
                ),
                Err(e) => create_post(
                    records.config,
                    records.symdecs@,
                    env,
                    terms,
                    records.sell_info.unwrap(),
                    records.bid_info.unwrap(),
                    records.config,
                    records.symdecs@,
                    Err(e),
                ),
                _ => false,
            }
        },
        HandleMsg::RegisterAuction { seller, auction, sell_contract } => match res {
            Ok(Outcome::Registered { active, pending, response }) => register_post(
                records.pending,
                records.active.unwrap(),
                records.seller_active,
                env.sender,
                seller,
                auction,
                sell_contract,
                active,
                pending,
                Ok(response),
            ),
            Err(e) => register_post(
                records.pending,
                records.active.unwrap(),
                records.seller_active,
                env.sender,
                seller,
                auction,
                sell_contract,
                records.active.unwrap(),
                records.pending,
                Err(e),
            ),
            _ => false,
        },
        HandleMsg::CloseAuction { index, seller, bidder, winning_bid } => match res {
            Ok(Outcome::Closed { records: closed }) => close_post(
                close_records(records),
                env.sender@,
                index,
                bidder.is_some(),
                winning_bid,
                env.block_time,
                Ok(closed),
            ),
            Ok(Outcome::Refused { failure }) => close_post(
                close_records(records),
                env.sender@,
                index,
                bidder.is_some(),
                winning_bid,
                env.block_time,
                Err(failure),
            ),
            _ => false,
        },
        HandleMsg::RegisterBidder { index, bidder } => match res {
            Ok(Outcome::BidderList { list }) => bidder_post(
                records.active,
                records.info,
                env.sender@,
                index,
                records.bidder_active,
                true,
                Ok(list),
            ),
            Ok(Outcome::Refused { failure }) => bidder_post(
                records.active,
                records.info,
                env.sender@,
                index,
                records.bidder_active,
                true,
                Err(failure),
            ),
            _ => false,
        },
        HandleMsg::RemoveBidder { index, bidder } => match res {
            Ok(Outcome::BidderList { list }) => bidder_post(
                records.active,
                records.info,
                env.sender@,
                index,
                records.bidder_active,
                false,
                Ok(list),
            ),
            Ok(Outcome::Refused { failure }) => bidder_post(
                records.active,
                records.info,
                env.sender@,
                index,
                records.bidder_active,
                false,
                Err(failure),
            ),
            _ => false,
        },
        HandleMsg::ChangeAuctionInfo { index, ends_at, minimum_bid } => match res {
            Ok(Outcome::InfoChanged { info }) => change_info_post(
                records.active,
                records.info,
                env.sender@,
                index,
                ends_at,
                minimum_bid,
                Ok(info),
            ),
            Ok(Outcome::Refused { failure }) => change_info_post(
                records.active,
                records.info,
                env.sender@,
                index,
                ends_at,
                minimum_bid,
                Err(failure),
            ),
            _ => false,
        },
        HandleMsg::CreateViewingKey { entropy } => res matches Ok(Outcome::Key { response })
            && key_post(records.new_key.unwrap().0@, records.active, records.bidder_active, response),
        HandleMsg::SetViewingKey { key, padding } => res matches Ok(Outcome::Key { response })
            && key_post(key@, records.active, records.bidder_active, response),
        HandleMsg::NewAuctionContract { auction_contract } => admin_post(
            records.config,
            env.sender@,
            Config { version: auction_contract, ..records.config },
            res,
        ),
        HandleMsg::SetStatus { stop } => admin_post(
            records.config,
            env.sender@,
            Config { stopped: stop, ..records.config },
            res,
        ),
    }
}

/// What an admin command of `sender` gives: the wanted configuration for
/// the admin, a rejection for anyone else.
pub open spec fn admin_post(
    before: Config,
    sender: Seq<char>,
    wanted: Config,
    res: Result<Outcome, FactoryError>,
) -> bool {
    if sender != before.admin@ {
        res == Err::<Outcome, FactoryError>(FactoryError::NotAdmin)
    } else {
        res == Ok::<Outcome, FactoryError>(
            Outcome::Configured {
                config: wanted,
                answer: HandleAnswer::Status { status: ResponseStatus::Success, message: None },
            },
        )
    }
}

/// Handles one message to the factory on the records that it touches.
pub fn handle(records: Records, env: Env, msg: HandleMsg) -> (res: Result<Outcome, FactoryError>)
    requires
        request_ready(records, msg),
    ensures
        handle_post(records, env, msg, res),
{
    match msg {
        HandleMsg::CreateAuction {
            label,
            sell_contract,
            bid_contract,
            sell_amount,
            minimum_bid,
            ends_at,
            description,
        } => {
            let terms = SaleTerms {
                label,
                sell_contract,
                bid_contract,
                sell_amount,
                minimum_bid,
                ends_at,
                description,
            };
            if records.config.stopped {
                return Err(FactoryError::Stopped);
            }
            let mut config = records.config;
            let mut symdecs = records.symdecs;
            let sell_info = records.sell_info.unwrap();
            let bid_info = records.bid_info.unwrap();
            match try_create_auction(&mut config, &mut symdecs, env, terms, &sell_info, &bid_info) {
                Ok(response) => Ok(Outcome::Created { config, symdecs, response }),
                Err(e) => Err(e),
            }
        },
        HandleMsg::RegisterAuction { seller, auction, sell_contract } => {
            let mut active = records.active.unwrap();
            let mut pending = records.pending;
            match try_register_auction(
                &mut pending,
                &mut active,
                records.seller_active,
                env.sender,
                seller,
                &auction,
                sell_contract,
            ) {
                Ok(response) => Ok(Outcome::Registered { active, pending, response }),
                Err(e) => Err(e),
            }
        },
        HandleMsg::CloseAuction { index, seller, bidder, winning_bid } => {
            let reads = CloseRecords {
                active: records.active,
                info: records.info,
                closed_len: records.closed_len,
                seller_active: records.seller_active,
                seller_closed: records.seller_closed,
                winner_active: records.bidder_active,
                winner_closed: records.winner_closed,
            };
            match try_close_auction(
                reads,
                &env.sender,
                index,
                bidder.is_some(),
                winning_bid,
                env.block_time,
            ) {
                Ok(closed) => Ok(Outcome::Closed { records: closed }),
                Err(failure) => Ok(Outcome::Refused { failure }),
            }
        },
        HandleMsg::RegisterBidder { index, bidder } => {
            match try_reg_bidder(
                &records.active,
                &records.info,
                &env.sender,
                index,
                records.bidder_active,
            ) {
                Ok(list) => Ok(Outcome::BidderList { list }),
                Err(failure) => Ok(Outcome::Refused { failure }),
            }
        },
        HandleMsg::RemoveBidder { index, bidder } => {
            match try_remove_bidder(
                &records.active,
                &records.info,
                &env.sender,
                index,
                records.bidder_active,
            ) {
                Ok(list) => Ok(Outcome::BidderList { list }),
                Err(failure) => Ok(Outcome::Refused { failure }),
            }
        },
        HandleMsg::ChangeAuctionInfo { index, ends_at, minimum_bid } => {
            match try_change_auction_info(
                &records.active,
                records.info,
                &env.sender,
                index,
                ends_at,
                minimum_bid,
            ) {
                Ok(info) => Ok(Outcome::InfoChanged { info }),
                Err(failure) => Ok(Outcome::Refused { failure }),
            }
        },
        HandleMsg::CreateViewingKey { entropy } => {
            let key = records.new_key.unwrap();
            Ok(
                Outcome::Key {
                    response: try_create_key(&key, &records.active, records.bidder_active),
                },
            )
        },
        HandleMsg::SetViewingKey { key, padding } => Ok(
            Outcome::Key {
                response: try_set_key(key.as_str(), &records.active, records.bidder_active),
            },
        ),
        HandleMsg::NewAuctionContract { auction_contract } => {
            let mut config = records.config;
            match try_new_contract(&mut config, &env.sender, auction_contract) {
                Ok(answer) => Ok(Outcome::Configured { config, answer }),
                Err(e) => Err(e),
            }
        },
        HandleMsg::SetStatus { stop } => {
            let mut config = records.config;
            match try_set_status(&mut config, &env.sender, stop) {
                Ok(answer) => Ok(Outcome::Configured { config, answer }),
                Err(e) => Err(e),
            }
        },
    }
}

} // verus!
