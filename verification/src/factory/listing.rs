//! Listings of active and closed auctions.

use crate::factory::msg::AuctionInfo;
use crate::factory::msg::ClosedAuctionInfo;
use crate::factory::msg::FilterTypes;
use crate::factory::msg::MyActiveLists;
use crate::factory::msg::MyClosedLists;
use crate::factory::msg::QueryAnswer;
use crate::factory::msg::QueryMsg;
use crate::factory::msg::StoreAuctionInfo;
use crate::factory::msg::StoreClosedAuctionInfo;
use crate::factory::state::TokenSymDec;
use crate::viewing_key::is_key_valid;
use crate::viewing_key::sha256_of_text;
use vstd::prelude::*;

verus! {

/// The label of a token pair: the symbol of the sale token, a hyphen, the
/// symbol of the bid token.
pub open spec fn pair_label(sell: TokenSymDec, bid: TokenSymDec) -> Seq<char> {
    sell.symbol@ + "-"@ + bid.symbol@
}

/// Builds the label of a token pair.
pub fn pair_text(sell: &TokenSymDec, bid: &TokenSymDec) -> (pair: String)
    ensures
        pair@ == pair_label(*sell, *bid),
{
    let mut pair = sell.symbol.clone();
    pair.append("-");
    pair.append(bid.symbol.as_str());
    pair
}

/// Whether the table of symbols knows both tokens of the pair.
pub open spec fn symbols_known(sell_symbol: u16, bid_symbol: u16, symdecs: Seq<TokenSymDec>) -> bool {
    sell_symbol < symdecs.len() && bid_symbol < symdecs.len()
}

/// Whether `shown` displays the active auction `info`.
pub open spec fn shows_active(info: StoreAuctionInfo, symdecs: Seq<TokenSymDec>, shown: AuctionInfo) -> bool {
    &&& symbols_known(info.sell_symbol, info.bid_symbol, symdecs)
    &&& shown.address == info.address
    &&& shown.label == info.label
    &&& shown.pair@ == pair_label(
        symdecs[info.sell_symbol as int],
        symdecs[info.bid_symbol as int],
    )
    &&& shown.sell_amount == info.sell_amount
    &&& shown.sell_decimals == symdecs[info.sell_symbol as int].decimals
    &&& shown.minimum_bid == info.minimum_bid
    &&& shown.bid_decimals == symdecs[info.bid_symbol as int].decimals
    &&& shown.ends_at == info.ends_at
}

/// Displays an active auction; `None` where the table of symbols does not
/// know one of its tokens.
pub fn display_active(info: &StoreAuctionInfo, symdecs: &Vec<TokenSymDec>) -> (shown: Option<
    AuctionInfo,
>)
    ensures
        match shown {
            Some(a) => shows_active(*info, symdecs@, a),
            None => !symbols_known(info.sell_symbol, info.bid_symbol, symdecs@),
        },
{
    let sell = info.sell_symbol as usize;
    let bid = info.bid_symbol as usize;
    if sell < symdecs.len() && bid < symdecs.len() {
        Some(
            AuctionInfo {
                address: info.address.clone(),
                label: info.label.clone(),
                pair: pair_text(&symdecs[sell], &symdecs[bid]),
                sell_amount: info.sell_amount,
                sell_decimals: symdecs[sell].decimals,
                minimum_bid: info.minimum_bid,
                bid_decimals: symdecs[bid].decimals,
                ends_at: info.ends_at,
            },
        )
    } else {
        None
    }
}

/// Whether `shown` displays the closed auction `info` under `index`.
pub open spec fn shows_closed(
    info: StoreClosedAuctionInfo,
    index: Option<u32>,
    symdecs: Seq<TokenSymDec>,
    shown: ClosedAuctionInfo,
) -> bool {
    &&& symbols_known(info.sell_symbol, info.bid_symbol, symdecs)
    &&& shown.index == index
    &&& shown.address == info.address
    &&& shown.label == info.label
    &&& shown.pair@ == pair_label(
        symdecs[info.sell_symbol as int],
        symdecs[info.bid_symbol as int],
    )
    &&& shown.sell_amount == info.sell_amount
    &&& shown.sell_decimals == symdecs[info.sell_symbol as int].decimals
    &&& shown.winning_bid == info.winning_bid
    &&& shown.bid_decimals == (if info.winning_bid.is_some() {
        Some(symdecs[info.bid_symbol as int].decimals)
    } else {
        None
    })
    &&& shown.timestamp == info.timestamp
}

/// Displays a closed auction; `None` where the table of symbols does not
/// know one of its tokens.
pub fn display_closed(
    info: &StoreClosedAuctionInfo,
    index: Option<u32>,
    symdecs: &Vec<TokenSymDec>,
) -> (shown: Option<ClosedAuctionInfo>)
    ensures
        match shown {
            Some(c) => shows_closed(*info, index, symdecs@, c),
            None => !symbols_known(info.sell_symbol, info.bid_symbol, symdecs@),
        },
{
    let sell = info.sell_symbol as usize;
    let bid = info.bid_symbol as usize;
    if sell < symdecs.len() && bid < symdecs.len() {
        Some(
            ClosedAuctionInfo {
                index,
                address: info.address.clone(),
                label: info.label.clone(),
                pair: pair_text(&symdecs[sell], &symdecs[bid]),
                sell_amount: info.sell_amount,
                sell_decimals: symdecs[sell].decimals,
                winning_bid: info.winning_bid,
                bid_decimals: if info.winning_bid.is_some() {
                    Some(symdecs[bid].decimals)
                } else {
                    None
                },
                timestamp: info.timestamp,
            },
        )
    } else {
        None
    }
}

/// Of the given positions in the closed log, in their order, those that the
/// log holds and whose tokens the table of symbols knows.
pub open spec fn listable(
    positions: Seq<u32>,
    log: Seq<StoreClosedAuctionInfo>,
    symdecs: Seq<TokenSymDec>,
) -> Seq<u32>
    decreases positions.len(),
{
    if positions.len() == 0 {
        Seq::empty()
    } else {
        let front = listable(positions.drop_last(), log, symdecs);
        let p = positions.last();
        if p < log.len() && symbols_known(log[p as int].sell_symbol, log[p as int].bid_symbol, symdecs) {
            front.push(p)
        } else {
            front
        }
    }
}

/// Whether `shown` displays the entries of the closed log at `positions`,
/// one for one; with their positions where `numbered`.
pub open spec fn shows_feed(
    positions: Seq<u32>,
    log: Seq<StoreClosedAuctionInfo>,
    symdecs: Seq<TokenSymDec>,
    numbered: bool,
    shown: Seq<ClosedAuctionInfo>,
) -> bool {
    &&& shown.len() == positions.len()
    &&& forall|k: int|
        0 <= k < positions.len() ==> (#[trigger] positions[k]) < log.len() && shows_closed(
            log[positions[k] as int],
            if numbered {
                Some(positions[k])
            } else {
                None
            },
            symdecs,
            shown[k],
        )
}

/// A person's log of closed auctions, latest first.
pub open spec fn newest_first(list: Seq<u32>) -> Seq<u32> {
    Seq::new(list.len(), |k: int| list[list.len() - 1 - k])
}

/// The positions from `upper - 1` down to `lower`.
pub open spec fn page_positions(lower: u32, upper: u32) -> Seq<u32> {
    Seq::new((upper - lower) as nat, |k: int| (upper - 1 - k) as u32)
}

/// Lists the closed auctions of a person, latest first, from the person's
/// log of positions in the closed log; `None` where there is none to show.
pub fn display_addr_closed(
    list: &Option<Vec<u32>>,
    log: &Vec<StoreClosedAuctionInfo>,
    symdecs: &Vec<TokenSymDec>,
) -> (shown: Option<Vec<ClosedAuctionInfo>>)
    ensures
        shows_closed_of(*list, log@, symdecs@, shown),
{
    let l = match list {
        Some(l) => l,
        None => {
            return None;
        },
    };
    let mut feed: Vec<ClosedAuctionInfo> = Vec::new();
    let n = l.len();
    let mut k: usize = 0;
    while k < n
        invariant
            k <= n,
            n == l@.len(),
            shows_feed(
                listable(newest_first(l@).take(k as int), log@, symdecs@),
                log@,
                symdecs@,
                false,
                feed@,
            ),
        decreases n - k,
    {
        let p = l[n - 1 - k];
        proof {
            assert(newest_first(l@).take(k + 1).drop_last() =~= newest_first(l@).take(k as int));
            assert(newest_first(l@).take(k + 1).last() == p);
        }
        if (p as usize) < log.len() {
            if let Some(c) = display_closed(&log[p as usize], None, symdecs) {
                feed.push(c);
            }
        }
        k += 1;
    }
    proof {
        assert(newest_first(l@).take(k as int) =~= newest_first(l@));
    }
    if feed.len() == 0 {
        None
    } else {
        Some(feed)
    }
}

/// How many entries a page of the closed log holds where no size is asked
/// for.
pub const DEFAULT_PAGE_SIZE: u32 = 200;

/// The most entries that a page of the closed log holds, whatever size is
/// asked for: five default pages.
pub const MAX_PAGE_SIZE: u32 = 1000;

/// The size of a page: the size asked for, or the default where none is,
/// and the maximum where more is asked for.
pub open spec fn page_limit(page_size: Option<u32>) -> u32 {
    let asked = match page_size {
        Some(q) => q,
        None => DEFAULT_PAGE_SIZE,
    };
    if asked > MAX_PAGE_SIZE {
        MAX_PAGE_SIZE
    } else {
        asked
    }
}

/// The bounds of a page of a closed log of `len` entries: the page ends just
/// below `before`, or at the end of the log where `before` is not given or
/// lies beyond it, and holds as many entries as the size of a page, or as
/// many as there are below its end. The first is the lowest position of the
/// page, the second the position just above its highest.
pub open spec fn page_bounds(len: u32, before: Option<u32>, page_size: Option<u32>) -> (u32, u32) {
    let upper = match before {
        Some(b) => if b > len {
            len
        } else {
            b
        },
        None => len,
    };
    let size = page_limit(page_size);
    let lower = if size > upper {
        0
    } else {
        (upper - size) as u32
    };
    (lower, upper)
}

/// Computes the bounds of a page of the closed log.
pub fn closed_page(len: u32, before: Option<u32>, page_size: Option<u32>) -> (bounds: (u32, u32))
    ensures
        bounds == page_bounds(len, before, page_size),
        bounds.0 <= bounds.1 <= len,
        bounds.1 - bounds.0 <= MAX_PAGE_SIZE,
{
    let mut pos: u32 = match before {
        Some(b) => b,
        None => len,
    };
    if pos > len {
        pos = len;
    }
    let mut quant: u32 = match page_size {
        Some(q) => q,
        None => DEFAULT_PAGE_SIZE,
    };
    if quant > MAX_PAGE_SIZE {
        quant = MAX_PAGE_SIZE;
    }
    let lower: u32 = if quant > pos {
        0
    } else {
        pos - quant
    };
    (lower, pos)
}

/// Of some positions no more are listable than there are.
pub proof fn lemma_listable_bounded(
    positions: Seq<u32>,
    log: Seq<StoreClosedAuctionInfo>,
    symdecs: Seq<TokenSymDec>,
)
    ensures
        listable(positions, log, symdecs).len() <= positions.len(),
    decreases positions.len(),
{
    if positions.len() > 0 {
        lemma_listable_bounded(positions.drop_last(), log, symdecs);
    }
}

/// A page of the closed log never shows more entries than the maximum page
/// size, whatever the length of the log, the cursor and the size asked for.
pub proof fn law_page_is_bounded(
    len: u32,
    before: Option<u32>,
    page_size: Option<u32>,
    log: Seq<StoreClosedAuctionInfo>,
    symdecs: Seq<TokenSymDec>,
    shown: Option<Vec<ClosedAuctionInfo>>,
)
    requires
        shows_page(page_bounds(len, before, page_size), log, symdecs, shown),
    ensures
        shown matches Some(feed) ==> feed@.len() <= MAX_PAGE_SIZE && feed@.len() <= page_limit(
            page_size,
        ),
{
    let bounds = page_bounds(len, before, page_size);
    lemma_listable_bounded(page_positions(bounds.0, bounds.1), log, symdecs);
}

/// Whether `shown` lists the page of the closed log with these bounds,
/// latest first, each entry with its position; `None` where there is none
/// to show.
pub open spec fn shows_page(
    bounds: (u32, u32),
    log: Seq<StoreClosedAuctionInfo>,
    symdecs: Seq<TokenSymDec>,
    shown: Option<Vec<ClosedAuctionInfo>>,
) -> bool {
    let positions = listable(page_positions(bounds.0, bounds.1), log, symdecs);
    match shown {
        Some(feed) => feed@.len() > 0 && shows_feed(positions, log, symdecs, true, feed@),
        None => positions.len() == 0,
    }
}

/// Lists a page of the closed log, latest first, each entry with its
/// position; `None` where there is none to show.
pub fn list_closed(
    log: &Vec<StoreClosedAuctionInfo>,
    symdecs: &Vec<TokenSymDec>,
    before: Option<u32>,
    page_size: Option<u32>,
) -> (shown: Option<Vec<ClosedAuctionInfo>>)
    requires
        log@.len() <= u32::MAX,
    ensures
        shows_page(page_bounds(log@.len() as u32, before, page_size), log@, symdecs@, shown),
        shown matches Some(feed) ==> feed@.len() <= page_limit(page_size),
{
    proof {
        let bounds = page_bounds(log@.len() as u32, before, page_size);
        lemma_listable_bounded(page_positions(bounds.0, bounds.1), log@, symdecs@);
    }
    let (lower, upper) = closed_page(log.len() as u32, before, page_size);
    let mut feed: Vec<ClosedAuctionInfo> = Vec::new();
    let mut p: u32 = upper;
    while p > lower
        invariant
            lower <= p <= upper,
            upper <= log@.len(),
            shows_feed(
                listable(page_positions(lower, upper).take(upper - p), log@, symdecs@),
                log@,
                symdecs@,
                true,
                feed@,
            ),
        decreases p,
    {
        proof {
            assert(page_positions(lower, upper).take(upper - p + 1).drop_last()
                =~= page_positions(lower, upper).take(upper - p));
            assert(page_positions(lower, upper).take(upper - p + 1).last() == (p - 1) as u32);
        }
        p -= 1;
        if let Some(c) = display_closed(&log[p as usize], Some(p), symdecs) {
            feed.push(c);
        }
    }
    proof {
        assert(page_positions(lower, upper).take(upper - p) =~= page_positions(lower, upper));
    }
    if feed.len() == 0 {
        None
    } else {
        Some(feed)
    }
}

/// Whether the byte string `a` comes before `b` or equals it, in the order
/// of a dictionary: by the first byte in which they differ, a prefix before
/// what it is a prefix of.
pub open spec fn bytes_le(a: Seq<u8>, b: Seq<u8>) -> bool
    decreases a.len(),
{
    if a.len() == 0 {
        true
    } else if b.len() == 0 {
        false
    } else if a[0] != b[0] {
        a[0] < b[0]
    } else {
        bytes_le(a.skip(1), b.skip(1))
    }
}

/// Whether the label `a` comes before `b` or equals it: the order of their
/// UTF-8 encodings.
pub open spec fn label_le(a: Seq<char>, b: Seq<char>) -> bool {
    bytes_le(vstd::utf8::encode_utf8(a), vstd::utf8::encode_utf8(b))
}

/// Of two byte strings one comes before the other or equals it.
pub proof fn lemma_bytes_le_total(a: Seq<u8>, b: Seq<u8>)
    ensures
        bytes_le(a, b) || bytes_le(b, a),
        bytes_le(a, a),
    decreases a.len(),
{
    if a.len() > 0 {
        lemma_bytes_le_total(a.skip(1), a.skip(1));
        if b.len() > 0 {
            lemma_bytes_le_total(a.skip(1), b.skip(1));
        }
    }
}

/// Compares two byte strings in the order of a dictionary.
pub fn bytes_before_or_equal(a: &[u8], b: &[u8]) -> (le: bool)
    ensures
        le == bytes_le(a@, b@),
{
    let mut i: usize = 0;
    proof {
        assert(a@.skip(0) =~= a@);
        assert(b@.skip(0) =~= b@);
    }
    while i < a.len() && i < b.len()
        invariant
            i <= a@.len(),
            i <= b@.len(),
            bytes_le(a@, b@) == bytes_le(a@.skip(i as int), b@.skip(i as int)),
        decreases a@.len() - i,
    {
        proof {
            assert(a@.skip(i as int).skip(1) =~= a@.skip(i + 1));
            assert(b@.skip(i as int).skip(1) =~= b@.skip(i + 1));
            assert(a@.skip(i as int)[0] == a@[i as int]);
            assert(b@.skip(i as int)[0] == b@[i as int]);
        }
        if a[i] != b[i] {
            return a[i] < b[i];
        }
        i += 1;
    }
    i == a.len()
}

/// Whether each pair label in `list` comes before the next or equals it.
pub open spec fn sorted_by_pair(list: Seq<AuctionInfo>) -> bool {
    forall|k: int|
        0 <= k < list.len() - 1 ==> label_le((#[trigger] list[k]).pair@, list[k + 1].pair@)
}

/// Whether `order` tells where each element of `sorted` stood in `list`:
/// `sorted` holds the elements of `list`, each once, and elements with the
/// same pair label in the order in which `list` held them.
pub open spec fn is_stable_order(order: Seq<int>, list: Seq<AuctionInfo>, sorted: Seq<AuctionInfo>) -> bool {
    &&& order.len() == list.len()
    &&& sorted.len() == list.len()
    &&& forall|k: int|
        0 <= k < order.len() ==> 0 <= (#[trigger] order[k]) < list.len() && sorted[k]
            == list[order[k]]
    &&& forall|k: int, l: int|
        0 <= k < l < order.len() ==> (#[trigger] order[k]) != (#[trigger] order[l])
    &&& forall|k: int, l: int|
        0 <= k < l < order.len() && sorted[k].pair@ == sorted[l].pair@ ==> (#[trigger] order[k])
            < (#[trigger] order[l])
}

/// Whether `x` belongs at position `p` of `sorted`: behind everything that
/// comes before it or equals it, in front of everything that comes after.
pub open spec fn is_insertion_point(sorted: Seq<AuctionInfo>, x: AuctionInfo, p: int) -> bool {
    &&& 0 <= p <= sorted.len()
    &&& p > 0 ==> label_le(sorted[p - 1].pair@, x.pair@)
    &&& forall|k: int| p <= k < sorted.len() ==> !label_le((#[trigger] sorted[k]).pair@, x.pair@)
}

/// A sorted listing with `x` put in where it belongs is sorted.
proof fn lemma_insert_keeps_sorted(before: Seq<AuctionInfo>, x: AuctionInfo, p: int)
    requires
        sorted_by_pair(before),
        is_insertion_point(before, x, p),
    ensures
        sorted_by_pair(before.insert(p, x)),
{
    let s = before.insert(p, x);
    assert forall|k: int| 0 <= k < s.len() - 1 implies label_le(
        (#[trigger] s[k]).pair@,
        s[k + 1].pair@,
    ) by {
        if k + 1 < p {
            assert(s[k] == before[k] && s[k + 1] == before[k + 1]);
        } else if k + 1 == p {
            assert(s[k] == before[k]);
        } else if k == p {
            assert(s[k + 1] == before[k]);
            lemma_bytes_le_total(
                vstd::utf8::encode_utf8(x.pair@),
                vstd::utf8::encode_utf8(before[k].pair@),
            );
        } else {
            assert(s[k] == before[k - 1] && s[k + 1] == before[k]);
        }
    }
}

/// Where `before` holds the elements of `list` in a stable order, `before`
/// with `x` put in where it belongs holds the elements of `list` and `x`
/// behind them in a stable order.
proof fn lemma_insert_keeps_order(
    order: Seq<int>,
    list: Seq<AuctionInfo>,
    before: Seq<AuctionInfo>,
    x: AuctionInfo,
    p: int,
)
    requires
        is_stable_order(order, list, before),
        is_insertion_point(before, x, p),
    ensures
        is_stable_order(order.insert(p, list.len() as int), list.push(x), before.insert(p, x)),
{
    let n = list.len() as int;
    let grown = order.insert(p, n);
    let s = before.insert(p, x);
    let all = list.push(x);
    assert forall|k: int| 0 <= k < grown.len() implies 0 <= (#[trigger] grown[k]) < all.len()
        && s[k] == all[grown[k]] by {
        if k < p {
            assert(grown[k] == order[k]);
            assert(s[k] == before[k]);
        } else if k > p {
            assert(grown[k] == order[k - 1]);
            assert(s[k] == before[k - 1]);
        }
    }
    assert forall|k: int, l: int| 0 <= k < l < grown.len() implies (#[trigger] grown[k]) != (
    #[trigger] grown[l]) by {
        let k0 = if k < p { k } else { k - 1 };
        let l0 = if l < p { l } else { l - 1 };
        if k != p && l != p {
            assert(order[k0] != order[l0]);
        } else if k == p {
            assert(0 <= order[l0] < n);
        } else {
            assert(0 <= order[k0] < n);
        }
    }
    assert forall|k: int, l: int|
        0 <= k < l < grown.len() && s[k].pair@ == s[l].pair@ implies (#[trigger] grown[k]) < (
    #[trigger] grown[l]) by {
        let k0 = if k < p { k } else { k - 1 };
        let l0 = if l < p { l } else { l - 1 };
        if k != p && l != p {
            assert(s[k] == before[k0] && s[l] == before[l0]);
            assert(order[k0] < order[l0]);
        } else if k == p {
            assert(s[l] == before[l0]);
            assert(!label_le(before[l0].pair@, x.pair@));
            lemma_bytes_le_total(
                vstd::utf8::encode_utf8(x.pair@),
                vstd::utf8::encode_utf8(x.pair@),
            );
        } else {
            assert(0 <= order[k0] < n);
        }
    }
}

/// Finds where `x` belongs in a sorted listing.
fn insertion_point(sorted: &Vec<AuctionInfo>, x: &AuctionInfo) -> (p: usize)
    ensures
        is_insertion_point(sorted@, *x, p as int),
{
    let mut p: usize = sorted.len();
    while p > 0 && !bytes_before_or_equal(
        sorted[p - 1].pair.as_str().as_bytes(),
        x.pair.as_str().as_bytes(),
    )
        invariant
            p <= sorted@.len(),
            forall|k: int|
                p <= k < sorted@.len() ==> !label_le((#[trigger] sorted@[k]).pair@, x.pair@),
        decreases p,
    {
        p -= 1;
    }
    p
}

/// Sorts a listing by pair label; auctions of the same pair keep their
/// order.
pub fn sort_by_pair(list: Vec<AuctionInfo>) -> (sorted: Vec<AuctionInfo>)
    ensures
        sorted_by_pair(sorted@),
        exists|order: Seq<int>| is_stable_order(order, list@, sorted@),
{
    let mut sorted: Vec<AuctionInfo> = Vec::new();
    let mut rest = list;
    let ghost mut order: Seq<int> = Seq::empty();
    let ghost mut taken: int = 0;
    let ghost whole = list@;
    assert(rest@ =~= whole.skip(0));
    assert(is_stable_order(order, whole.take(0), sorted@));
    while rest.len() > 0
        invariant
            0 <= taken <= whole.len(),
            rest@ == whole.skip(taken),
            sorted_by_pair(sorted@),
            is_stable_order(order, whole.take(taken), sorted@),
        decreases rest@.len(),
    {
        let x = rest.remove(0);
        let p = insertion_point(&sorted, &x);
        proof {
            lemma_insert_keeps_sorted(sorted@, x, p as int);
            lemma_insert_keeps_order(order, whole.take(taken), sorted@, x, p as int);
            assert(whole.take(taken).push(x) =~= whole.take(taken + 1));
            assert(rest@ =~= whole.skip(taken + 1));
            order = order.insert(p as int, taken);
            taken = taken + 1;
        }
        sorted.insert(p, x);
    }
    proof {
        assert(whole.take(taken) =~= whole);
    }
    sorted
}

/// Of the stored auctions, in their order, those whose tokens the table of
/// symbols knows.
pub open spec fn displayable(infos: Seq<StoreAuctionInfo>, symdecs: Seq<TokenSymDec>) -> Seq<
    StoreAuctionInfo,
>
    decreases infos.len(),
{
    if infos.len() == 0 {
        Seq::empty()
    } else {
        let front = displayable(infos.drop_last(), symdecs);
        if symbols_known(infos.last().sell_symbol, infos.last().bid_symbol, symdecs) {
            front.push(infos.last())
        } else {
            front
        }
    }
}

/// Whether `shown` displays the auctions `infos`, one for one.
pub open spec fn shows_all(
    infos: Seq<StoreAuctionInfo>,
    symdecs: Seq<TokenSymDec>,
    shown: Seq<AuctionInfo>,
) -> bool {
    &&& shown.len() == infos.len()
    &&& forall|k: int| 0 <= k < infos.len() ==> shows_active(#[trigger] infos[k], symdecs, shown[k])
}

/// Whether `listing` lists the auctions `infos` sorted by pair label:
/// every auction whose tokens are known, once, auctions of the same pair in
/// the order of `infos`; `None` where there is none to show.
pub open spec fn lists_active(
    infos: Seq<StoreAuctionInfo>,
    symdecs: Seq<TokenSymDec>,
    listing: Option<Vec<AuctionInfo>>,
) -> bool {
    match listing {
        None => displayable(infos, symdecs).len() == 0,
        Some(list) => list@.len() > 0 && sorted_by_pair(list@) && exists|
            unsorted: Seq<AuctionInfo>,
            order: Seq<int>,
        |
            shows_all(displayable(infos, symdecs), symdecs, unsorted) && is_stable_order(
                order,
                unsorted,
                list@,
            ),
    }
}

/// Lists the given active auctions sorted by pair label.
pub fn display_active_list(infos: &Vec<StoreAuctionInfo>, symdecs: &Vec<TokenSymDec>) -> (listing:
    Option<Vec<AuctionInfo>>)
    ensures
        lists_active(infos@, symdecs@, listing),
{
    let mut actives: Vec<AuctionInfo> = Vec::new();
    let mut i: usize = 0;
    while i < infos.len()
        invariant
            i <= infos@.len(),
            shows_all(displayable(infos@.take(i as int), symdecs@), symdecs@, actives@),
        decreases infos@.len() - i,
    {
        proof {
            assert(infos@.take(i + 1).drop_last() =~= infos@.take(i as int));
        }
        if let Some(a) = display_active(&infos[i], symdecs) {
            actives.push(a);
        }
        i += 1;
    }
    proof {
        assert(infos@.take(i as int) =~= infos@);
    }
    if actives.len() == 0 {
        return None;
    }
    let ghost unsorted = actives@;
    let sorted = sort_by_pair(actives);
    proof {
        let order = choose|order: Seq<int>| is_stable_order(order, unsorted, sorted@);
        assert(shows_all(displayable(infos@, symdecs@), symdecs@, unsorted) && is_stable_order(
            order,
            unsorted,
            sorted@,
        ));
    }
    Some(sorted)
}

/// Whether `shown` lists the closed auctions at the positions that a
/// person's log holds, latest first; `None` where there is none to show.
pub open spec fn shows_closed_of(
    list: Option<Vec<u32>>,
    log: Seq<StoreClosedAuctionInfo>,
    symdecs: Seq<TokenSymDec>,
    shown: Option<Vec<ClosedAuctionInfo>>,
) -> bool {
    match list {
        None => shown.is_none(),
        Some(l) => match shown {
            Some(feed) => feed@.len() > 0 && shows_feed(
                listable(newest_first(l@), log, symdecs),
                log,
                symdecs,
                false,
                feed@,
            ),
            None => listable(newest_first(l@), log, symdecs).len() == 0,
        },
    }
}

/// Answers whether the presented key is the key of the address whose hash
/// is `stored`.
pub fn try_validate_key(stored: Option<[u8; 32]>, viewing_key: String) -> (answer: QueryAnswer)
    ensures
        answer == (QueryAnswer::IsKeyValid {
            is_valid: match stored {
                Some(expected) => sha256_of_text(viewing_key@) == expected@,
                None => false,
            },
        }),
{
    QueryAnswer::IsKeyValid { is_valid: is_key_valid(stored, viewing_key) }
}

/// Lists the given active auctions sorted by pair.
pub fn try_list_active(infos: &Vec<StoreAuctionInfo>, symdecs: &Vec<TokenSymDec>) -> (answer:
    QueryAnswer)
    ensures
        answer matches QueryAnswer::ListActiveAuctions { active } && lists_active(
            infos@,
            symdecs@,
            active,
        ),
{
    QueryAnswer::ListActiveAuctions { active: display_active_list(infos, symdecs) }
}

/// The records of a person that a listing of its auctions reads.
#[derive(Clone, Debug, PartialEq, Eq)]
pub struct MyRecords {
    /// the active auctions that the person sells
    pub seller_active: Vec<StoreAuctionInfo>,
    /// the active auctions that the person bids in
    pub bidder_active: Vec<StoreAuctionInfo>,
    /// the person's log of auctions sold
    pub seller_closed: Option<Vec<u32>>,
    /// the person's log of auctions won
    pub won: Option<Vec<u32>>,
}

/// Whether `active` is the part on active auctions of the listing for a
/// person with these records, under this filter.
pub open spec fn lists_my_active(
    filter: Option<FilterTypes>,
    records: MyRecords,
    symdecs: Seq<TokenSymDec>,
    active: Option<MyActiveLists>,
) -> bool {
    let wanted = filter != Some(FilterTypes::Closed);
    let nothing = displayable(records.seller_active@, symdecs).len() == 0 && displayable(
        records.bidder_active@,
        symdecs,
    ).len() == 0;
    match active {
        None => !wanted || nothing,
        Some(lists) => wanted && !nothing && lists_active(
            records.seller_active@,
            symdecs,
            lists.as_seller,
        ) && lists_active(records.bidder_active@, symdecs, lists.as_bidder),
    }
}

/// Whether `closed` is the part on closed auctions of the listing for a
/// person with these records, under this filter.
pub open spec fn lists_my_closed(
    filter: Option<FilterTypes>,
    records: MyRecords,
    log: Seq<StoreClosedAuctionInfo>,
    symdecs: Seq<TokenSymDec>,
    closed: Option<MyClosedLists>,
) -> bool {
    let wanted = filter != Some(FilterTypes::Active);
    match closed {
        None => !wanted || (shows_closed_of(records.seller_closed, log, symdecs, None)
            && shows_closed_of(records.won, log, symdecs, None)),
        Some(lists) => wanted && (lists.as_seller.is_some() || lists.won.is_some())
            && shows_closed_of(records.seller_closed, log, symdecs, lists.as_seller)
            && shows_closed_of(records.won, log, symdecs, lists.won),
    }
}

/// What a person is told about its auctions: nothing without the key whose
/// hash is stored for it; with the key, its active auctions as seller and
/// as bidder and its closed auctions as seller and as winner, as far as the
/// filter asks for them. No filter asks for all.
pub open spec fn list_my_post(
    stored: Option<[u8; 32]>,
    viewing_key: Seq<char>,
    filter: Option<FilterTypes>,
    records: MyRecords,
    log: Seq<StoreClosedAuctionInfo>,
    symdecs: Seq<TokenSymDec>,
    answer: QueryAnswer,
) -> bool {
    let valid = match stored {
        Some(expected) => sha256_of_text(viewing_key) == expected@,
        None => false,
    };
    match answer {
        QueryAnswer::ViewingKeyError { error } => !valid && error@
            == "Wrong viewing key for this address or viewing key not set"@,
        QueryAnswer::ListMyAuctions { active, closed } => valid && lists_my_active(
            filter,
            records,
            symdecs,
            active,
        ) && lists_my_closed(filter, records, log, symdecs, closed),
        _ => false,
    }
}

/// Lists the auctions of a person, given the key it presents.
pub fn try_list_my(
    stored: Option<[u8; 32]>,
    viewing_key: String,
    filter: Option<FilterTypes>,
    records: &MyRecords,
    log: &Vec<StoreClosedAuctionInfo>,
    symdecs: &Vec<TokenSymDec>,
) -> (answer: QueryAnswer)
    ensures
        list_my_post(stored, viewing_key@, filter, *records, log@, symdecs@, answer),
{
    if !is_key_valid(stored, viewing_key) {
        return QueryAnswer::ViewingKeyError {
            error: String::from_str("Wrong viewing key for this address or viewing key not set"),
        };
    }
    let types = match filter {
        Some(t) => t,
        None => FilterTypes::All,
    };
    let mut active_lists: Option<MyActiveLists> = None;
    let mut closed_lists: Option<MyClosedLists> = None;
    if types == FilterTypes::Active || types == FilterTypes::All {
        let seller_active = display_active_list(&records.seller_active, symdecs);
        let bidder_active = display_active_list(&records.bidder_active, symdecs);
        if seller_active.is_some() || bidder_active.is_some() {
            active_lists = Some(
                MyActiveLists { as_seller: seller_active, as_bidder: bidder_active },
            );
        }
    }
    if types == FilterTypes::Closed || types == FilterTypes::All {
        let seller_closed = display_addr_closed(&records.seller_closed, log, symdecs);
        let won = display_addr_closed(&records.won, log, symdecs);
        if seller_closed.is_some() || won.is_some() {
            closed_lists = Some(MyClosedLists { as_seller: seller_closed, won });
        }
    }
    QueryAnswer::ListMyAuctions { active: active_lists, closed: closed_lists }
}

/// Answers with a page of the closed log, latest first.
pub fn try_list_closed(
    log: &Vec<StoreClosedAuctionInfo>,
    symdecs: &Vec<TokenSymDec>,
    before: Option<u32>,
    page_size: Option<u32>,
) -> (answer: QueryAnswer)
    requires
        log@.len() <= u32::MAX,
    ensures
        answer matches QueryAnswer::ListClosedAuctions { closed } && shows_page(
            page_bounds(log@.len() as u32, before, page_size),
            log@,
            symdecs@,
            closed,
        ) && (closed matches Some(feed) ==> feed@.len() <= page_limit(page_size)),
{
    QueryAnswer::ListClosedAuctions { closed: list_closed(log, symdecs, before, page_size) }
}

/// What the factory reads to answer one query: the hash on file for the
/// address that the query names, the records of the factory's active
/// auctions, the records of that address, the closed log and the table of
/// symbols.
#[derive(Clone, Debug, PartialEq, Eq)]
pub struct QueryRecords {
    pub stored_key: Option<[u8; 32]>,
    pub active: Vec<StoreAuctionInfo>,
    pub mine: MyRecords,
    pub log: Vec<StoreClosedAuctionInfo>,
    pub symdecs: Vec<TokenSymDec>,
}

/// What the answer to `msg` is on `records`.
pub open spec fn query_post(records: QueryRecords, msg: QueryMsg, answer: QueryAnswer) -> bool {
    match msg {
        QueryMsg::ListMyAuctions { address, viewing_key, filter } => list_my_post(
            records.stored_key,
            viewing_key@,
            filter,
            records.mine,
            records.log@,
            records.symdecs@,
            answer,
        ),
        QueryMsg::ListActiveAuctions {  } => answer matches QueryAnswer::ListActiveAuctions {
            active,
        } && lists_active(records.active@, records.symdecs@, active),
        QueryMsg::ListClosedAuctions { before, page_size } => answer
            matches QueryAnswer::ListClosedAuctions { closed } && shows_page(
            page_bounds(records.log@.len() as u32, before, page_size),
            records.log@,
            records.symdecs@,
            closed,
        ),
        QueryMsg::IsKeyValid { address, viewing_key } => answer == (QueryAnswer::IsKeyValid {
            is_valid: match records.stored_key {
                Some(expected) => sha256_of_text(viewing_key@) == expected@,
                None => false,
            },
        }),
    }
}

/// Answers one query to the factory on the records that it reads.
pub fn query(records: &QueryRecords, msg: QueryMsg) -> (answer: QueryAnswer)
    requires
        records.log@.len() <= u32::MAX,
    ensures
        query_post(*records, msg, answer),
{
    match msg {
        QueryMsg::ListMyAuctions { address, viewing_key, filter } => try_list_my(
            records.stored_key,
            viewing_key,
            filter,
            &records.mine,
            &records.log,
            &records.symdecs,
        ),
        QueryMsg::ListActiveAuctions {  } => try_list_active(&records.active, &records.symdecs),
        QueryMsg::ListClosedAuctions { before, page_size } => try_list_closed(
            &records.log,
            &records.symdecs,
            before,
            page_size,
        ),
        QueryMsg::IsKeyValid { address, viewing_key } => try_validate_key(
            records.stored_key,
            viewing_key,
        ),
    }
}

} // verus!
