//! What holds of the auction engine over any run of requests.

use crate::auction::contract::bid_post;
use crate::auction::contract::consigned;
use crate::auction::contract::finalize_post;
use crate::auction::contract::handle_post;
use crate::auction::contract::retract_post;
use crate::auction::contract::Env;
use crate::auction::msg::ContractError;
use crate::auction::msg::ContractInfo;
use crate::auction::msg::HandleMsg;
use crate::auction::msg::HandleResponse;
use crate::auction::msg::Instruction;
use crate::auction::settle::closed_from;
use crate::auction::settle::closing_messages;
use crate::auction::settle::closure_notice;
use crate::auction::settle::has_winner;
use crate::auction::settle::leftover;
use crate::auction::settle::losers;
use crate::auction::settle::refunds;
use crate::auction::settle::swap;
use crate::auction::state::bid_index;
use crate::auction::state::holds_bid;
use crate::auction::state::lemma_bid_index;
use crate::auction::state::total_bid;
use crate::auction::state::winner_index;
use crate::auction::state::Bid;
use crate::auction::state::OwnedBid;
use crate::auction::state::State;
use vstd::prelude::*;

verus! {

/// The state after a run of deposits of sale tokens, each by its depositor.
pub open spec fn after_deposits(s: State, deposits: Seq<(Seq<char>, u128)>) -> State
    decreases deposits.len(),
{
    if deposits.len() == 0 {
        s
    } else {
        let sofar = after_deposits(s, deposits.drop_last());
        consigned(sofar, deposits.last().0, deposits.last().1)
    }
}

/// Whatever is deposited, by whomever and in whatever order, escrow never
/// holds more than the sale amount, and an open auction is marked as
/// consigned exactly when escrow holds the sale amount.
pub proof fn law_escrow_bounded(s: State, deposits: Seq<(Seq<char>, u128)>)
    requires
        s.wf(),
        !s.is_completed,
    ensures
        after_deposits(s, deposits).wf(),
        !after_deposits(s, deposits).is_completed,
        after_deposits(s, deposits).sell_amount == s.sell_amount,
        after_deposits(s, deposits).currently_consigned <= s.sell_amount,
        after_deposits(s, deposits).tokens_consigned <==> after_deposits(
            s,
            deposits,
        ).currently_consigned == s.sell_amount,
    decreases deposits.len(),
{
    if deposits.len() > 0 {
        law_escrow_bounded(s, deposits.drop_last());
    }
}

/// An identity owns at most one live bid.
pub proof fn law_one_bid_each(s: State, i: int, j: int)
    requires
        s.wf(),
        0 <= i < s.bids@.len(),
        0 <= j < s.bids@.len(),
        s.bids@[i].bidder@ == s.bids@[j].bidder@,
    ensures
        i == j,
{
    if i < j {
        assert(s.bids@[i].bidder@ != s.bids@[j].bidder@);
    }
    if j < i {
        assert(s.bids@[j].bidder@ != s.bids@[i].bidder@);
    }
}

/// An identity is among the bidders exactly when a bid is stored for it.
pub proof fn law_bidders_in_lockstep(s: State, who: Seq<char>)
    ensures
        s.bidders().contains(who) <==> s.bid_of(who).is_some(),
{
}

/// A deposit that is accepted as a bid makes the depositor a bidder with
/// that bid; one that is returned leaves bidders and bids as they were.
/// Nobody else's bid is touched either way.
pub proof fn law_bid_keeps_lockstep(
    before: State,
    bidder: String,
    amount: u128,
    time: u64,
    after: State,
    r: HandleResponse,
    other: Seq<char>,
)
    requires
        before.wf(),
        bid_post(before, bidder, amount, time, after, r),
        other != bidder@,
    ensures
        after.wf(),
        after.bid_of(other) == before.bid_of(other),
        after.bid_of(bidder@) == Some(Bid { amount, timestamp: time }) || after.bid_of(bidder@)
            == before.bid_of(bidder@),
        after.bidders() == before.bidders().insert(bidder@) || after.bidders()
            == before.bidders(),
{
    let placed = OwnedBid { bidder, bid: Bid { amount, timestamp: time } };
    if after.bids@ == before.bids@ {
        assert(after.bidders() =~= before.bidders());
    } else if !holds_bid(before.bids@, bidder@) {
        assert(after.bids@ == before.bids@.push(placed));
        let n = before.bids@.len() as int;
        assert forall|a: int, b: int| 0 <= a < b < after.bids@.len() implies (
        #[trigger] after.bids@[a]).bidder@ != (#[trigger] after.bids@[b]).bidder@ by {
            if b < n {
                assert(before.bids@[a].bidder@ != before.bids@[b].bidder@);
            } else {
                assert(before.bids@[a].bidder@ != bidder@);
            }
        }
        assert(after.bids@[n].bidder@ == bidder@);
        lemma_bid_index(after.bids@, bidder@, n);
        lemma_push_elsewhere(before.bids@, placed, other);
        assert forall|who: Seq<char>| after.bidders().contains(who) == before.bidders().insert(
            bidder@,
        ).contains(who) by {
            if who != bidder@ {
                lemma_push_elsewhere(before.bids@, placed, who);
            }
        }
        assert(after.bidders() =~= before.bidders().insert(bidder@));
    } else {
        let i = bid_index(before.bids@, bidder@);
        assert(after.bids@ == before.bids@.update(i, placed));
        assert forall|a: int, b: int| 0 <= a < b < after.bids@.len() implies (
        #[trigger] after.bids@[a]).bidder@ != (#[trigger] after.bids@[b]).bidder@ by {
            assert(before.bids@[a].bidder@ != before.bids@[b].bidder@);
        }
        assert(after.bids@[i].bidder@ == bidder@);
        lemma_bid_index(after.bids@, bidder@, i);
        lemma_update_elsewhere(before.bids@, i, placed, other);
        assert forall|who: Seq<char>| after.bidders().contains(who) == before.bidders().contains(
            who,
        ) by {
            if who != bidder@ {
                lemma_update_elsewhere(before.bids@, i, placed, who);
            }
        }
        assert(after.bidders() =~= before.bidders());
    }
}

/// Where two lists of bids by distinct bidders hold the same bids of `who`,
/// `who` has the same bid in both.
proof fn lemma_same_bid_elsewhere(a: Seq<OwnedBid>, b: Seq<OwnedBid>, who: Seq<char>)
    requires
        crate::auction::state::distinct_bidders(a),
        crate::auction::state::distinct_bidders(b),
        forall|i: int|
            0 <= i < a.len() && (#[trigger] a[i]).bidder@ == who ==> exists|j: int|
                0 <= j < b.len() && #[trigger] b[j] == a[i],
        forall|j: int|
            0 <= j < b.len() && (#[trigger] b[j]).bidder@ == who ==> exists|i: int|
                0 <= i < a.len() && #[trigger] a[i] == b[j],
    ensures
        holds_bid(a, who) == holds_bid(b, who),
        holds_bid(a, who) ==> a[bid_index(a, who)] == b[bid_index(b, who)],
{
    if holds_bid(a, who) {
        let i = bid_index(a, who);
        let j = choose|j: int| 0 <= j < b.len() && #[trigger] b[j] == a[i];
        lemma_bid_index(b, who, j);
    }
    if holds_bid(b, who) {
        let j = bid_index(b, who);
        let i = choose|i: int| 0 <= i < a.len() && #[trigger] a[i] == b[j];
        lemma_bid_index(a, who, i);
    }
}

/// A bid appended for a new bidder leaves the bid of anyone else as it was.
proof fn lemma_push_elsewhere(a: Seq<OwnedBid>, placed: OwnedBid, who: Seq<char>)
    requires
        crate::auction::state::distinct_bidders(a),
        crate::auction::state::distinct_bidders(a.push(placed)),
        who != placed.bidder@,
    ensures
        holds_bid(a, who) == holds_bid(a.push(placed), who),
        holds_bid(a, who) ==> a[bid_index(a, who)] == a.push(placed)[bid_index(
            a.push(placed),
            who,
        )],
{
    let b = a.push(placed);
    assert forall|i: int| 0 <= i < a.len() && (#[trigger] a[i]).bidder@ == who implies exists|
        j: int,
    | 0 <= j < b.len() && #[trigger] b[j] == a[i] by {
        assert(b[i] == a[i]);
    }
    assert forall|j: int| 0 <= j < b.len() && (#[trigger] b[j]).bidder@ == who implies exists|
        i: int,
    | 0 <= i < a.len() && #[trigger] a[i] == b[j] by {
        assert(a[j] == b[j]);
    }
    lemma_same_bid_elsewhere(a, b, who);
}

/// A bid replaced for its bidder leaves the bid of anyone else as it was.
proof fn lemma_update_elsewhere(a: Seq<OwnedBid>, at: int, placed: OwnedBid, who: Seq<char>)
    requires
        crate::auction::state::distinct_bidders(a),
        crate::auction::state::distinct_bidders(a.update(at, placed)),
        0 <= at < a.len(),
        a[at].bidder@ == placed.bidder@,
        who != placed.bidder@,
    ensures
        holds_bid(a, who) == holds_bid(a.update(at, placed), who),
        holds_bid(a, who) ==> a[bid_index(a, who)] == a.update(at, placed)[bid_index(
            a.update(at, placed),
            who,
        )],
{
    let b = a.update(at, placed);
    assert forall|i: int| 0 <= i < a.len() && (#[trigger] a[i]).bidder@ == who implies exists|
        j: int,
    | 0 <= j < b.len() && #[trigger] b[j] == a[i] by {
        assert(b[i] == a[i]);
    }
    assert forall|j: int| 0 <= j < b.len() && (#[trigger] b[j]).bidder@ == who implies exists|
        i: int,
    | 0 <= i < a.len() && #[trigger] a[i] == b[j] by {
        assert(a[j] == b[j]);
    }
    lemma_same_bid_elsewhere(a, b, who);
}

/// A retraction takes the bidder out of the bidders together with its bid,
/// and touches nobody else's bid.
pub proof fn law_retract_keeps_lockstep(
    before: State,
    bidder: String,
    after: State,
    r: HandleResponse,
    other: Seq<char>,
)
    requires
        before.wf(),
        retract_post(before, bidder, after, r),
        other != bidder@,
    ensures
        after.wf(),
        after.bid_of(bidder@).is_none(),
        !after.bidders().contains(bidder@),
        after.bid_of(other) == before.bid_of(other),
{
    if holds_bid(before.bids@, bidder@) {
        let i = bid_index(before.bids@, bidder@);
        assert(after.bids@ == before.bids@.remove(i));
        assert forall|a: int, b: int| 0 <= a < b < after.bids@.len() implies (
        #[trigger] after.bids@[a]).bidder@ != (#[trigger] after.bids@[b]).bidder@ by {
            let a0 = if a < i { a } else { a + 1 };
            let b0 = if b < i { b } else { b + 1 };
            assert(before.bids@[a0].bidder@ != before.bids@[b0].bidder@);
        }
        assert forall|k: int| 0 <= k < after.bids@.len() implies (
        #[trigger] after.bids@[k]).bidder@ != bidder@ by {
            let k0 = if k < i { k } else { k + 1 };
            if k0 < i {
                assert(before.bids@[k0].bidder@ != before.bids@[i].bidder@);
            } else {
                assert(before.bids@[i].bidder@ != before.bids@[k0].bidder@);
            }
        }
        assert forall|k: int|
            0 <= k < before.bids@.len() && (#[trigger] before.bids@[k]).bidder@
                == other implies exists|j: int|
            0 <= j < after.bids@.len() && #[trigger] after.bids@[j] == before.bids@[k] by {
            let j = if k < i { k } else { k - 1 };
            assert(after.bids@[j] == before.bids@[k]);
        }
        assert forall|j: int|
            0 <= j < after.bids@.len() && (#[trigger] after.bids@[j]).bidder@
                == other implies exists|k: int|
            0 <= k < before.bids@.len() && #[trigger] before.bids@[k] == after.bids@[j] by {
            let k = if j < i { j } else { j + 1 };
            assert(before.bids@[k] == after.bids@[j]);
        }
        lemma_same_bid_elsewhere(before.bids@, after.bids@, other);
    }
}

/// Placing the same amount again changes nothing: the standing bid keeps
/// its timestamp and the new deposit goes back. Placing any other amount,
/// higher or lower, replaces amount and timestamp and sends the standing
/// amount back.
pub proof fn law_rebid(
    before: State,
    bidder: String,
    amount: u128,
    time: u64,
    after: State,
    r: HandleResponse,
)
    requires
        before.wf(),
        !before.is_completed,
        amount > 0,
        amount >= before.minimum_bid,
        before.bid_of(bidder@).is_some(),
        bid_post(before, bidder, amount, time, after, r),
    ensures
        amount == before.bid_of(bidder@).unwrap().amount ==> after == before && r.messages@
            == seq![Instruction::Transfer { token: before.bid_contract, recipient: bidder, amount }],
        amount != before.bid_of(bidder@).unwrap().amount ==> after.bid_of(bidder@) == Some(
            Bid { amount, timestamp: time },
        ) && r.messages@ == seq![
            Instruction::Transfer {
                token: before.bid_contract,
                recipient: bidder,
                amount: before.bid_of(bidder@).unwrap().amount,
            },
        ],
{
    let i = bid_index(before.bids@, bidder@);
    if amount != before.bids@[i].bid.amount {
        assert forall|a: int, b: int| 0 <= a < b < after.bids@.len() implies (
        #[trigger] after.bids@[a]).bidder@ != (#[trigger] after.bids@[b]).bidder@ by {
            assert(before.bids@[a].bidder@ != before.bids@[b].bidder@);
        }
        assert(after.bids@[i].bidder@ == bidder@);
        lemma_bid_index(after.bids@, bidder@, i);
    }
}

/// No bid is higher than the winning bid, and no bid of the same amount is
/// older.
pub proof fn law_winner_is_highest_and_earliest(bids: Seq<OwnedBid>, j: int)
    requires
        bids.len() > 0,
        0 <= j < bids.len(),
    ensures
        bids[j].bid.amount <= bids[winner_index(bids)].bid.amount,
        bids[j].bid.amount == bids[winner_index(bids)].bid.amount ==> bids[winner_index(
            bids,
        )].bid.timestamp <= bids[j].bid.timestamp,
{
    crate::auction::state::lemma_winner_exists(bids);
    assert(crate::auction::state::stands_above(bids, winner_index(bids), j));
}

/// How much of the token at `token` the instruction `m` moves.
pub open spec fn amount_moved(m: Instruction, token: Seq<char>) -> nat {
    match m {
        Instruction::Transfer { token: t, recipient, amount } => if t.address@ == token {
            amount as nat
        } else {
            0
        },
        _ => 0,
    }
}

/// How much of the token at `token` the instructions move in all.
pub open spec fn moved(msgs: Seq<Instruction>, token: Seq<char>) -> nat
    decreases msgs.len(),
{
    if msgs.len() == 0 {
        0
    } else {
        moved(msgs.drop_last(), token) + amount_moved(msgs.last(), token)
    }
}

proof fn lemma_moved_concat(a: Seq<Instruction>, b: Seq<Instruction>, token: Seq<char>)
    ensures
        moved(a + b, token) == moved(a, token) + moved(b, token),
    decreases b.len(),
{
    if b.len() == 0 {
        assert(a + b =~= a);
    } else {
        assert((a + b).drop_last() =~= a + b.drop_last());
        assert((a + b).last() == b.last());
        lemma_moved_concat(a, b.drop_last(), token);
    }
}

proof fn lemma_moved_refunds(bids: Seq<OwnedBid>, token: ContractInfo, asked: Seq<char>)
    ensures
        moved(refunds(bids, token), asked) == if token.address@ == asked {
            total_bid(bids)
        } else {
            0
        },
    decreases bids.len(),
{
    if bids.len() > 0 {
        assert(refunds(bids, token).drop_last() =~= refunds(bids.drop_last(), token));
        lemma_moved_refunds(bids.drop_last(), token, asked);
    }
}

proof fn lemma_total_without(bids: Seq<OwnedBid>, w: int)
    requires
        0 <= w < bids.len(),
    ensures
        total_bid(bids) == total_bid(bids.remove(w)) + bids[w].bid.amount,
    decreases bids.len(),
{
    if w == bids.len() - 1 {
        assert(bids.remove(w) =~= bids.drop_last());
    } else {
        assert(bids.remove(w).drop_last() =~= bids.drop_last().remove(w));
        assert(bids.remove(w).last() == bids.last());
        lemma_total_without(bids.drop_last(), w);
    }
}

proof fn lemma_moved_short(msgs: Seq<Instruction>, token: Seq<char>)
    requires
        msgs.len() <= 2,
    ensures
        msgs.len() == 0 ==> moved(msgs, token) == 0,
        msgs.len() == 1 ==> moved(msgs, token) == amount_moved(msgs[0], token),
        msgs.len() == 2 ==> moved(msgs, token) == amount_moved(msgs[0], token) + amount_moved(
            msgs[1],
            token,
        ),
{
    if msgs.len() >= 1 {
        let front = msgs.drop_last();
        if front.len() >= 1 {
            assert(front.drop_last().len() == 0);
            assert(moved(front.drop_last(), token) == 0);
            assert(moved(front, token) == amount_moved(front.last(), token));
        } else {
            assert(moved(front, token) == 0);
        }
        assert(moved(msgs, token) == moved(front, token) + amount_moved(msgs.last(), token));
    }
}

/// Closing an auction, or sweeping a closed one, moves the sale amount or
/// less of the sale token, and of the bid token exactly the sum of the bids
/// stored at that moment.
pub proof fn law_closing_moves_what_is_held(s: State)
    requires
        s.wf(),
    ensures
        moved(closing_messages(s), s.sell_contract.address@) <= s.sell_amount,
        moved(closing_messages(s), s.bid_contract.address@) == total_bid(s.bids@),
{
    let sell = s.sell_contract.address@;
    let bid = s.bid_contract.address@;
    let a = swap(s);
    let b = refunds(losers(s), s.bid_contract);
    let c = leftover(s);
    let d = closure_notice(s);
    lemma_moved_concat(a + b + c, d, sell);
    lemma_moved_concat(a + b, c, sell);
    lemma_moved_concat(a, b, sell);
    lemma_moved_concat(a + b + c, d, bid);
    lemma_moved_concat(a + b, c, bid);
    lemma_moved_concat(a, b, bid);
    lemma_moved_short(a, sell);
    lemma_moved_short(c, sell);
    lemma_moved_short(d, sell);
    lemma_moved_short(a, bid);
    lemma_moved_short(c, bid);
    lemma_moved_short(d, bid);
    lemma_moved_refunds(losers(s), s.bid_contract, sell);
    lemma_moved_refunds(losers(s), s.bid_contract, bid);
    if has_winner(s) {
        let w = winner_index(s.bids@);
        crate::auction::state::lemma_winner_exists(s.bids@);
        lemma_total_without(s.bids@, w);
    }
}

/// No request to close or sweep an auction moves more of the sale token
/// than the sale amount, or more of the bid token than the sum of the bids
/// stored when the request arrives.
pub proof fn law_finalize_moves_no_more(
    before: State,
    sender: Seq<char>,
    time: u64,
    new_ends_at: Option<u64>,
    new_minimum_bid: Option<u128>,
    return_all: bool,
    after: State,
    r: HandleResponse,
)
    requires
        before.wf(),
        finalize_post(
            before,
            sender,
            time,
            new_ends_at,
            new_minimum_bid,
            return_all,
            after,
            Ok(r),
        ),
    ensures
        moved(r.messages@, before.sell_contract.address@) <= before.sell_amount,
        moved(r.messages@, before.bid_contract.address@) <= total_bid(before.bids@),
{
    law_closing_moves_what_is_held(before);
    if r.messages@.len() <= 1 {
        lemma_moved_short(r.messages@, before.sell_contract.address@);
        lemma_moved_short(r.messages@, before.bid_contract.address@);
    }
}

/// A closed auction stays closed, whatever it is asked to handle.
pub proof fn law_closed_stays_closed(
    before: State,
    env: Env,
    msg: HandleMsg,
    after: State,
    res: Result<HandleResponse, ContractError>,
)
    requires
        before.wf(),
        before.is_completed,
        handle_post(before, env, msg, after, res),
    ensures
        after.is_completed,
{
}

/// Closing leaves nothing in escrow, and sweeping an auction with nothing
/// in escrow sends nothing out and changes nothing: a second sweep moves no
/// funds.
pub proof fn law_sweep_is_idempotent(
    s0: State,
    s1: State,
    s2: State,
    first: Seq<char>,
    second: Seq<char>,
    time1: u64,
    time2: u64,
    r1: HandleResponse,
    r2: HandleResponse,
)
    requires
        s0.wf(),
        s0.is_completed,
        finalize_post(s0, first, time1, None, None, true, s1, Ok(r1)),
        finalize_post(s1, second, time2, None, None, true, s2, Ok(r2)),
    ensures
        s1.is_settled(),
        r2.messages@.len() == 0,
        s2 == (State { bids: s2.bids, ..s1 }),
        s2.bids@ == s1.bids@,
{
    assert(closed_from(s0, s1));
    assert(closed_from(s1, s2));
    assert(swap(s1).len() == 0);
    assert(losers(s1).len() == 0);
    assert(refunds(losers(s1), s1.bid_contract).len() == 0);
    assert(leftover(s1).len() == 0);
    assert(closure_notice(s1).len() == 0);
    assert(s2.bids@ =~= s1.bids@);
}

} // verus!
