use vstd::prelude::*;
use crate::model::{
    bid_error, bid_step, cancel_error, cancel_step, confirm_error, confirm_step, emit, extend_error,
    extend_step, extended, in_band, jury_decides, mutually_confirmed, new_error, new_model,
    recorded, reset_bid, lemma_reset_bid_payout, start, terminate, transfer_or_terminate, update_bid, with_state,
    AuctionModel, Step,
};
use crate::types::{AccountId, AuctionError, Balance, Env, Payment, Timestamp};

verus! {

/// One call into an auction.
pub enum Call {
    Bid(Balance),
    Cancel,
    Confirm(bool),
    ExtendDeadline(Timestamp),
}

pub open spec fn call_error(m: AuctionModel, env: Env, call: Call) -> Option<AuctionError> {
    match call {
        Call::Bid(value) => bid_error(m, env, value),
        Call::Cancel => cancel_error(m, env),
        Call::Confirm(_) => confirm_error(m, env),
        Call::ExtendDeadline(extension) => extend_error(m, env, extension),
    }
}

/// What a call does; a refused call does nothing.
pub open spec fn apply(m: AuctionModel, env: Env, call: Call) -> Step {
    if call_error(m, env, call) is Some {
        start(m)
    } else {
        match call {
            Call::Bid(value) => bid_step(m, env, value),
            Call::Cancel => cancel_step(m, env),
            Call::Confirm(value) => confirm_step(m, env, value),
            Call::ExtendDeadline(extension) => extend_step(m, extension),
        }
    }
}

/// The value that a call brings in: the attached value of an accepted bid.
pub open spec fn deposit(m: AuctionModel, env: Env, call: Call) -> nat {
    match call {
        Call::Bid(value) => if bid_error(m, env, value) is None { value as nat } else { 0 },
        _ => 0,
    }
}

/// The state after a sequence of calls.
pub open spec fn run(m: AuctionModel, calls: Seq<(Env, Call)>) -> AuctionModel
    decreases calls.len(),
{
    if calls.len() == 0 {
        m
    } else {
        run(apply(m, calls[0].0, calls[0].1).state, calls.drop_first())
    }
}

/// All payments that a sequence of calls makes, in order.
pub open spec fn run_payments(m: AuctionModel, calls: Seq<(Env, Call)>) -> Seq<Payment>
    decreases calls.len(),
{
    if calls.len() == 0 {
        seq![]
    } else {
        let s = apply(m, calls[0].0, calls[0].1);
        s.payments + run_payments(s.state, calls.drop_first())
    }
}

/// All value that a sequence of calls brings in.
pub open spec fn run_deposits(m: AuctionModel, calls: Seq<(Env, Call)>) -> nat
    decreases calls.len(),
{
    if calls.len() == 0 {
        0
    } else {
        let s = apply(m, calls[0].0, calls[0].1);
        deposit(m, calls[0].0, calls[0].1) + run_deposits(s.state, calls.drop_first())
    }
}

/// The sum of the amounts paid.
pub open spec fn total(ps: Seq<Payment>) -> nat
    decreases ps.len(),
{
    if ps.len() == 0 {
        0
    } else {
        total(ps.drop_last()) + ps.last().amount as nat
    }
}

proof fn lemma_total_push(ps: Seq<Payment>, p: Payment)
    ensures
        total(ps.push(p)) == total(ps) + p.amount,
{
    assert(ps.push(p).drop_last() =~= ps);
}

proof fn lemma_total_concat(a: Seq<Payment>, b: Seq<Payment>)
    ensures
        total(a + b) == total(a) + total(b),
    decreases b.len(),
{
    if b.len() == 0 {
        assert(a + b =~= a);
    } else {
        assert((a + b).drop_last() =~= a + b.drop_last());
        lemma_total_concat(a, b.drop_last());
    }
}

/// A part of a call that keeps the invariant, and whose payments add up to
/// what it paid since `paid_before`.
spec fn accounted(paid_before: nat, s: Step) -> bool {
    s.state.wf() && s.state.paid == paid_before + total(s.payments)
}

/// What a transfer or a settlement leaves as it was.
spec fn same_terms(a: AuctionModel, b: AuctionModel) -> bool {
    &&& b.pay_multiplier == a.pay_multiplier
    &&& b.current_bid == a.current_bid
    &&& b.contractor == a.contractor
    &&& b.client == a.client
    &&& b.jury == a.jury
    &&& b.deadline == a.deadline
    &&& b.received == a.received
    &&& b.contractor_confirm == a.contractor_confirm
    &&& b.client_confirm == a.client_confirm
}

proof fn lemma_terminate(p: nat, s: Step, to: AccountId)
    requires
        accounted(p, s),
    ensures
        accounted(p, terminate(s, to)),
        same_terms(s.state, terminate(s, to).state),
        terminate(s, to).state.terminated,
        terminate(s, to).events == s.events,
{
    if !s.state.terminated {
        lemma_total_push(s.payments, Payment { to, amount: s.state.balance });
    }
}

proof fn lemma_transfer(p: nat, s: Step, amount: int, to: AccountId, rejecting: Seq<AccountId>)
    requires
        accounted(p, s),
        0 <= amount,
    ensures
        accounted(p, transfer_or_terminate(s, amount, to, rejecting)),
        same_terms(s.state, transfer_or_terminate(s, amount, to, rejecting).state),
        s.state.terminated ==> transfer_or_terminate(s, amount, to, rejecting) == s,
        transfer_or_terminate(s, amount, to, rejecting).events == s.events,
{
    if s.state.terminated {
    } else if amount <= s.state.balance && !rejecting.contains(to) {
        lemma_total_push(s.payments, Payment { to, amount: amount as Balance });
    } else {
        lemma_terminate(p, s, to);
    }
}

proof fn lemma_update_bid(p: nat, s: Step, bid: Balance, contractor: AccountId, now: Timestamp)
    requires
        accounted(p, s),
        !s.state.terminated,
        bid * s.state.pay_multiplier <= u128::MAX,
        extended(s.state, now) <= u64::MAX,
    ensures
        accounted(p, update_bid(s, bid, contractor, now)),
        update_bid(s, bid, contractor, now).payments == s.payments,
        update_bid(s, bid, contractor, now).state.deadline >= s.state.deadline,
        update_bid(s, bid, contractor, now).state.received == s.state.received,
        !update_bid(s, bid, contractor, now).state.terminated,
        update_bid(s, bid, contractor, now).state.current_bid == bid,
{
}

proof fn lemma_bid(m: AuctionModel, env: Env, value: Balance)
    requires
        m.wf(),
        bid_error(m, env, value) is None,
    ensures
        accounted(m.paid, bid_step(m, env, value)),
        bid_step(m, env, value).state.deadline >= m.deadline,
        bid_step(m, env, value).state.received == m.received + value,
{
    let funded = AuctionModel { balance: (m.balance + value) as Balance, received: m.received + value as nat, ..m };
    let s = transfer_or_terminate(start(funded), m.current_bid as int, m.contractor, env.rejecting@);
    lemma_transfer(m.paid, start(funded), m.current_bid as int, m.contractor, env.rejecting@);
    if !s.state.terminated {
        assert(value * m.pay_multiplier <= m.current_bid * m.pay_multiplier) by (nonlinear_arith)
            requires
                value <= m.current_bid,
        ;
        lemma_update_bid(m.paid, s, value, env.caller, env.now);
    }
}

proof fn lemma_cancel(m: AuctionModel, env: Env)
    requires
        m.wf(),
        cancel_error(m, env) is None,
    ensures
        accounted(m.paid, cancel_step(m, env)),
        cancel_step(m, env).state.deadline >= m.deadline,
        cancel_step(m, env).state.received == m.received,
{
    let rej = env.rejecting@;
    if env.caller == m.client {
        let refund = if m.is_open(env.now) { m.current_bid as int } else { m.payout() };
        let s = transfer_or_terminate(start(m), refund, m.contractor, rej);
        lemma_transfer(m.paid, start(m), refund, m.contractor, rej);
        lemma_terminate(m.paid, s, m.client);
    } else if env.caller == m.contractor {
        let s = if m.is_open(env.now) {
            transfer_or_terminate(start(m), m.current_bid as int, m.contractor, rej)
        } else {
            start(m)
        };
        if m.is_open(env.now) {
            lemma_transfer(m.paid, start(m), m.current_bid as int, m.contractor, rej);
        }
        if !s.state.terminated {
            lemma_reset_bid_payout(s.state.balance as int, m.pay_multiplier);
            lemma_update_bid(m.paid, s, reset_bid(s.state.balance as int, m.pay_multiplier), m.client, env.now);
        }
    }
}

proof fn lemma_confirm(m: AuctionModel, env: Env, value: bool)
    requires
        m.wf(),
        confirm_error(m, env) is None,
    ensures
        accounted(m.paid, confirm_step(m, env, value)),
        confirm_step(m, env, value).state.deadline == m.deadline,
        confirm_step(m, env, value).state.received == m.received,
{
    let rej = env.rejecting@;
    let source = env.caller;
    let s0 = if source == m.client || source == m.contractor {
        emit(with_state(start(m), recorded(m, source, value)), crate::types::Event::Confirm(crate::types::Confirm { value, source }))
    } else {
        start(m)
    };
    let c = s0.state;
    if mutually_confirmed(c) {
        let s1 = transfer_or_terminate(s0, c.payout(), c.contractor, rej);
        lemma_transfer(m.paid, s0, c.payout(), c.contractor, rej);
        lemma_terminate(m.paid, s1, c.client);
    } else if jury_decides(c, source) {
        let e = emit(s0, crate::types::Event::Confirm(crate::types::Confirm { value, source }));
        let s1 = transfer_or_terminate(e, c.current_bid as int, c.jury, rej);
        lemma_transfer(m.paid, e, c.current_bid as int, c.jury, rej);
        let s2 = if value { transfer_or_terminate(s1, c.payout(), c.contractor, rej) } else { s1 };
        if value {
            lemma_transfer(m.paid, s1, c.payout(), c.contractor, rej);
        }
        lemma_terminate(m.paid, s2, c.client);
    }
}

proof fn lemma_apply(m: AuctionModel, env: Env, call: Call)
    requires
        m.wf(),
    ensures
        accounted(m.paid, apply(m, env, call)),
        apply(m, env, call).state.deadline >= m.deadline,
        apply(m, env, call).state.received == m.received + deposit(m, env, call),
{
    if call_error(m, env, call) is None {
        match call {
            Call::Bid(value) => lemma_bid(m, env, value),
            Call::Cancel => lemma_cancel(m, env),
            Call::Confirm(value) => lemma_confirm(m, env, value),
            Call::ExtendDeadline(_) => {},
        }
    }
}

/// Every accepted bid lies strictly between half and 99 hundredths of the
/// bid it replaces, and, unless refunding the outgoing bidder settled the
/// auction, becomes the current bid.
pub proof fn accepted_bid_within_band(m: AuctionModel, env: Env, value: Balance)
    requires
        m.wf(),
        bid_error(m, env, value) is None,
    ensures
        in_band(value as int, m.current_bid as int),
        !bid_step(m, env, value).state.terminated ==> {
            &&& bid_step(m, env, value).state.current_bid == value
            &&& in_band(bid_step(m, env, value).state.current_bid as int, m.current_bid as int)
        },
{
    lemma_bid(m, env, value);
}

/// Each call keeps the auction's invariant, moves its deadline no earlier,
/// and pays out exactly the value by which the escrow shrank plus what the
/// call brought in.
pub proof fn call_keeps_invariant(m: AuctionModel, env: Env, call: Call)
    requires
        m.wf(),
    ensures
        apply(m, env, call).state.wf(),
        apply(m, env, call).state.deadline >= m.deadline,
        total(apply(m, env, call).payments) + apply(m, env, call).state.balance == m.balance + deposit(m, env, call),
{
    lemma_apply(m, env, call);
}

/// Over any sequence of calls the deadline never moves earlier, and the
/// invariant holds throughout.
pub proof fn deadline_never_decreases(m: AuctionModel, calls: Seq<(Env, Call)>)
    requires
        m.wf(),
    ensures
        run(m, calls).wf(),
        run(m, calls).deadline >= m.deadline,
    decreases calls.len(),
{
    if calls.len() > 0 {
        lemma_apply(m, calls[0].0, calls[0].1);
        deadline_never_decreases(apply(m, calls[0].0, calls[0].1).state, calls.drop_first());
    }
}

/// Over any sequence of calls, what is paid out plus what stays in escrow is
/// what was there plus what came in; once settled, everything that came in
/// has been paid out, the jury's fee included.
pub proof fn value_is_conserved(m: AuctionModel, calls: Seq<(Env, Call)>)
    requires
        m.wf(),
    ensures
        total(run_payments(m, calls)) + run(m, calls).balance == m.balance + run_deposits(m, calls),
        run(m, calls).terminated ==> total(run_payments(m, calls)) == m.balance + run_deposits(m, calls),
    decreases calls.len(),
{
    if calls.len() > 0 {
        let s = apply(m, calls[0].0, calls[0].1);
        lemma_apply(m, calls[0].0, calls[0].1);
        value_is_conserved(s.state, calls.drop_first());
        lemma_total_concat(s.payments, run_payments(s.state, calls.drop_first()));
    }
}

/// From its creation on, an auction pays out exactly its endowment plus the
/// bids that came in, less what it still holds; once settled, all of it.
pub proof fn lifetime_conservation(
    env: Env,
    description: Seq<char>,
    pay_multiplier: u8,
    jury: AccountId,
    duration: Timestamp,
    extension: Timestamp,
    endowment: Balance,
    calls: Seq<(Env, Call)>,
)
    requires
        new_error(pay_multiplier, env.now, duration) is None,
    ensures
        ({
            let m = new_model(env, description, pay_multiplier, jury, duration, extension, endowment);
            &&& total(run_payments(m, calls)) + run(m, calls).balance == endowment + run_deposits(m, calls)
            &&& run(m, calls).terminated ==> total(run_payments(m, calls)) == endowment + run_deposits(m, calls)
        }),
{
    let m = new_model(env, description, pay_multiplier, jury, duration, extension, endowment);
    lemma_reset_bid_payout(endowment as int, pay_multiplier);
    value_is_conserved(m, calls);
}

/// A confirmation before the deadline has passed is refused, whoever calls,
/// and changes nothing.
pub proof fn early_confirm_refused(m: AuctionModel, env: Env, value: bool)
    requires
        env.now <= m.deadline,
    ensures
        confirm_error(m, env) is Some,
        apply(m, env, Call::Confirm(value)) == start(m),
{
}

/// Once both client and contractor have confirmed, the contractor is paid
/// `current_bid * pay_multiplier` where the escrow and the ledger allow it,
/// else gets everything, and the auction settles.
pub proof fn mutual_confirmation_settles(m: AuctionModel, env: Env, value: bool)
    requires
        m.wf(),
        confirm_error(m, env) is None,
        mutually_confirmed(recorded(m, env.caller, value)),
    ensures
        ({
            let c = recorded(m, env.caller, value);
            let s = confirm_step(m, env, value);
            &&& s.state.terminated
            &&& s.payments.len() >= 1
            &&& s.payments[0].to == c.contractor
            &&& (m.payout() <= m.balance && !env.rejecting@.contains(c.contractor)) ==> s.payments == seq![
                Payment { to: c.contractor, amount: m.payout() as Balance },
                Payment { to: c.client, amount: (m.balance - m.payout()) as Balance },
            ]
            &&& !(m.payout() <= m.balance && !env.rejecting@.contains(c.contractor)) ==>
                s.payments == seq![Payment { to: c.contractor, amount: m.balance }]
        }),
{
}

/// A confirmation pays out or settles only on mutual confirmation, or on
/// the jury's word where the contractor confirmed and the client denied;
/// in that case the jury takes the current bid as its fee first, and the
/// auction settles.
pub proof fn jury_breaks_only_ties(m: AuctionModel, env: Env, value: bool)
    requires
        m.wf(),
        confirm_error(m, env) is None,
    ensures
        ({
            let c = recorded(m, env.caller, value);
            let s = confirm_step(m, env, value);
            &&& (s.state.terminated || s.payments.len() > 0) ==> (mutually_confirmed(c) || jury_decides(c, env.caller))
            &&& jury_decides(c, env.caller) ==> {
                &&& s.state.terminated
                &&& s.payments[0].to == m.jury
                &&& (m.current_bid <= m.balance && !env.rejecting@.contains(m.jury)) ==>
                    s.payments[0].amount == m.current_bid
            }
        }),
{
}

} // verus!
