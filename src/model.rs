use vstd::prelude::*;
use crate::types::{AccountId, AuctionError, Balance, Bid, Confirm, Dispute, Env, Event, Extend, Payment, Timestamp};

verus! {

/// The state of one auction, as a mathematical record.
pub struct AuctionModel {
    pub description: Seq<char>,
    pub pay_multiplier: u8,
    pub current_bid: Balance,
    pub contractor: AccountId,
    pub client: AccountId,
    pub jury: AccountId,
    pub deadline: Timestamp,
    pub extension: Timestamp,
    pub contractor_confirm: Option<bool>,
    pub client_confirm: Option<bool>,
    /// The value the auction holds in escrow.
    pub balance: Balance,
    pub terminated: bool,
    /// All value that ever came in.
    pub received: nat,
    /// All value that ever went out.
    pub paid: nat,
}

impl AuctionModel {
    pub open spec fn wf(self) -> bool {
        &&& 1 <= self.pay_multiplier < 255
        &&& self.current_bid * self.pay_multiplier <= u128::MAX
        &&& self.paid + self.balance == self.received
        &&& self.terminated ==> self.balance == 0
    }

    pub open spec fn is_open(self, now: Timestamp) -> bool {
        !self.terminated && now < self.deadline
    }

    /// What the contractor is owed once the task is done.
    pub open spec fn payout(self) -> int {
        self.current_bid * self.pay_multiplier
    }
}

/// The state after part of a call, with the payments and events so far.
pub struct Step {
    pub state: AuctionModel,
    pub payments: Seq<Payment>,
    pub events: Seq<Event>,
}

/// A call that has done nothing yet.
pub open spec fn start(m: AuctionModel) -> Step {
    Step { state: m, payments: seq![], events: seq![] }
}

pub open spec fn emit(s: Step, e: Event) -> Step {
    Step { events: s.events.push(e), ..s }
}

pub open spec fn with_state(s: Step, m: AuctionModel) -> Step {
    Step { state: m, ..s }
}

/// Settles the auction: everything left goes to `to`.
pub open spec fn terminate(s: Step, to: AccountId) -> Step {
    if s.state.terminated {
        s
    } else {
        Step {
            state: AuctionModel {
                balance: 0,
                paid: s.state.paid + s.state.balance as nat,
                terminated: true,
                ..s.state
            },
            payments: s.payments.push(Payment { to, amount: s.state.balance }),
            ..s
        }
    }
}

/// Pays `amount` to `to`; where the ledger refuses, settles in favour of `to`.
pub open spec fn transfer_or_terminate(s: Step, amount: int, to: AccountId, rejecting: Seq<AccountId>) -> Step {
    if s.state.terminated {
        s
    } else if amount <= s.state.balance && !rejecting.contains(to) {
        Step {
            state: AuctionModel {
                balance: (s.state.balance - amount) as Balance,
                paid: s.state.paid + amount as nat,
                ..s.state
            },
            payments: s.payments.push(Payment { to, amount: amount as Balance }),
            ..s
        }
    } else {
        terminate(s, to)
    }
}

/// `now + extension`, the deadline that a new bid asks for.
pub open spec fn extended(m: AuctionModel, now: Timestamp) -> int {
    now + m.extension
}

/// Makes `contractor` the leader at `bid`, clears the confirmations and
/// pushes the deadline to `now + extension` where that is later.
pub open spec fn update_bid(s: Step, bid: Balance, contractor: AccountId, now: Timestamp) -> Step {
    let m = AuctionModel {
        current_bid: bid,
        contractor,
        contractor_confirm: None,
        client_confirm: None,
        ..s.state
    };
    let s1 = emit(with_state(s, m), Event::Bid(Bid { bid, contractor }));
    let d = extended(s.state, now);
    if d > s.state.deadline {
        emit(
            with_state(s1, AuctionModel { deadline: d as Timestamp, ..m }),
            Event::Extend(Extend { deadline: d as Timestamp }),
        )
    } else {
        s1
    }
}

/// The bid that the ladder starts from: the balance split into a bid and
/// `pay_multiplier` shares of it.
pub open spec fn reset_bid(balance: int, pay_multiplier: u8) -> Balance {
    (balance / (pay_multiplier + 1)) as Balance
}

/// The starting bid leaves room for the payout: `bid * pay_multiplier <= balance`.
pub proof fn lemma_reset_bid_payout(balance: int, pay_multiplier: u8)
    requires
        0 <= balance <= u128::MAX,
        1 <= pay_multiplier < 255,
    ensures
        reset_bid(balance, pay_multiplier) * pay_multiplier <= balance,
{
    let d = pay_multiplier + 1;
    let q = balance / d;
    vstd::arithmetic::div_mod::lemma_fundamental_div_mod(balance, d);
    vstd::arithmetic::div_mod::lemma_div_pos_is_pos(balance, d);
    assert(q * pay_multiplier <= q * d) by (nonlinear_arith)
        requires
            q >= 0,
            d == pay_multiplier + 1,
    ;
    assert(q * d <= balance) by (nonlinear_arith)
        requires
            balance == d * q + balance % d,
            balance % d >= 0,
    ;
    assert(reset_bid(balance, pay_multiplier) == q);
}

pub open spec fn new_error(pay_multiplier: u8, now: Timestamp, duration: Timestamp) -> Option<AuctionError> {
    if pay_multiplier == 0 {
        Some(AuctionError::PayMultiplierZero)
    } else if pay_multiplier == 255 {
        Some(AuctionError::PayMultiplierOverflow)
    } else if now + duration > u64::MAX {
        Some(AuctionError::TimeOverflow)
    } else {
        None
    }
}

/// A new auction, funded with `endowment` by its client, the caller.
pub open spec fn new_model(
    env: Env,
    description: Seq<char>,
    pay_multiplier: u8,
    jury: AccountId,
    duration: Timestamp,
    extension: Timestamp,
    endowment: Balance,
) -> AuctionModel {
    AuctionModel {
        description,
        pay_multiplier,
        current_bid: reset_bid(endowment as int, pay_multiplier),
        contractor: env.caller,
        client: env.caller,
        jury,
        deadline: (env.now + duration) as Timestamp,
        extension,
        contractor_confirm: None,
        client_confirm: None,
        balance: endowment,
        terminated: false,
        received: endowment as nat,
        paid: 0,
    }
}

/// Whether the ratio `2 * value > current_bid` and `100 * value < 99 * current_bid` hold.
pub open spec fn in_band(value: int, current_bid: int) -> bool {
    2 * value > current_bid && 100 * value < 99 * current_bid
}

pub open spec fn bid_error(m: AuctionModel, env: Env, value: Balance) -> Option<AuctionError> {
    if m.terminated {
        Some(AuctionError::Terminated)
    } else if !m.is_open(env.now) {
        Some(AuctionError::Closed)
    } else if 2 * value <= m.current_bid {
        Some(AuctionError::BidTooLow)
    } else if 100 * value >= 99 * m.current_bid {
        Some(AuctionError::BidTooHigh)
    } else if env.caller == m.jury {
        Some(AuctionError::JuryCannotBid)
    } else if env.caller == m.contractor {
        Some(AuctionError::AlreadyLeading)
    } else if m.balance + value > u128::MAX {
        Some(AuctionError::BalanceOverflow)
    } else if extended(m, env.now) > u64::MAX {
        Some(AuctionError::TimeOverflow)
    } else {
        None
    }
}

/// An accepted bid: the value comes in, the outgoing contractor gets its bid
/// back, and the caller leads.
pub open spec fn bid_step(m: AuctionModel, env: Env, value: Balance) -> Step {
    let funded = AuctionModel {
        balance: (m.balance + value) as Balance,
        received: m.received + value as nat,
        ..m
    };
    let s = transfer_or_terminate(start(funded), m.current_bid as int, m.contractor, env.rejecting@);
    if s.state.terminated {
        s
    } else {
        update_bid(s, value, env.caller, env.now)
    }
}

pub open spec fn cancel_error(m: AuctionModel, env: Env) -> Option<AuctionError> {
    if m.terminated {
        Some(AuctionError::Terminated)
    } else if env.caller != m.client && env.caller == m.contractor && extended(m, env.now) > u64::MAX {
        Some(AuctionError::TimeOverflow)
    } else {
        None
    }
}

/// A cancellation. The client settles the auction: the contractor gets its
/// bid while open, the full payout after. The contractor withdraws: its bid
/// back while open, and the ladder starts again from the client. Anybody
/// else changes nothing.
pub open spec fn cancel_step(m: AuctionModel, env: Env) -> Step {
    if env.caller == m.client {
        let refund = if m.is_open(env.now) { m.current_bid as int } else { m.payout() };
        terminate(transfer_or_terminate(start(m), refund, m.contractor, env.rejecting@), m.client)
    } else if env.caller == m.contractor {
        let s = if m.is_open(env.now) {
            transfer_or_terminate(start(m), m.current_bid as int, m.contractor, env.rejecting@)
        } else {
            start(m)
        };
        if s.state.terminated {
            s
        } else {
            update_bid(s, reset_bid(s.state.balance as int, m.pay_multiplier), m.client, env.now)
        }
    } else {
        start(m)
    }
}

pub open spec fn confirm_error(m: AuctionModel, env: Env) -> Option<AuctionError> {
    if m.terminated {
        Some(AuctionError::Terminated)
    } else if env.now <= m.deadline {
        Some(AuctionError::DeadlineNotPassed)
    } else {
        None
    }
}

/// The confirmations after `source` has said `value`. With no bidder the
/// client is the contractor, and its word counts for both.
pub open spec fn recorded(m: AuctionModel, source: AccountId, value: bool) -> AuctionModel {
    if source == m.client {
        AuctionModel {
            client_confirm: Some(value),
            contractor_confirm: if m.contractor == m.client { Some(value) } else { m.contractor_confirm },
            ..m
        }
    } else if source == m.contractor {
        AuctionModel { contractor_confirm: Some(value), ..m }
    } else {
        m
    }
}

pub open spec fn mutually_confirmed(m: AuctionModel) -> bool {
    m.contractor_confirm == Some(true) && m.client_confirm == Some(true)
}

/// The contractor confirmed, the client denied, and the jury decides.
pub open spec fn jury_decides(m: AuctionModel, source: AccountId) -> bool {
    m.contractor_confirm == Some(true) && m.client_confirm == Some(false) && source == m.jury
}

/// A confirmation after the deadline, and the settlement it may bring.
pub open spec fn confirm_step(m: AuctionModel, env: Env, value: bool) -> Step {
    let source = env.caller;
    let s0 = if source == m.client || source == m.contractor {
        emit(with_state(start(m), recorded(m, source, value)), Event::Confirm(Confirm { value, source }))
    } else {
        start(m)
    };
    let c = s0.state;
    if mutually_confirmed(c) {
        terminate(transfer_or_terminate(s0, c.payout(), c.contractor, env.rejecting@), c.client)
    } else if jury_decides(c, source) {
        let s1 = transfer_or_terminate(
            emit(s0, Event::Confirm(Confirm { value, source })),
            c.current_bid as int,
            c.jury,
            env.rejecting@,
        );
        let s2 = if value { transfer_or_terminate(s1, c.payout(), c.contractor, env.rejecting@) } else { s1 };
        terminate(s2, c.client)
    } else if c.contractor_confirm == Some(true) {
        emit(s0, Event::Dispute(Dispute {}))
    } else {
        s0
    }
}

pub open spec fn extend_error(m: AuctionModel, env: Env, extension: Timestamp) -> Option<AuctionError> {
    if m.terminated {
        Some(AuctionError::Terminated)
    } else if env.caller != m.client {
        Some(AuctionError::NotClient)
    } else if !(m.is_open(env.now) || m.contractor == m.client) {
        Some(AuctionError::ClosedWithBidder)
    } else if m.deadline + extension > u64::MAX {
        Some(AuctionError::TimeOverflow)
    } else {
        None
    }
}

pub open spec fn extend_step(m: AuctionModel, extension: Timestamp) -> Step {
    let d = (m.deadline + extension) as Timestamp;
    emit(with_state(start(m), AuctionModel { deadline: d, ..m }), Event::Extend(Extend { deadline: d }))
}

} // verus!
