use vstd::prelude::*;
use crate::model::{
    bid_error, bid_step, cancel_error, cancel_step, confirm_error, confirm_step, extend_error,
    extend_step, new_error, new_model, lemma_reset_bid_payout, terminate, transfer_or_terminate, update_bid,
    AuctionModel, Step,
};
use crate::types::{
    AccountId, AuctionError, Balance, Bid, Confirm, Dispute, Env, Event, Extend, Receipt, Timestamp,
};

verus! {

/// One task's escrow and reverse auction.
pub struct TaskAuction {
    description: String,
    pay_multiplier: u8,
    current_bid: Balance,
    contractor: AccountId,
    client: AccountId,
    jury: AccountId,
    deadline: Timestamp,
    extension: Timestamp,
    contractor_confirm: Option<bool>,
    client_confirm: Option<bool>,
    balance: Balance,
    terminated: bool,
    received: Ghost<nat>,
    paid: Ghost<nat>,
}

impl View for TaskAuction {
    type V = AuctionModel;

    closed spec fn view(&self) -> AuctionModel {
        AuctionModel {
            description: self.description@,
            pay_multiplier: self.pay_multiplier,
            current_bid: self.current_bid,
            contractor: self.contractor,
            client: self.client,
            jury: self.jury,
            deadline: self.deadline,
            extension: self.extension,
            contractor_confirm: self.contractor_confirm,
            client_confirm: self.client_confirm,
            balance: self.balance,
            terminated: self.terminated,
            received: self.received@,
            paid: self.paid@,
        }
    }
}

/// A state together with what a call has done so far.
pub open spec fn outcome(state: AuctionModel, receipt: Receipt) -> Step {
    Step { state, payments: receipt.payments@, events: receipt.events@ }
}

/// Whether `100 * value < 99 * current_bid`, computed without overflow.
fn below_increment(value: Balance, current_bid: Balance) -> (r: bool)
    ensures
        r == (100 * value < 99 * current_bid),
{
    if value >= current_bid {
        false
    } else {
        let margin = current_bid - value;
        proof {
            vstd::arithmetic::div_mod::lemma_fundamental_div_mod(current_bid as int, 100);
        }
        margin > current_bid / 100
    }
}

impl TaskAuction {
    pub open spec fn wf(&self) -> bool {
        self@.wf()
    }

    /// Opens an auction for a task. The caller is the client and funds it
    /// with `endowment`; the ladder starts at
    /// `endowment / (pay_multiplier + 1)`, led by the client, and closes at
    /// `now + duration`.
    pub fn new(
        env: &Env,
        description: String,
        pay_multiplier: u8,
        jury: AccountId,
        duration: Timestamp,
        extension: Timestamp,
        endowment: Balance,
    ) -> (r: Result<TaskAuction, AuctionError>)
        ensures
            match r {
                Ok(a) => {
                    &&& new_error(pay_multiplier, env.now, duration) is None
                    &&& a@ == new_model(*env, description@, pay_multiplier, jury, duration, extension, endowment)
                    &&& a.wf()
                },
                Err(e) => new_error(pay_multiplier, env.now, duration) == Some(e),
            },
    {
        if pay_multiplier == 0 {
            return Err(AuctionError::PayMultiplierZero);
        }
        if pay_multiplier == 255 {
            return Err(AuctionError::PayMultiplierOverflow);
        }
        let deadline = match env.now.checked_add(duration) {
            Some(d) => d,
            None => return Err(AuctionError::TimeOverflow),
        };
        let current_bid = endowment / ((pay_multiplier + 1) as Balance);
        proof {
            lemma_reset_bid_payout(endowment as int, pay_multiplier);
        }
        Ok(TaskAuction {
            description,
            pay_multiplier,
            current_bid,
            contractor: env.caller,
            client: env.caller,
            jury,
            deadline,
            extension,
            contractor_confirm: None,
            client_confirm: None,
            balance: endowment,
            terminated: false,
            received: Ghost(endowment as nat),
            paid: Ghost(0),
        })
    }

    /// Whether bids are taken at `now`: not settled, and before the deadline.
    pub fn is_open(&self, now: Timestamp) -> (r: bool)
        ensures
            r == self@.is_open(now),
    {
        !self.terminated && now < self.deadline
    }

    pub fn get_current_bid(&self) -> (r: Balance)
        ensures
            r == self@.current_bid,
    {
        self.current_bid
    }

    /// Settles the auction in favour of `to`, who gets the whole balance.
    fn terminate(&mut self, to: AccountId, receipt: &mut Receipt)
        requires
            old(self).wf(),
        ensures
            final(self).wf(),
            outcome(final(self)@, *final(receipt)) == terminate(outcome(old(self)@, *old(receipt)), to),
    {
        if !self.terminated {
            receipt.payments.push(crate::types::Payment { to, amount: self.balance });
            self.paid = Ghost(self.paid@ + self.balance as nat);
            self.balance = 0;
            self.terminated = true;
        }
    }

    /// Pays `amount` to `to`. Where the ledger cannot (too little in escrow,
    /// or `to` takes nothing now), settles in favour of `to` instead, so that
    /// no value stays locked in.
    fn transfer_or_terminate(&mut self, amount: Balance, to: AccountId, env: &Env, receipt: &mut Receipt)
        requires
            old(self).wf(),
        ensures
            final(self).wf(),
            outcome(final(self)@, *final(receipt)) == transfer_or_terminate(
                outcome(old(self)@, *old(receipt)),
                amount as int,
                to,
                env.rejecting@,
            ),
    {
        if !self.terminated {
            if amount <= self.balance && !env.rejects(to) {
                receipt.payments.push(crate::types::Payment { to, amount });
                self.paid = Ghost(self.paid@ + amount as nat);
                self.balance = self.balance - amount;
            } else {
                self.terminate(to, receipt);
            }
        }
    }

    /// Makes `contractor` the leader at `bid`, clears both confirmations,
    /// and moves the deadline to `now + extension` where that is later.
    fn update_bid(&mut self, bid: Balance, contractor: AccountId, now: Timestamp, receipt: &mut Receipt)
        requires
            old(self).wf(),
            !old(self)@.terminated,
            now + old(self)@.extension <= u64::MAX,
            bid * old(self)@.pay_multiplier <= u128::MAX,
        ensures
            final(self).wf(),
            outcome(final(self)@, *final(receipt)) == update_bid(outcome(old(self)@, *old(receipt)), bid, contractor, now),
    {
        self.current_bid = bid;
        self.contractor = contractor;
        self.contractor_confirm = None;
        self.client_confirm = None;
        receipt.events.push(Event::Bid(Bid { bid, contractor }));
        let deadline = now + self.extension;
        if deadline > self.deadline {
            self.deadline = deadline;
            receipt.events.push(Event::Extend(Extend { deadline }));
        }
    }

    /// Bids `value` for the task, with `value` attached to the call.
    ///
    /// Refused unless the auction is open, `value` lies strictly between
    /// half and 99 hundredths of the current bid, and the caller is neither
    /// the jury nor the leader. Once accepted, the outgoing leader gets its
    /// bid back, and the caller leads at `value`.
    pub fn bid(&mut self, env: &Env, value: Balance) -> (r: Result<Receipt, AuctionError>)
        requires
            old(self).wf(),
        ensures
            final(self).wf(),
            match r {
                Ok(receipt) => {
                    &&& bid_error(old(self)@, *env, value) is None
                    &&& outcome(final(self)@, receipt) == bid_step(old(self)@, *env, value)
                },
                Err(e) => bid_error(old(self)@, *env, value) == Some(e) && final(self)@ == old(self)@,
            },
    {
        if self.terminated {
            return Err(AuctionError::Terminated);
        }
        if !self.is_open(env.now) {
            return Err(AuctionError::Closed);
        }
        if value <= self.current_bid / 2 {
            return Err(AuctionError::BidTooLow);
        }
        if !below_increment(value, self.current_bid) {
            return Err(AuctionError::BidTooHigh);
        }
        if env.caller == self.jury {
            return Err(AuctionError::JuryCannotBid);
        }
        if env.caller == self.contractor {
            return Err(AuctionError::AlreadyLeading);
        }
        let funded = match self.balance.checked_add(value) {
            Some(b) => b,
            None => return Err(AuctionError::BalanceOverflow),
        };
        if env.now.checked_add(self.extension).is_none() {
            return Err(AuctionError::TimeOverflow);
        }
        proof {
            assert(value * self.pay_multiplier <= self.current_bid * self.pay_multiplier) by (nonlinear_arith)
                requires
                    value <= self.current_bid,
            ;
        }
        self.balance = funded;
        self.received = Ghost(self.received@ + value as nat);
        let mut receipt = Receipt::empty();
        let refund = self.current_bid;
        let outgoing = self.contractor;
        self.transfer_or_terminate(refund, outgoing, env, &mut receipt);
        if !self.terminated {
            self.update_bid(value, env.caller, env.now, &mut receipt);
        }
        Ok(receipt)
    }

    /// Cancels, as the client or as the contractor; from anybody else a
    /// call that changes nothing.
    ///
    /// The client settles the auction: the contractor gets the current bid
    /// while the auction is open, and the full payout after the deadline,
    /// which counts as the task done; the rest goes to the client. Where the
    /// client still leads, the client is taken to cancel as client.
    ///
    /// The contractor withdraws: while open it gets its bid back; then the
    /// ladder starts again from the client at
    /// `balance / (pay_multiplier + 1)`.
    pub fn cancel(&mut self, env: &Env) -> (r: Result<Receipt, AuctionError>)
        requires
            old(self).wf(),
        ensures
            final(self).wf(),
            match r {
                Ok(receipt) => {
                    &&& cancel_error(old(self)@, *env) is None
                    &&& outcome(final(self)@, receipt) == cancel_step(old(self)@, *env)
                },
                Err(e) => cancel_error(old(self)@, *env) == Some(e) && final(self)@ == old(self)@,
            },
    {
        if self.terminated {
            return Err(AuctionError::Terminated);
        }
        let mut receipt = Receipt::empty();
        let contractor = self.contractor;
        let client = self.client;
        if env.caller == client {
            let refund = if self.is_open(env.now) {
                self.current_bid
            } else {
                self.current_bid * (self.pay_multiplier as Balance)
            };
            self.transfer_or_terminate(refund, contractor, env, &mut receipt);
            self.terminate(client, &mut receipt);
        } else if env.caller == contractor {
            if env.now.checked_add(self.extension).is_none() {
                return Err(AuctionError::TimeOverflow);
            }
            if self.is_open(env.now) {
                let refund = self.current_bid;
                self.transfer_or_terminate(refund, contractor, env, &mut receipt);
            }
            if !self.terminated {
                let bid = self.balance / ((self.pay_multiplier + 1) as Balance);
                proof {
                    lemma_reset_bid_payout(self.balance as int, self.pay_multiplier);
                }
                self.update_bid(bid, client, env.now, &mut receipt);
            }
        }
        Ok(receipt)
    }

    /// Confirms, after the deadline, that the task is done (`value`) or not.
    ///
    /// The client's and the contractor's words are recorded. Once both are
    /// true the contractor gets the payout and the rest goes to the client.
    /// Where the contractor said true and the client false, the jury decides:
    /// it takes the current bid as its fee, the contractor gets the payout
    /// if the jury says true, and the rest goes to the client. Where the
    /// contractor said true otherwise, a dispute is announced.
    pub fn confirm(&mut self, env: &Env, value: bool) -> (r: Result<Receipt, AuctionError>)
        requires
            old(self).wf(),
        ensures
            final(self).wf(),
            match r {
                Ok(receipt) => {
                    &&& confirm_error(old(self)@, *env) is None
                    &&& outcome(final(self)@, receipt) == confirm_step(old(self)@, *env, value)
                },
                Err(e) => confirm_error(old(self)@, *env) == Some(e) && final(self)@ == old(self)@,
            },
    {
        if self.terminated {
            return Err(AuctionError::Terminated);
        }
        if env.now <= self.deadline {
            return Err(AuctionError::DeadlineNotPassed);
        }
        let source = env.caller;
        let mut receipt = Receipt::empty();
        if source == self.client {
            self.client_confirm = Some(value);
            if self.contractor == self.client {
                self.contractor_confirm = Some(value);
            }
            receipt.events.push(Event::Confirm(Confirm { value, source }));
        } else if source == self.contractor {
            self.contractor_confirm = Some(value);
            receipt.events.push(Event::Confirm(Confirm { value, source }));
        }
        let contractor_yes = match self.contractor_confirm {
            Some(v) => v,
            None => false,
        };
        let client_yes = match self.client_confirm {
            Some(v) => v,
            None => false,
        };
        let client_no = match self.client_confirm {
            Some(v) => !v,
            None => false,
        };
        let contractor = self.contractor;
        let client = self.client;
        let jury = self.jury;
        let fee = self.current_bid;
        let payout = self.current_bid * (self.pay_multiplier as Balance);
        if contractor_yes && client_yes {
            self.transfer_or_terminate(payout, contractor, env, &mut receipt);
            self.terminate(client, &mut receipt);
        } else if contractor_yes && client_no && source == jury {
            receipt.events.push(Event::Confirm(Confirm { value, source }));
            self.transfer_or_terminate(fee, jury, env, &mut receipt);
            if value {
                self.transfer_or_terminate(payout, contractor, env, &mut receipt);
            }
            self.terminate(client, &mut receipt);
        } else if contractor_yes {
            receipt.events.push(Event::Dispute(Dispute {}));
        }
        Ok(receipt)
    }

    /// Moves the deadline `extension` later and returns it. Only the client
    /// may, and only while open or while nobody has outbid the client.
    pub fn extend_deadline(&mut self, env: &Env, extension: Timestamp) -> (r: Result<
        (Timestamp, Receipt),
        AuctionError,
    >)
        requires
            old(self).wf(),
        ensures
            final(self).wf(),
            match r {
                Ok((deadline, receipt)) => {
                    &&& extend_error(old(self)@, *env, extension) is None
                    &&& outcome(final(self)@, receipt) == extend_step(old(self)@, extension)
                    &&& deadline == final(self)@.deadline
                },
                Err(e) => extend_error(old(self)@, *env, extension) == Some(e) && final(self)@ == old(self)@,
            },
    {
        if self.terminated {
            return Err(AuctionError::Terminated);
        }
        if env.caller != self.client {
            return Err(AuctionError::NotClient);
        }
        if !(self.is_open(env.now) || self.contractor == self.client) {
            return Err(AuctionError::ClosedWithBidder);
        }
        let deadline = match self.deadline.checked_add(extension) {
            Some(d) => d,
            None => return Err(AuctionError::TimeOverflow),
        };
        self.deadline = deadline;
        let mut receipt = Receipt::empty();
        receipt.events.push(Event::Extend(Extend { deadline }));
        Ok((deadline, receipt))
    }
}

} // verus!
