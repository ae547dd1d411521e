use vstd::prelude::*;

verus! {

/// An amount of currency.
pub type Balance = u128;

/// A point in time, or a duration, in the clock's units.
pub type Timestamp = u64;

/// The identity of an account.
#[derive(Clone, Copy, Debug, PartialEq, Eq, Structural, Hash)]
pub struct AccountId(pub u64);

/// What the surroundings tell an operation: who calls, when, and which
/// accounts cannot take a transfer during this call.
pub struct Env {
    pub caller: AccountId,
    pub now: Timestamp,
    pub rejecting: Vec<AccountId>,
}

impl Env {
    /// Whether a transfer to `to` fails during this call.
    pub fn rejects(&self, to: AccountId) -> (r: bool)
        ensures
            r == self.rejecting@.contains(to),
    {
        let mut i: usize = 0;
        while i < self.rejecting.len()
            invariant
                i <= self.rejecting@.len(),
                forall|j: int| 0 <= j < i ==> self.rejecting@[j] != to,
            decreases self.rejecting@.len() - i,
        {
            if self.rejecting[i] == to {
                return true;
            }
            i = i + 1;
        }
        false
    }
}

/// A value transfer out of the auction's escrow.
#[derive(Clone, Copy, Debug, PartialEq, Eq, Structural)]
pub struct Payment {
    pub to: AccountId,
    pub amount: Balance,
}

/// A new leading bid, or the ladder reset to the client.
#[derive(Clone, Copy, Debug, PartialEq, Eq, Structural)]
pub struct Bid {
    pub bid: Balance,
    pub contractor: AccountId,
}

/// A confirmation, or the jury's verdict.
#[derive(Clone, Copy, Debug, PartialEq, Eq, Structural)]
pub struct Confirm {
    pub value: bool,
    pub source: AccountId,
}

/// The contractor confirmed and the client did not.
#[derive(Clone, Copy, Debug, PartialEq, Eq, Structural)]
pub struct Dispute {}

/// The deadline moved.
#[derive(Clone, Copy, Debug, PartialEq, Eq, Structural)]
pub struct Extend {
    pub deadline: Timestamp,
}

/// A notification for outside listeners.
#[derive(Clone, Copy, Debug, PartialEq, Eq, Structural)]
pub enum Event {
    Bid(Bid),
    Confirm(Confirm),
    Dispute(Dispute),
    Extend(Extend),
}

/// What one accepted call did: its transfers and its notifications, in order.
#[derive(Debug)]
pub struct Receipt {
    pub payments: Vec<Payment>,
    pub events: Vec<Event>,
}

impl Receipt {
    pub fn empty() -> (r: Receipt)
        ensures
            r.payments@ == Seq::<Payment>::empty(),
            r.events@ == Seq::<Event>::empty(),
    {
        Receipt { payments: Vec::new(), events: Vec::new() }
    }
}

/// Why a call was refused. A refused call changes nothing.
#[derive(Clone, Copy, Debug, PartialEq, Eq, Structural)]
pub enum AuctionError {
    /// The auction has already settled.
    Terminated,
    /// The pay multiplier is zero.
    PayMultiplierZero,
    /// The pay multiplier plus one does not fit its type.
    PayMultiplierOverflow,
    /// A point in time would not fit its type.
    TimeOverflow,
    /// The escrowed balance would not fit its type.
    BalanceOverflow,
    /// A bid came when the auction was not open.
    Closed,
    /// A bid of at most half the current bid.
    BidTooLow,
    /// A bid of at least 99 hundredths of the current bid.
    BidTooHigh,
    /// The jury may not bid.
    JuryCannotBid,
    /// The leading bidder may not outbid itself.
    AlreadyLeading,
    /// A confirmation before the deadline has passed.
    DeadlineNotPassed,
    /// Only the client may extend the deadline.
    NotClient,
    /// The deadline may not be extended once closed with a bidder.
    ClosedWithBidder,
}

} // verus!
