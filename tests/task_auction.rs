use decentralized_task_auction::task_auction::TaskAuction;
use decentralized_task_auction::types::{
    AccountId, AuctionError, Bid, Confirm, Dispute, Env, Event, Extend, Payment,
};

const BLOCK_DURATION: u64 = 5;

const ALICE: AccountId = AccountId(1);
const BOB: AccountId = AccountId(2);
const CHARLIE: AccountId = AccountId(3);
const DAVE: AccountId = AccountId(4);
const EVE: AccountId = AccountId(5);

fn env(caller: AccountId, now: u64) -> Env {
    Env { caller, now, rejecting: vec![] }
}

fn env_rejecting(caller: AccountId, now: u64, rejecting: Vec<AccountId>) -> Env {
    Env { caller, now, rejecting }
}

/// An auction whose client is Alice and whose jury is Bob, opened at time 0.
fn new_task_auction(endowment: u128, pay_multiplier: u8, duration: u64, extension: u64) -> TaskAuction {
    TaskAuction::new(
        &env(ALICE, 0),
        "task descripton".to_string(),
        pay_multiplier,
        BOB,
        duration,
        extension,
        endowment,
    )
    .unwrap()
}

fn paid(payments: &[Payment]) -> u128 {
    payments.iter().map(|p| p.amount).sum()
}

#[test]
fn pay_multiplier_overflow() {
    let r = TaskAuction::new(&env(ALICE, 0), "test desc".to_string(), 255, AccountId(32), 0, 0, 0);
    assert_eq!(r.err(), Some(AuctionError::PayMultiplierOverflow));
}

#[test]
fn pay_multiplier_zero_rejected() {
    let r = TaskAuction::new(&env(ALICE, 0), "test desc".to_string(), 0, BOB, 5, 0, 100);
    assert_eq!(r.err(), Some(AuctionError::PayMultiplierZero));
}

#[test]
fn deadline_overflow_rejected() {
    let r = TaskAuction::new(&env(ALICE, u64::MAX), "test desc".to_string(), 1, BOB, 1, 0, 100);
    assert_eq!(r.err(), Some(AuctionError::TimeOverflow));
}

#[test]
fn bid_jury_reject() {
    let mut task_auction = new_task_auction(100, 1, BLOCK_DURATION, 0);
    assert_eq!(task_auction.get_current_bid(), 50);
    let r = task_auction.bid(&env(BOB, 0), 49);
    assert_eq!(r.err(), Some(AuctionError::JuryCannotBid));
    assert_eq!(task_auction.get_current_bid(), 50);
}

#[test]
fn bid_below_increment() {
    let mut task_auction = new_task_auction(100, 1, BLOCK_DURATION, 0);
    assert_eq!(task_auction.get_current_bid(), 50);
    let r = task_auction.bid(&env(CHARLIE, 0), 50);
    assert_eq!(r.err(), Some(AuctionError::BidTooHigh));
}

#[test]
fn bid_devalue_reject() {
    let mut task_auction = new_task_auction(100, 1, BLOCK_DURATION, 0);
    assert_eq!(task_auction.get_current_bid(), 50);
    let r = task_auction.bid(&env(CHARLIE, 0), 10);
    assert_eq!(r.err(), Some(AuctionError::BidTooLow));
}

#[test]
fn bid_closed() {
    let mut task_auction = new_task_auction(1000, 1, BLOCK_DURATION, 0);
    let r = task_auction.bid(&env(BOB, 2 * BLOCK_DURATION), 0);
    assert_eq!(r.err(), Some(AuctionError::Closed));
}

#[test]
fn bid_at_band_edges() {
    // 2 * 26 > 50 and 100 * 49 < 99 * 50; 25 and 50 fall outside.
    let mut a = new_task_auction(100, 1, BLOCK_DURATION, 0);
    assert_eq!(a.bid(&env(CHARLIE, 0), 25).err(), Some(AuctionError::BidTooLow));
    assert!(a.bid(&env(CHARLIE, 0), 26).is_ok());
    let mut b = new_task_auction(100, 1, BLOCK_DURATION, 0);
    assert!(b.bid(&env(CHARLIE, 0), 49).is_ok());
    assert_eq!(b.get_current_bid(), 49);
}

#[test]
fn leader_cannot_outbid_itself() {
    let mut a = new_task_auction(1000, 1, BLOCK_DURATION, 0);
    assert!(a.bid(&env(CHARLIE, 0), 400).is_ok());
    assert_eq!(a.bid(&env(CHARLIE, 0), 300).err(), Some(AuctionError::AlreadyLeading));
    // The client leads until the first bid.
    let mut b = new_task_auction(1000, 1, BLOCK_DURATION, 0);
    assert_eq!(b.bid(&env(ALICE, 0), 300).err(), Some(AuctionError::AlreadyLeading));
}

#[test]
fn bid_accepted_refunds_outgoing_leader() {
    let mut a = new_task_auction(1000, 1, BLOCK_DURATION, 0);
    assert_eq!(a.get_current_bid(), 500);
    let receipt = a.bid(&env(CHARLIE, 1), 300).unwrap();
    assert_eq!(receipt.payments, vec![Payment { to: ALICE, amount: 500 }]);
    assert_eq!(receipt.events, vec![Event::Bid(Bid { bid: 300, contractor: CHARLIE })]);
    assert_eq!(a.get_current_bid(), 300);
}

#[test]
fn bid_rally() {
    let mut a = new_task_auction(1000, 2, BLOCK_DURATION, 0);
    assert_eq!(a.get_current_bid(), 333);
    let r1 = a.bid(&env(CHARLIE, 0), 300).unwrap();
    assert_eq!(r1.payments, vec![Payment { to: ALICE, amount: 333 }]);
    let r2 = a.bid(&env(DAVE, 1), 250).unwrap();
    assert_eq!(r2.payments, vec![Payment { to: CHARLIE, amount: 300 }]);
    let r3 = a.bid(&env(EVE, 2), 200).unwrap();
    assert_eq!(r3.payments, vec![Payment { to: DAVE, amount: 250 }]);
    let r4 = a.bid(&env(CHARLIE, 3), 150).unwrap();
    assert_eq!(r4.payments, vec![Payment { to: EVE, amount: 200 }]);
    assert_eq!(a.get_current_bid(), 150);
    assert_eq!(a.bid(&env(DAVE, 4), 150).err(), Some(AuctionError::BidTooHigh));
}

#[test]
fn bid_extension() {
    let mut a = new_task_auction(1000, 1, 10, 8);
    // 3 + 8 = 11 is past the deadline 10: it moves.
    let r1 = a.bid(&env(CHARLIE, 3), 400).unwrap();
    assert_eq!(
        r1.events,
        vec![
            Event::Bid(Bid { bid: 400, contractor: CHARLIE }),
            Event::Extend(Extend { deadline: 11 }),
        ]
    );
    assert!(a.is_open(10));
    assert!(!a.is_open(11));
    // 2 + 8 = 10 is before the deadline 11: it stays.
    let r2 = a.bid(&env(DAVE, 2), 300).unwrap();
    assert_eq!(r2.events, vec![Event::Bid(Bid { bid: 300, contractor: DAVE })]);
    assert!(!a.is_open(11));
}

#[test]
fn no_bidders() {
    let endowment = 1000;
    let mut task_auction = new_task_auction(endowment, 1, BLOCK_DURATION, 0);
    assert!(task_auction.is_open(0));
    assert!(!task_auction.is_open(BLOCK_DURATION));
    let after = BLOCK_DURATION + 1;
    // non-clients are ignored
    let r1 = task_auction.confirm(&env(BOB, after), true).unwrap();
    let r2 = task_auction.confirm(&env(BOB, after), false).unwrap();
    assert!(r1.payments.is_empty() && r1.events.is_empty());
    assert!(r2.payments.is_empty() && r2.events.is_empty());
    // the client settles only on true
    let r3 = task_auction.confirm(&env(ALICE, after), false).unwrap();
    assert!(r3.payments.is_empty());
    let r4 = task_auction.confirm(&env(ALICE, after), true).unwrap();
    assert_eq!(paid(&r4.payments), endowment);
    assert!(r4.payments.iter().all(|p| p.to == ALICE));
    assert_eq!(r3.events.len() + r4.events.len(), 2);
    assert_eq!(task_auction.confirm(&env(ALICE, after), true).err(), Some(AuctionError::Terminated));
}

#[test]
fn confirm_before_deadline_refused_for_everyone() {
    let mut a = new_task_auction(1000, 1, BLOCK_DURATION, 0);
    assert!(a.bid(&env(CHARLIE, 0), 400).is_ok());
    for caller in [ALICE, BOB, CHARLIE, DAVE] {
        for now in [0, BLOCK_DURATION] {
            assert_eq!(a.confirm(&env(caller, now), true).err(), Some(AuctionError::DeadlineNotPassed));
        }
    }
    assert_eq!(a.get_current_bid(), 400);
}

#[test]
fn mutual_confirmation_pays_contractor() {
    let mut a = new_task_auction(1000, 1, BLOCK_DURATION, 0);
    assert!(a.bid(&env(CHARLIE, 0), 400).is_ok());
    let now = BLOCK_DURATION + 1;
    let r1 = a.confirm(&env(CHARLIE, now), true).unwrap();
    assert_eq!(
        r1.events,
        vec![Event::Confirm(Confirm { value: true, source: CHARLIE }), Event::Dispute(Dispute {})]
    );
    assert!(r1.payments.is_empty());
    let r2 = a.confirm(&env(ALICE, now), true).unwrap();
    // balance 1000 - 500 + 400 = 900: 400 to Charlie, 500 back to Alice
    assert_eq!(
        r2.payments,
        vec![Payment { to: CHARLIE, amount: 400 }, Payment { to: ALICE, amount: 500 }]
    );
    assert_eq!(a.cancel(&env(ALICE, now)).err(), Some(AuctionError::Terminated));
}

#[test]
fn failed_payout_settles_for_contractor() {
    let mut a = new_task_auction(1000, 1, BLOCK_DURATION, 0);
    assert!(a.bid(&env(CHARLIE, 0), 400).is_ok());
    let now = BLOCK_DURATION + 1;
    assert!(a.confirm(&env(CHARLIE, now), true).is_ok());
    let r = a.confirm(&env_rejecting(ALICE, now, vec![CHARLIE]), true).unwrap();
    assert_eq!(r.payments, vec![Payment { to: CHARLIE, amount: 900 }]);
    assert_eq!(a.bid(&env(DAVE, 0), 300).err(), Some(AuctionError::Terminated));
}

#[test]
fn failed_refund_settles_for_outgoing_leader() {
    let mut a = new_task_auction(1000, 1, BLOCK_DURATION, 0);
    let r = a.bid(&env_rejecting(CHARLIE, 0, vec![ALICE]), 400).unwrap();
    assert_eq!(r.payments, vec![Payment { to: ALICE, amount: 1400 }]);
    assert!(r.events.is_empty());
    assert_eq!(a.get_current_bid(), 500);
    assert!(!a.is_open(0));
}

#[test]
fn jury_breaks_tie_for_contractor() {
    let mut a = new_task_auction(1000, 2, BLOCK_DURATION, 0);
    assert!(a.bid(&env(CHARLIE, 0), 300).is_ok());
    let now = BLOCK_DURATION + 1;
    assert!(a.confirm(&env(CHARLIE, now), true).is_ok());
    assert!(a.confirm(&env(ALICE, now), false).is_ok());
    let r = a.confirm(&env(BOB, now), true).unwrap();
    // balance 1000 - 333 + 300 = 967: fee 300 to Bob, 600 to Charlie, 67 to Alice
    assert_eq!(
        r.payments,
        vec![
            Payment { to: BOB, amount: 300 },
            Payment { to: CHARLIE, amount: 600 },
            Payment { to: ALICE, amount: 67 },
        ]
    );
    assert_eq!(r.events, vec![Event::Confirm(Confirm { value: true, source: BOB })]);
}

#[test]
fn jury_breaks_tie_for_client() {
    let mut a = new_task_auction(1000, 2, BLOCK_DURATION, 0);
    assert!(a.bid(&env(CHARLIE, 0), 300).is_ok());
    let now = BLOCK_DURATION + 1;
    assert!(a.confirm(&env(CHARLIE, now), true).is_ok());
    assert!(a.confirm(&env(ALICE, now), false).is_ok());
    let r = a.confirm(&env(BOB, now), false).unwrap();
    assert_eq!(r.payments, vec![Payment { to: BOB, amount: 300 }, Payment { to: ALICE, amount: 667 }]);
}

#[test]
fn jury_waits_for_client_denial() {
    let mut a = new_task_auction(1000, 1, BLOCK_DURATION, 0);
    assert!(a.bid(&env(CHARLIE, 0), 400).is_ok());
    let now = BLOCK_DURATION + 1;
    // the jury's word before anyone confirmed does nothing
    let r0 = a.confirm(&env(BOB, now), true).unwrap();
    assert!(r0.payments.is_empty() && r0.events.is_empty());
    assert!(a.confirm(&env(CHARLIE, now), true).is_ok());
    // the client has not answered: a dispute, and no settlement
    let r1 = a.confirm(&env(BOB, now), true).unwrap();
    assert_eq!(r1.events, vec![Event::Dispute(Dispute {})]);
    assert!(r1.payments.is_empty());
    // a stranger cannot settle either
    let r2 = a.confirm(&env(DAVE, now), true).unwrap();
    assert!(r2.payments.is_empty());
    assert_eq!(a.get_current_bid(), 400);
}

#[test]
fn client_cancels_after_deadline() {
    let mut a = new_task_auction(330, 2, BLOCK_DURATION, 0);
    assert_eq!(a.get_current_bid(), 110);
    assert!(a.bid(&env(CHARLIE, 0), 100).is_ok());
    assert_eq!(a.get_current_bid(), 100);
    let r = a.cancel(&env(ALICE, BLOCK_DURATION)).unwrap();
    // balance 330 - 110 + 100 = 320: 200 to Charlie, 120 back to Alice
    assert_eq!(
        r.payments,
        vec![Payment { to: CHARLIE, amount: 200 }, Payment { to: ALICE, amount: 120 }]
    );
    assert_eq!(a.cancel(&env(ALICE, BLOCK_DURATION)).err(), Some(AuctionError::Terminated));
}

#[test]
fn client_cancels_while_open() {
    let mut a = new_task_auction(1000, 1, BLOCK_DURATION, 0);
    assert!(a.bid(&env(CHARLIE, 0), 400).is_ok());
    let r = a.cancel(&env(ALICE, 1)).unwrap();
    assert_eq!(
        r.payments,
        vec![Payment { to: CHARLIE, amount: 400 }, Payment { to: ALICE, amount: 500 }]
    );
}

#[test]
fn contractor_withdraws_while_open() {
    let mut a = new_task_auction(1000, 1, 10, 20);
    assert!(a.bid(&env(CHARLIE, 0), 400).is_ok());
    let r = a.cancel(&env(CHARLIE, 5)).unwrap();
    // 400 back; the ladder restarts from the 500 left: 250, led by Alice
    assert_eq!(r.payments, vec![Payment { to: CHARLIE, amount: 400 }]);
    assert_eq!(
        r.events,
        vec![
            Event::Bid(Bid { bid: 250, contractor: ALICE }),
            Event::Extend(Extend { deadline: 25 }),
        ]
    );
    assert_eq!(a.get_current_bid(), 250);
    assert!(a.bid(&env(DAVE, 6), 200).is_ok());
}

#[test]
fn contractor_withdraws_after_deadline() {
    let mut a = new_task_auction(1000, 1, BLOCK_DURATION, 0);
    assert!(a.bid(&env(CHARLIE, 0), 400).is_ok());
    let r = a.cancel(&env(CHARLIE, BLOCK_DURATION)).unwrap();
    // no refund after the deadline: 900 / 2 = 450
    assert!(r.payments.is_empty());
    assert_eq!(r.events, vec![Event::Bid(Bid { bid: 450, contractor: ALICE })]);
    assert_eq!(a.get_current_bid(), 450);
}

#[test]
fn stranger_cancel_is_ignored() {
    let mut a = new_task_auction(1000, 1, BLOCK_DURATION, 0);
    let r = a.cancel(&env(DAVE, 0)).unwrap();
    assert!(r.payments.is_empty() && r.events.is_empty());
    assert_eq!(a.get_current_bid(), 500);
    assert!(a.is_open(0));
}

#[test]
fn extend_deadline_rules() {
    let mut a = new_task_auction(1000, 1, BLOCK_DURATION, 0);
    assert_eq!(a.extend_deadline(&env(CHARLIE, 0), 5).err(), Some(AuctionError::NotClient));
    // closed, but nobody has bid: the client may still extend
    let (d, r) = a.extend_deadline(&env(ALICE, 7), 5).unwrap();
    assert_eq!(d, 10);
    assert_eq!(r.events, vec![Event::Extend(Extend { deadline: 10 })]);
    assert!(a.is_open(7));
    assert!(a.bid(&env(CHARLIE, 7), 400).is_ok());
    assert_eq!(a.extend_deadline(&env(ALICE, 10), 5).err(), Some(AuctionError::ClosedWithBidder));
    assert_eq!(a.extend_deadline(&env(ALICE, 9), u64::MAX).err(), Some(AuctionError::TimeOverflow));
    assert_eq!(a.extend_deadline(&env(ALICE, 9), 1).unwrap().0, 11);
}

#[test]
fn deadline_never_moves_back() {
    let mut a = new_task_auction(1000, 1, 10, 3);
    let mut deadline = 10;
    let bids: [(AccountId, u64, u128); 4] = [(CHARLIE, 1, 400), (DAVE, 9, 300), (EVE, 11, 200), (CHARLIE, 2, 150)];
    for (caller, now, value) in bids {
        let r = a.bid(&env(caller, now), value).unwrap();
        for e in r.events {
            if let Event::Extend(Extend { deadline: d }) = e {
                assert!(d > deadline);
                deadline = d;
            }
        }
    }
    assert_eq!(deadline, 14);
    assert!(a.is_open(13));
    assert!(!a.is_open(14));
}

#[test]
fn value_in_equals_value_out() {
    let endowment: u128 = 1000;
    let mut a = new_task_auction(endowment, 2, BLOCK_DURATION, 0);
    let mut out: u128 = 0;
    let mut deposits: u128 = 0;
    for (caller, value) in [(CHARLIE, 300u128), (DAVE, 250), (CHARLIE, 200)] {
        out += paid(&a.bid(&env(caller, 0), value).unwrap().payments);
        deposits += value;
    }
    let now = BLOCK_DURATION + 1;
    out += paid(&a.confirm(&env(CHARLIE, now), true).unwrap().payments);
    out += paid(&a.confirm(&env(ALICE, now), false).unwrap().payments);
    out += paid(&a.confirm(&env(BOB, now), true).unwrap().payments);
    assert_eq!(out, endowment + deposits);
}

#[test]
fn balance_overflow_rejected() {
    let mut a = new_task_auction(u128::MAX, 1, BLOCK_DURATION, 0);
    let half = u128::MAX / 2;
    assert_eq!(a.get_current_bid(), half);
    let r = a.bid(&env(CHARLIE, 0), half - half / 50);
    assert_eq!(r.err(), Some(AuctionError::BalanceOverflow));
}

#[test]
fn bid_time_overflow_rejected() {
    let mut a = TaskAuction::new(&env(ALICE, 0), "t".to_string(), 1, BOB, u64::MAX, 2, 1000).unwrap();
    let r = a.bid(&env(CHARLIE, u64::MAX - 1), 400);
    assert_eq!(r.err(), Some(AuctionError::TimeOverflow));
}
