//! An escrow and reverse auction that matches a task's client with a
//! contractor, with a jury that settles disputes.
//!
//! The chain environment of the auction (the caller, the clock, the ledger
//! that moves value) is handed to every operation as plain values, and every
//! operation returns the payments it made and the events it emitted.
//!
//! - `types`: accounts, amounts, the call environment, payments, events, errors.
//! - `model`: the auction's state as a mathematical record, and each
//!   operation as a transition on it.
//! - `task_auction`: the executable auction, proved to follow the model.
//! - `laws`: what holds over single calls and over any sequence of calls.
//! - `registry`: a list of task records that clients put up.

pub mod laws;
pub mod model;
pub mod registry;
pub mod task_auction;
pub mod types;
