//! Time-locked inheritance vault on a note-based ledger.
//!
//! An owner locks an asset in a note that names a beneficiary and a deadline height. The note can
//! be consumed only by the beneficiary, and only once the ledger has reached the deadline.
//!
//! - [`condition`] states the rule that the condition script enforces.
//! - [`script`] compiles the script, and [`note`] builds the note and its identifier with the
//!   ledger's object library; [`serial`] draws the serial number.
//! - [`ledger`] is the local view of heights, balances and notes, with the ledger's rules for
//!   emitting and consuming a note.
//! - [`orchestrator`] sequences one submission, [`schedule`] estimates the wait for the
//!   deadline, and [`flow`] sequences the whole vault.
//!
//! The library performs no input or output. The caller talks to the ledger client and reports
//! what happened.

pub mod asset;
pub mod condition;
pub mod error;
pub mod flow;
pub mod identity;
pub mod ledger;
pub mod note;
pub mod orchestrator;
pub mod schedule;
pub mod script;
pub mod serial;
pub mod word;
