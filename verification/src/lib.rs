//! Economic core of a yield game: participants deposit currency, accrue a
//! virtual "bean" balance that grows over time, may compound ("bake") the
//! accrued reward back into their balance, or withdraw ("eat") it for a share
//! of the pooled funds, subject to fees, a decaying withdrawal tax, referral
//! bonuses and a lifetime payout ceiling.
//!
//! Every operation here is a pure state transition on plain values. The host
//! ledger's concerns — account storage, signatures, address derivation, the
//! clock, and the actual movement of funds — stay outside: handlers receive
//! the current time and balances as arguments and return the transfers the
//! host must execute atomically.

pub mod bake_beans;
pub mod buy_beans;
pub mod constants;
pub mod eat_beans;
pub mod error;
pub mod events;
pub mod identity;
pub mod init_user_state;
pub mod initialize;
pub mod laws;
pub mod states;
pub mod utils;
