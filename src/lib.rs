//! Reputation ledger: a per-account, non-negative reputation score that an
//! authenticated caller may raise or lower within a configured bound.
//!
//! The host runtime authenticates the caller, resolves the target account,
//! serialises calls and delivers events; this crate holds the ledger, checks
//! each requested change and records one event per successful change.

pub mod bounds;
pub mod ledger;
pub mod pallet;
pub mod types;

pub use bounds::{change_bounds, validate_reputation_change};
pub use ledger::{score_of, Reputations};
pub use pallet::{decreased_score, increased_score, Config, Pallet};
pub use types::{AccountId, Error, Event};
