//! Account identities, events and errors of the reputation ledger.
use vstd::prelude::*;

verus! {

/// An account identity as furnished by the host: already authenticated (for a
/// caller) or already resolved (for a target).
pub type AccountId = u64;

/// What a successful transition reports to the event sink.
#[derive(Clone, Copy, Debug, PartialEq, Eq, Structural)]
pub enum Event {
    /// Reputation increased: (by whom, for whom, requested amount).
    ReputationIncreased(AccountId, AccountId, u32),
    /// Reputation decreased: (by whom, for whom, requested amount).
    ReputationDecreased(AccountId, AccountId, u32),
}

/// Why a transition was rejected. A rejected transition changes nothing.
#[derive(Clone, Copy, Debug, PartialEq, Eq, Structural)]
pub enum Error {
    /// The requested change is zero.
    ReputationTooLow,
    /// The requested change exceeds the configured maximum.
    ReputationTooHigh,
}

} // verus!
