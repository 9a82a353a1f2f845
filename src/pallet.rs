//! The two ledger transitions, increase and decrease.
//!
//! Policies, fixed here:
//! - an increase saturates at `u32::MAX` rather than wrapping;
//! - a decrease never goes below zero, and an account with no entry is read as
//!   score 0, so decreasing it succeeds and stores a zero entry.
use vstd::prelude::*;

use crate::bounds::{change_bounds, validate_reputation_change};
use crate::ledger::{score_of, Reputations};
use crate::types::{AccountId, Error, Event};

verus! {

/// Score `s` raised by `m`, capped at the largest representable score.
pub open spec fn increased_score(s: u32, m: u32) -> u32 {
    if s + m > u32::MAX {
        u32::MAX
    } else {
        (s + m) as u32
    }
}

/// Score `s` lowered by `m`, floored at zero.
pub open spec fn decreased_score(s: u32, m: u32) -> u32 {
    if s <= m {
        0
    } else {
        (s - m) as u32
    }
}

/// Configuration fixed when the ledger is set up.
#[derive(Clone, Copy, Debug, PartialEq, Eq, Structural)]
pub struct Config {
    /// The largest change that one transition may request.
    pub max_reputation_change: u32,
}

/// The reputation ledger together with its configuration and the events that
/// successful transitions have emitted, oldest first.
pub struct Pallet {
    config: Config,
    reputations: Reputations,
    events: Vec<Event>,
}

impl Pallet {
    /// The configured maximum change.
    pub closed spec fn max_change(&self) -> u32 {
        self.config.max_reputation_change
    }

    /// The stored scores.
    pub closed spec fn ledger(&self) -> Map<AccountId, u32> {
        self.reputations@
    }

    /// The events emitted so far, oldest first.
    pub closed spec fn event_log(&self) -> Seq<Event> {
        self.events@
    }

    /// A ledger with no entries and no events.
    pub fn new(config: Config) -> (r: Pallet)
        ensures
            r.max_change() == config.max_reputation_change,
            r.ledger() == Map::<AccountId, u32>::empty(),
            r.event_log() == Seq::<Event>::empty(),
    {
        Pallet { config, reputations: Reputations::new(), events: Vec::new() }
    }

    /// Raises the score of `target` by `reputation` on behalf of `origin`.
    ///
    /// Fails, changing nothing, when `reputation` is 0 or above the configured
    /// maximum. Otherwise stores the raised score (an absent entry counts as 0;
    /// the sum saturates at `u32::MAX`) and emits one `ReputationIncreased`.
    pub fn increase_reputation(&mut self, origin: AccountId, target: AccountId, reputation: u32)
        -> (r: Result<(), Error>)
        ensures
            r == change_bounds(reputation, old(self).max_change()),
            final(self).max_change() == old(self).max_change(),
            r is Ok ==> final(self).ledger() == old(self).ledger().insert(
                target,
                increased_score(score_of(old(self).ledger(), target), reputation),
            ),
            r is Ok ==> final(self).event_log() == old(self).event_log().push(
                Event::ReputationIncreased(origin, target, reputation),
            ),
            r is Err ==> final(self).ledger() == old(self).ledger(),
            r is Err ==> final(self).event_log() == old(self).event_log(),
            // any change within bounds that does not overflow adds exactly that much
            1 <= reputation <= old(self).max_change() && score_of(old(self).ledger(), target)
                + reputation <= u32::MAX ==> r is Ok && score_of(final(self).ledger(), target)
                == score_of(old(self).ledger(), target) + reputation,
            reputation == 0 ==> r == Err::<(), Error>(Error::ReputationTooLow),
            reputation > old(self).max_change() ==> r == Err::<(), Error>(
                Error::ReputationTooHigh,
            ),
    {
        validate_reputation_change(reputation, self.config.max_reputation_change)?;
        let current = self.reputations.score(target);
        let new_score = current.saturating_add(reputation);
        self.reputations.insert(target, new_score);
        self.events.push(Event::ReputationIncreased(origin, target, reputation));
        Ok(())
    }

    /// Lowers the score of `target` by `reputation` on behalf of `origin`.
    ///
    /// Fails, changing nothing, when `reputation` is 0 or above the configured
    /// maximum. Otherwise stores the lowered score, floored at 0 (an absent
    /// entry counts as 0), and emits one `ReputationDecreased` carrying the
    /// requested amount.
    pub fn decrease_reputation(&mut self, origin: AccountId, target: AccountId, reputation: u32)
        -> (r: Result<(), Error>)
        ensures
            r == change_bounds(reputation, old(self).max_change()),
            final(self).max_change() == old(self).max_change(),
            r is Ok ==> final(self).ledger() == old(self).ledger().insert(
                target,
                decreased_score(score_of(old(self).ledger(), target), reputation),
            ),
            r is Ok ==> final(self).event_log() == old(self).event_log().push(
                Event::ReputationDecreased(origin, target, reputation),
            ),
            r is Err ==> final(self).ledger() == old(self).ledger(),
            r is Err ==> final(self).event_log() == old(self).event_log(),
            reputation == 0 ==> r == Err::<(), Error>(Error::ReputationTooLow),
            reputation > old(self).max_change() ==> r == Err::<(), Error>(
                Error::ReputationTooHigh,
            ),
            // within bounds: exact subtraction when the score covers it, else zero
            r is Ok && score_of(old(self).ledger(), target) >= reputation ==> score_of(
                final(self).ledger(),
                target,
            ) == score_of(old(self).ledger(), target) - reputation,
            r is Ok && score_of(old(self).ledger(), target) < reputation ==> score_of(
                final(self).ledger(),
                target,
            ) == 0,
            // an account with no entry is read as 0: the decrease succeeds and stores 0
            1 <= reputation <= old(self).max_change() && !old(self).ledger().contains_key(target)
                ==> r is Ok && final(self).ledger().contains_key(target) && final(self).ledger()[target]
                == 0,
    {
        validate_reputation_change(reputation, self.config.max_reputation_change)?;
        let current = self.reputations.score(target);
        let new_score = if current <= reputation {
            0
        } else {
            current - reputation
        };
        self.reputations.insert(target, new_score);
        self.events.push(Event::ReputationDecreased(origin, target, reputation));
        Ok(())
    }

    /// The configured maximum change.
    pub fn max_reputation_change(&self) -> (r: u32)
        ensures
            r == self.max_change(),
    {
        self.config.max_reputation_change
    }

    /// The stored entry of `who`, if any; `None` for an account never touched.
    pub fn reputations(&self, who: AccountId) -> (r: Option<u32>)
        ensures
            r == (if self.ledger().contains_key(who) {
                Some(self.ledger()[who])
            } else {
                None::<u32>
            }),
    {
        self.reputations.get(who)
    }

    /// The score of `who`, reading an absent entry as 0.
    pub fn reputation_of(&self, who: AccountId) -> (r: u32)
        ensures
            r == score_of(self.ledger(), who),
    {
        self.reputations.score(who)
    }

    /// The events emitted so far, oldest first.
    pub fn events(&self) -> (r: &Vec<Event>)
        ensures
            r@ == self.event_log(),
    {
        &self.events
    }
}

} // verus!
