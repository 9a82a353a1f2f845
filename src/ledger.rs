//! The authoritative mapping from account to reputation score.
use vstd::prelude::*;

use std::collections::HashMap;

use crate::types::AccountId;

verus! {

/// The score that `ledger` gives `who`: an account with no entry has score 0.
pub open spec fn score_of(ledger: Map<AccountId, u32>, who: AccountId) -> u32 {
    if ledger.contains_key(who) {
        ledger[who]
    } else {
        0
    }
}

/// A sparse store of scores. An absent account reads as score 0; an entry,
/// once written, is only ever overwritten, never removed.
pub struct Reputations {
    scores: HashMap<AccountId, u32>,
}

impl View for Reputations {
    type V = Map<AccountId, u32>;

    closed spec fn view(&self) -> Map<AccountId, u32> {
        self.scores@
    }
}

impl Reputations {
    /// An empty ledger.
    pub fn new() -> (r: Reputations)
        ensures
            r@ == Map::<AccountId, u32>::empty(),
    {
        Reputations { scores: HashMap::new() }
    }

    /// The stored entry of `who`, if any.
    pub fn get(&self, who: AccountId) -> (r: Option<u32>)
        ensures
            r == (if self@.contains_key(who) {
                Some(self@[who])
            } else {
                None::<u32>
            }),
    {
        match self.scores.get(&who) {
            Some(score) => Some(*score),
            None => None,
        }
    }

    /// The score of `who`, reading an absent entry as 0.
    pub fn score(&self, who: AccountId) -> (r: u32)
        ensures
            r == score_of(self@, who),
    {
        match self.get(who) {
            Some(score) => score,
            None => 0,
        }
    }

    /// Stores `score` for `who`, replacing any earlier entry.
    pub fn insert(&mut self, who: AccountId, score: u32)
        ensures
            final(self)@ == old(self)@.insert(who, score),
    {
        self.scores.insert(who, score);
    }
}

} // verus!
