//! The minimal reputation registry: fixed bounds, a fixed oracle address, and the
//! same score, eligibility and loan-limit views as the full registry.
use vstd::prelude::*;

use crate::address::Address;
use crate::reputation_score::{max_loan_amount, max_loan_amount_for, ReputationError, ScoreUpdated};
use crate::storage::KeyMap;

verus! {

/// The minimal registry's storage.
pub struct ReputationScore {
    /// The only account allowed to update scores (the zero address until stored).
    pub oracle_address: Address,
    pub min_score: u64,
    pub max_score: u64,
    pub user_score: KeyMap<Address, u64>,
}

impl ReputationScore {
    /// The storage is well formed.
    pub open spec fn wf(&self) -> bool {
        self.user_score.wf()
    }

    /// The score of `user`: the recorded one, or `min_score` when none is recorded.
    pub open spec fn score_of(&self, user: Address) -> u64 {
        if self.user_score@.dom().contains(user) {
            self.user_score@[user]
        } else {
            self.min_score
        }
    }

    /// Deploys the registry with its score bounds (not checked against each other).
    pub fn init(min_score: u64, max_score: u64) -> (r: ReputationScore)
        ensures
            r.wf(),
            r.oracle_address == Address::spec_zero(),
            r.min_score == min_score,
            r.max_score == max_score,
            r.user_score@ == Map::<Address, u64>::empty(),
    {
        ReputationScore {
            oracle_address: Address::zero(),
            min_score,
            max_score,
            user_score: KeyMap::new(),
        }
    }

    /// Records the score of `user_address` (oracle only).
    pub fn update_score(&mut self, caller: Address, user_address: Address, score: u64) -> (r:
        Result<ScoreUpdated, ReputationError>)
        requires
            old(self).wf(),
        ensures
            final(self).wf(),
            caller != old(self).oracle_address ==> r == Err::<ScoreUpdated, ReputationError>(
                ReputationError::NotOracle,
            ),
            caller == old(self).oracle_address && !(old(self).min_score <= score <= old(self).max_score) ==> r == Err::<ScoreUpdated, ReputationError>(
                ReputationError::ScoreOutOfRange,
            ),
            caller == old(self).oracle_address && old(self).min_score <= score
                <= old(self).max_score ==> r is Ok,
            r is Err ==> *final(self) == *old(self),
            r is Ok ==> {
                &&& caller == old(self).oracle_address
                &&& old(self).min_score <= score <= old(self).max_score
                &&& r == Ok::<ScoreUpdated, ReputationError>(ScoreUpdated { user_address, score })
                &&& final(self).user_score@ == old(self).user_score@.insert(user_address, score)
                &&& *final(self) == (ReputationScore {
                    user_score: final(self).user_score,
                    ..*old(self)
                })
            },
    {
        if caller != self.oracle_address {
            return Err(ReputationError::NotOracle);
        }
        if !(score >= self.min_score && score <= self.max_score) {
            return Err(ReputationError::ScoreOutOfRange);
        }
        self.user_score.insert(user_address, score);
        Ok(ScoreUpdated { user_address, score })
    }

    /// The user's score, or the minimum score when none has been recorded.
    pub fn get_user_score(&self, user_address: Address) -> (r: u64)
        requires
            self.wf(),
        ensures
            r == self.score_of(user_address),
    {
        match self.user_score.get(&user_address) {
            Some(s) => *s,
            None => self.min_score,
        }
    }

    /// Whether the user's score reaches `required_score`.
    pub fn is_eligible_for_loan(&self, user_address: Address, required_score: u64) -> (r: bool)
        requires
            self.wf(),
        ensures
            r == (self.score_of(user_address) >= required_score),
    {
        self.get_user_score(user_address) >= required_score
    }

    /// The largest loan the user may take: `base_amount * score * 2 / max_score`; refused
    /// when the maximum score is zero.
    pub fn calculate_max_loan_amount(&self, user_address: Address, base_amount: u128) -> (r:
        Result<u128, ReputationError>)
        requires
            self.wf(),
        ensures
            self.max_score == 0 ==> r == Err::<u128, ReputationError>(
                ReputationError::ZeroMaxScore,
            ),
            self.max_score > 0 && base_amount * self.score_of(user_address) * 2 > u128::MAX ==> r
                == Err::<u128, ReputationError>(ReputationError::AmountOverflow),
            self.max_score > 0 && base_amount * self.score_of(user_address) * 2 <= u128::MAX ==> r
                == Ok::<u128, ReputationError>(
                max_loan_amount_for(
                    base_amount as nat,
                    self.score_of(user_address) as nat,
                    self.max_score as nat,
                ) as u128,
            ),
    {
        max_loan_amount(base_amount, self.get_user_score(user_address), self.max_score)
    }
}

} // verus!
