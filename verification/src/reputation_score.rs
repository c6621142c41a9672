//! Registry of social reputation scores, kept up to date by an oracle and read
//! by lenders to decide loan eligibility and limits.
use vstd::prelude::*;

use crate::address::Address;
use crate::storage::KeyMap;

verus! {

/// Why a call to the reputation registry was refused.
#[derive(Clone, Copy, Debug, PartialEq, Eq, Structural)]
pub enum ReputationError {
    /// The minimum score must be strictly below the maximum score.
    MinNotBelowMax,
    /// The endpoint can only be called by the owner.
    NotOwner,
    /// The oracle address cannot be the zero address.
    ZeroOracleAddress,
    /// No oracle has been configured yet.
    OracleNotConfigured,
    /// Only the oracle can update scores.
    NotOracle,
    /// The score lies outside `[min_score, max_score]`.
    ScoreOutOfRange,
    /// The maximum score is zero, so no limit can be derived from it.
    ZeroMaxScore,
    /// `base_amount * score * 2` does not fit in 128 bits.
    AmountOverflow,
}

/// Emitted when the oracle records a score.
#[derive(Clone, Copy, Debug, PartialEq, Eq, Structural)]
pub struct ScoreUpdated {
    pub user_address: Address,
    pub score: u64,
}

/// The registry's storage.
pub struct ReputationScore {
    /// The account that deployed the registry.
    pub owner: Address,
    /// The oracle allowed to update scores, once configured.
    pub oracle_address: Option<Address>,
    pub min_score: u64,
    pub max_score: u64,
    /// Scores recorded by the oracle.
    pub user_score: KeyMap<Address, u64>,
}

/// Loan limit for a score: `base_amount * (score / max_score) * 2`, computed as
/// `base_amount * score * 2 / max_score`.
pub open spec fn max_loan_amount_for(base_amount: nat, score: nat, max_score: nat) -> nat {
    base_amount * score * 2 / max_score
}

/// Loan limit `base_amount * user_score * 2 / max_score`; refused when `max_score` is
/// zero or the product does not fit in 128 bits.
pub fn max_loan_amount(base_amount: u128, user_score: u64, max_score: u64) -> (r: Result<
    u128,
    ReputationError,
>)
    ensures
        max_score == 0 ==> r == Err::<u128, ReputationError>(ReputationError::ZeroMaxScore),
        max_score > 0 && base_amount * user_score * 2 > u128::MAX ==> r == Err::<
            u128,
            ReputationError,
        >(ReputationError::AmountOverflow),
        max_score > 0 && base_amount * user_score * 2 <= u128::MAX ==> r == Ok::<
            u128,
            ReputationError,
        >(max_loan_amount_for(base_amount as nat, user_score as nat, max_score as nat) as u128),
{
    if max_score == 0 {
        return Err(ReputationError::ZeroMaxScore);
    }
    let scaled = match base_amount.checked_mul(user_score as u128) {
        Some(p) => p,
        None => {
            proof {
                assert(base_amount * user_score * 2 > u128::MAX) by (nonlinear_arith)
                    requires
                        base_amount * user_score > u128::MAX,
                ;
            }
            return Err(ReputationError::AmountOverflow);
        },
    };
    let doubled = match scaled.checked_mul(2) {
        Some(p) => p,
        None => {
            return Err(ReputationError::AmountOverflow);
        },
    };
    proof {
        assert(doubled / (max_score as u128) <= doubled) by (nonlinear_arith)
            requires
                max_score > 0,
                doubled >= 0,
        ;
    }
    Ok(doubled / (max_score as u128))
}

impl ReputationScore {
    /// The storage is well formed.
    pub open spec fn wf(&self) -> bool {
        self.user_score.wf()
    }

    /// Every recorded score lies in `[min_score, max_score]`.
    pub open spec fn scores_in_range(&self) -> bool {
        forall|u: Address| #[trigger]
            self.user_score@.dom().contains(u) ==> self.min_score <= self.user_score@[u]
                <= self.max_score
    }

    /// The score of `user`: the recorded one, or `min_score` when none is recorded.
    pub open spec fn score_of(&self, user: Address) -> u64 {
        if self.user_score@.dom().contains(user) {
            self.user_score@[user]
        } else {
            self.min_score
        }
    }

    /// Deploys the registry with its score bounds; `owner` is the deployer.
    pub fn init(owner: Address, min_score: u64, max_score: u64) -> (r: Result<
        ReputationScore,
        ReputationError,
    >)
        ensures
            r is Err <==> min_score >= max_score,
            r matches Err(e) ==> e == ReputationError::MinNotBelowMax,
            r matches Ok(s) ==> {
                &&& s.wf()
                &&& s.scores_in_range()
                &&& s.owner == owner
                &&& s.oracle_address is None
                &&& s.min_score == min_score
                &&& s.max_score == max_score
                &&& s.user_score@ == Map::<Address, u64>::empty()
            },
    {
        if min_score >= max_score {
            return Err(ReputationError::MinNotBelowMax);
        }
        Ok(ReputationScore {
            owner,
            oracle_address: None,
            min_score,
            max_score,
            user_score: KeyMap::new(),
        })
    }

    /// Sets the oracle that may update scores (owner only).
    pub fn set_oracle_address(&mut self, caller: Address, oracle_address: Address) -> (r: Result<
        (),
        ReputationError,
    >)
        ensures
            caller != old(self).owner ==> r == Err::<(), ReputationError>(ReputationError::NotOwner),
            caller == old(self).owner && oracle_address == Address::spec_zero() ==> r == Err::<
                (),
                ReputationError,
            >(ReputationError::ZeroOracleAddress),
            caller == old(self).owner && oracle_address != Address::spec_zero() ==> r is Ok,
            r is Err ==> *final(self) == *old(self),
            r is Ok ==> *final(self) == (ReputationScore {
                oracle_address: Some(oracle_address),
                ..*old(self)
            }),
    {
        if caller != self.owner {
            return Err(ReputationError::NotOwner);
        }
        if oracle_address.is_zero() {
            return Err(ReputationError::ZeroOracleAddress);
        }
        self.oracle_address = Some(oracle_address);
        Ok(())
    }

    /// Records the score of `user_address` (oracle only).
    pub fn update_score(&mut self, caller: Address, user_address: Address, score: u64) -> (r:
        Result<ScoreUpdated, ReputationError>)
        requires
            old(self).wf(),
        ensures
            final(self).wf(),
            old(self).scores_in_range() ==> final(self).scores_in_range(),
            old(self).oracle_address is None ==> r == Err::<ScoreUpdated, ReputationError>(
                ReputationError::OracleNotConfigured,
            ),
            old(self).oracle_address matches Some(o) && caller != o ==> r == Err::<
                ScoreUpdated,
                ReputationError,
            >(ReputationError::NotOracle),
            old(self).oracle_address == Some(caller) && !(old(self).min_score <= score
                <= old(self).max_score) ==> r == Err::<ScoreUpdated, ReputationError>(
                ReputationError::ScoreOutOfRange,
            ),
            old(self).oracle_address == Some(caller) && old(self).min_score <= score
                <= old(self).max_score ==> r is Ok,
            r is Err ==> *final(self) == *old(self),
            r is Ok ==> {
                &&& old(self).oracle_address == Some(caller)
                &&& old(self).min_score <= score <= old(self).max_score
                &&& r == Ok::<ScoreUpdated, ReputationError>(ScoreUpdated { user_address, score })
                &&& final(self).user_score@ == old(self).user_score@.insert(user_address, score)
                &&& *final(self) == (ReputationScore {
                    user_score: final(self).user_score,
                    ..*old(self)
                })
            },
    {
        let oracle = match self.oracle_address {
            Some(o) => o,
            None => {
                return Err(ReputationError::OracleNotConfigured);
            },
        };
        if caller != oracle {
            return Err(ReputationError::NotOracle);
        }
        if !(score >= self.min_score && score <= self.max_score) {
            return Err(ReputationError::ScoreOutOfRange);
        }
        self.user_score.insert(user_address, score);
        Ok(ScoreUpdated { user_address, score })
    }

    /// The user's score, or the minimum score when none has been recorded.
    pub fn get_user_score(&self, user_address: Address) -> (r: u64)
        requires
            self.wf(),
        ensures
            r == self.score_of(user_address),
            self.user_score@.dom().contains(user_address) ==> r == self.user_score@[user_address],
            !self.user_score@.dom().contains(user_address) ==> r == self.min_score,
    {
        match self.user_score.get(&user_address) {
            Some(s) => *s,
            None => self.min_score,
        }
    }

    /// Whether the user's score reaches `required_score`.
    pub fn is_eligible_for_loan(&self, user_address: Address, required_score: u64) -> (r: bool)
        requires
            self.wf(),
        ensures
            r == (self.score_of(user_address) >= required_score),
            !self.user_score@.dom().contains(user_address) ==> r == (self.min_score >= required_score),
    {
        self.get_user_score(user_address) >= required_score
    }

    /// The largest loan the user may take: `base_amount * score * 2 / max_score`.
    pub fn calculate_max_loan_amount(&self, user_address: Address, base_amount: u128) -> (r:
        Result<u128, ReputationError>)
        requires
            self.wf(),
        ensures
            self.max_score == 0 ==> r == Err::<u128, ReputationError>(
                ReputationError::ZeroMaxScore,
            ),
            self.max_score > 0 && base_amount * self.score_of(user_address) * 2 > u128::MAX ==> r
                == Err::<u128, ReputationError>(ReputationError::AmountOverflow),
            self.max_score > 0 && base_amount * self.score_of(user_address) * 2 <= u128::MAX ==> r
                == Ok::<u128, ReputationError>(
                max_loan_amount_for(
                    base_amount as nat,
                    self.score_of(user_address) as nat,
                    self.max_score as nat,
                ) as u128,
            ),
            !self.user_score@.dom().contains(user_address) && self.max_score > 0 && base_amount
                * self.min_score * 2 <= u128::MAX ==> r == Ok::<u128, ReputationError>(
                (base_amount * self.min_score * 2 / (self.max_score as int)) as u128,
            ),
    {
        max_loan_amount(base_amount, self.get_user_score(user_address), self.max_score)
    }
}

/// Reading a user's score after the oracle recorded it gives back what was recorded,
/// and leaves every other user's score as it was.
pub proof fn lemma_score_read_after_write(
    before: ReputationScore,
    after: ReputationScore,
    user: Address,
    other: Address,
    score: u64,
)
    requires
        after.user_score@ == before.user_score@.insert(user, score),
        after.min_score == before.min_score,
    ensures
        after.score_of(user) == score,
        other != user ==> after.score_of(other) == before.score_of(other),
{
}

/// A higher score never lowers the loan limit.
pub proof fn lemma_max_loan_amount_monotonic(base_amount: nat, s1: nat, s2: nat, max_score: nat)
    requires
        s1 <= s2,
        max_score > 0,
    ensures
        max_loan_amount_for(base_amount, s1, max_score) <= max_loan_amount_for(
            base_amount,
            s2,
            max_score,
        ),
{
    assert(base_amount * s1 * 2 <= base_amount * s2 * 2) by (nonlinear_arith)
        requires
            s1 <= s2,
    ;
    vstd::arithmetic::div_mod::lemma_div_is_ordered(
        (base_amount * s1 * 2) as int,
        (base_amount * s2 * 2) as int,
        max_score as int,
    );
}

/// A user whose score reaches the maximum may borrow twice the base amount.
pub proof fn lemma_max_score_doubles_base(base_amount: nat, max_score: nat)
    requires
        max_score > 0,
    ensures
        max_loan_amount_for(base_amount, max_score, max_score) == 2 * base_amount,
{
    assert(base_amount * max_score * 2 == (2 * base_amount) * max_score) by (nonlinear_arith);
    vstd::arithmetic::div_mod::lemma_div_multiples_vanish((2 * base_amount) as int, max_score as int);
}

/// A user with no recorded score reads as the minimum score, so it is eligible at the
/// minimum and its loan limit is the one for the minimum score; while every recorded
/// score lies within the bounds, no user reads below the minimum.
pub proof fn lemma_unscored_user_reads_minimum(s: ReputationScore, user: Address, base_amount: nat)
    ensures
        !s.user_score@.dom().contains(user) ==> s.score_of(user) == s.min_score,
        !s.user_score@.dom().contains(user) ==> s.score_of(user) >= s.min_score,
        !s.user_score@.dom().contains(user) && s.max_score > 0 ==> max_loan_amount_for(
            base_amount,
            s.score_of(user) as nat,
            s.max_score as nat,
        ) == base_amount * s.min_score * 2 / (s.max_score as int),
        s.scores_in_range() ==> s.min_score <= s.score_of(user),
{
}

} // verus!
