//! The minimal loan desk: a loan is granted at once from the registry's answers
//! (eligibility, loan limit and score), and repaid in full.
use vstd::prelude::*;

use crate::address::Address;
use crate::loan_controller::{LoanError, TokenId, Transfer};
use crate::loan_requests::{
    checked_rate_for_score, due_after, rate_for_score, interest_rate_fits, interest_rate_for_score, repayment_fits, repayment_for,
    ReputationQuery,
};
use crate::math::checked_mul_div;
use crate::storage::KeyMap;

verus! {

/// Lifecycle of a loan at the minimal desk.
#[derive(Clone, Copy, Debug, PartialEq, Eq, Structural)]
pub enum LoanStatus {
    Active,
    Repaid,
    Defaulted,
}

/// A loan record at the minimal desk.
#[derive(Clone, Copy, Debug, PartialEq, Eq, Structural)]
pub struct Loan {
    pub borrower: Address,
    pub amount: u128,
    pub repayment_amount: u128,
    pub interest_rate: u64,
    pub creation_timestamp: u64,
    pub due_timestamp: u64,
    pub status: LoanStatus,
}

/// The minimal desk's storage.
pub struct LoanController {
    pub reputation_score_address: Address,
    pub min_required_score: u64,
    /// Base interest rate in basis points.
    pub interest_rate_base: u64,
    pub base_loan_amount: u128,
    pub loan_counter: u64,
    pub loans: KeyMap<u64, Loan>,
    pub user_loans: KeyMap<Address, Vec<u64>>,
    pub on_time_payments: KeyMap<Address, u64>,
}

impl LoanController {
    /// The storage is well formed.
    pub open spec fn wf(&self) -> bool {
        &&& self.loans.wf()
        &&& self.user_loans.wf()
        &&& self.on_time_payments.wf()
    }

    /// The loan ids recorded for `user` (empty when none).
    pub open spec fn loans_of(&self, user: Address) -> Seq<u64> {
        if self.user_loans@.dom().contains(user) {
            self.user_loans@[user]@
        } else {
            Seq::empty()
        }
    }

    /// Deploys the desk.
    pub fn init(reputation_score_address: Address, min_required_score: u64, interest_rate_base: u64) -> (r:
        LoanController)
        ensures
            r.wf(),
            r.reputation_score_address == reputation_score_address,
            r.min_required_score == min_required_score,
            r.interest_rate_base == interest_rate_base,
            r.base_loan_amount == 0,
            r.loan_counter == 0,
            r.loans@ == Map::<u64, Loan>::empty(),
            r.user_loans@ == Map::<Address, Vec<u64>>::empty(),
            r.on_time_payments@ == Map::<Address, u64>::empty(),
    {
        LoanController {
            reputation_score_address,
            min_required_score,
            interest_rate_base,
            base_loan_amount: 0,
            loan_counter: 0,
            loans: KeyMap::new(),
            user_loans: KeyMap::new(),
            on_time_payments: KeyMap::new(),
        }
    }

    /// The three registry queries whose answers `request_loan` takes, in order:
    /// eligibility at the minimum score, the limit for the base amount, and the score.
    pub fn reputation_queries(&self, caller: Address) -> (r: (
        ReputationQuery,
        ReputationQuery,
        ReputationQuery,
    ))
        ensures
            r == (
                ReputationQuery::IsEligibleForLoan { user: caller, min_score: self.min_required_score },
                ReputationQuery::CalculateMaxLoanAmount {
                    user: caller,
                    base_amount: self.base_loan_amount,
                },
                ReputationQuery::GetUserScore { user: caller },
            ),
    {
        (
            ReputationQuery::IsEligibleForLoan { user: caller, min_score: self.min_required_score },
            ReputationQuery::CalculateMaxLoanAmount { user: caller, base_amount: self.base_loan_amount },
            ReputationQuery::GetUserScore { user: caller },
        )
    }

    /// Interest rate for a reputation score, from the base rate.
    pub fn calculate_interest_rate(&self, user_score: u64) -> (r: u64)
        requires
            interest_rate_fits(self.interest_rate_base as nat, user_score as nat),
        ensures
            r == interest_rate_for_score(self.interest_rate_base as nat, user_score as nat),
    {
        rate_for_score(self.interest_rate_base, user_score)
    }

    /// Opening a loan would overflow some counter or amount.
    pub open spec fn request_overflows(&self, now: u64, amount: u128, duration_days: u64, user_score: u64) -> bool {
        ||| !interest_rate_fits(self.interest_rate_base as nat, user_score as nat)
        ||| !repayment_fits(
            amount as nat,
            interest_rate_for_score(self.interest_rate_base as nat, user_score as nat),
        )
        ||| self.loan_counter == u64::MAX
        ||| due_after(now as nat, duration_days as nat) > u64::MAX
    }

    /// Opens a loan from the registry's answers (see `reputation_queries`): refused for an
    /// ineligible user or an amount above the limit; otherwise the loan is recorded under
    /// the current counter value at the rate for the user's score, due `duration_days`
    /// days after `now`, and the amount is paid out in the payment's token.
    pub fn request_loan(
        &mut self,
        caller: Address,
        now: u64,
        payment_token: TokenId,
        amount: u128,
        duration_days: u64,
        is_eligible: bool,
        max_amount: u128,
        user_score: u64,
    ) -> (r: Result<Transfer, LoanError>)
        requires
            old(self).wf(),
        ensures
            final(self).wf(),
            !is_eligible ==> r == Err::<Transfer, LoanError>(LoanError::ScoreTooLow),
            is_eligible && amount > max_amount ==> r == Err::<Transfer, LoanError>(
                LoanError::AmountAboveLimit,
            ),
            is_eligible && amount <= max_amount && old(self).request_overflows(
                now,
                amount,
                duration_days,
                user_score,
            ) ==> r == Err::<Transfer, LoanError>(LoanError::ArithmeticOverflow),
            is_eligible && amount <= max_amount && !old(self).request_overflows(
                now,
                amount,
                duration_days,
                user_score,
            ) ==> r is Ok,
            r is Err ==> *final(self) == *old(self),
            r is Ok ==> {
                let rate = interest_rate_for_score(old(self).interest_rate_base as nat, user_score as nat);
                let id = old(self).loan_counter;
                &&& is_eligible && amount <= max_amount
                &&& !old(self).request_overflows(now, amount, duration_days, user_score)
                &&& r == Ok::<Transfer, LoanError>(Transfer { to: caller, token: payment_token, amount })
                &&& final(self).loans@ == old(self).loans@.insert(
                    id,
                    Loan {
                        borrower: caller,
                        amount,
                        repayment_amount: repayment_for(amount as nat, rate) as u128,
                        interest_rate: rate as u64,
                        creation_timestamp: now,
                        due_timestamp: due_after(now as nat, duration_days as nat) as u64,
                        status: LoanStatus::Active,
                    },
                )
                &&& final(self).user_loans@ == old(self).user_loans@.insert(
                    caller,
                    final(self).user_loans@[caller],
                )
                &&& final(self).loans_of(caller) == old(self).loans_of(caller).push(id)
                &&& *final(self) == (LoanController {
                    loans: final(self).loans,
                    user_loans: final(self).user_loans,
                    loan_counter: (id + 1) as u64,
                    ..*old(self)
                })
            },
    {
        if !is_eligible {
            return Err(LoanError::ScoreTooLow);
        }
        if amount > max_amount {
            return Err(LoanError::AmountAboveLimit);
        }
        let interest_rate = match checked_rate_for_score(self.interest_rate_base, user_score) {
            Some(v) => v,
            None => {
                return Err(LoanError::ArithmeticOverflow);
            },
        };
        let interest_amount = match checked_mul_div(amount, interest_rate as u128, 10000) {
            Some(v) => v,
            None => {
                return Err(LoanError::ArithmeticOverflow);
            },
        };
        let repayment_amount = match amount.checked_add(interest_amount) {
            Some(v) => v,
            None => {
                return Err(LoanError::ArithmeticOverflow);
            },
        };
        if self.loan_counter == u64::MAX {
            return Err(LoanError::ArithmeticOverflow);
        }
        let due_timestamp = match duration_days.checked_mul(86400) {
            Some(secs) => match now.checked_add(secs) {
                Some(v) => v,
                None => {
                    return Err(LoanError::ArithmeticOverflow);
                },
            },
            None => {
                return Err(LoanError::ArithmeticOverflow);
            },
        };
        let loan_id = self.loan_counter;
        self.loan_counter = loan_id + 1;
        self.loans.insert(
            loan_id,
            Loan {
                borrower: caller,
                amount,
                repayment_amount,
                interest_rate,
                creation_timestamp: now,
                due_timestamp,
                status: LoanStatus::Active,
            },
        );
        let mut ids: Vec<u64> = match self.user_loans.get(&caller) {
            Some(v) => v.clone(),
            None => Vec::new(),
        };
        ids.push(loan_id);
        self.user_loans.insert(caller, ids);
        Ok(Transfer { to: caller, token: payment_token, amount })
    }

    /// The refusal, if any, of repaying `loan_id` by `caller` with `payment` at `now`.
    pub open spec fn repay_refusal(&self, caller: Address, now: u64, payment: u128, loan_id: u64) -> Option<
        LoanError,
    > {
        let loan = self.loans@[loan_id];
        if !self.loans@.dom().contains(loan_id) {
            Some(LoanError::LoanNotFound)
        } else if loan.borrower != caller {
            Some(LoanError::NotBorrower)
        } else if loan.status != LoanStatus::Active {
            Some(LoanError::LoanNotActive)
        } else if payment != loan.repayment_amount {
            Some(LoanError::IncorrectRepaymentAmount)
        } else if now <= loan.due_timestamp && self.on_time_payments.count_of(caller) == u64::MAX {
            Some(LoanError::ArithmeticOverflow)
        } else {
            None
        }
    }

    /// Repays `loan_id` in full with `payment`; an on-time repayment is counted for the
    /// borrower.
    pub fn repay_loan(&mut self, caller: Address, now: u64, payment: u128, loan_id: u64) -> (r: Result<
        (),
        LoanError,
    >)
        requires
            old(self).wf(),
        ensures
            final(self).wf(),
            r is Err <==> old(self).repay_refusal(caller, now, payment, loan_id) is Some,
            r matches Err(e) ==> old(self).repay_refusal(caller, now, payment, loan_id) == Some(e),
            r is Err ==> *final(self) == *old(self),
            r is Ok ==> {
                let loan = old(self).loans@[loan_id];
                &&& final(self).loans@ == old(self).loans@.insert(
                    loan_id,
                    Loan { status: LoanStatus::Repaid, ..loan },
                )
                &&& now <= loan.due_timestamp ==> final(self).on_time_payments@ == old(self).on_time_payments@.insert(
                    caller,
                    (old(self).on_time_payments.count_of(caller) + 1) as u64,
                )
                &&& now > loan.due_timestamp ==> final(self).on_time_payments@ == old(self).on_time_payments@
                &&& *final(self) == (LoanController {
                    loans: final(self).loans,
                    on_time_payments: final(self).on_time_payments,
                    ..*old(self)
                })
            },
    {
        let mut loan = match self.loans.get(&loan_id) {
            Some(l) => *l,
            None => {
                return Err(LoanError::LoanNotFound);
            },
        };
        if loan.borrower != caller {
            return Err(LoanError::NotBorrower);
        }
        if loan.status != LoanStatus::Active {
            return Err(LoanError::LoanNotActive);
        }
        if payment != loan.repayment_amount {
            return Err(LoanError::IncorrectRepaymentAmount);
        }
        let on_time = now <= loan.due_timestamp;
        let count = self.on_time_payments.count(&caller);
        if on_time && count == u64::MAX {
            return Err(LoanError::ArithmeticOverflow);
        }
        loan.status = LoanStatus::Repaid;
        self.loans.insert(loan_id, loan);
        if on_time {
            self.on_time_payments.insert(caller, count + 1);
        }
        Ok(())
    }
}

} // verus!
