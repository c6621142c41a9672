//! Opening loans: the reputation-checked request (a chain of calls to the
//! reputation registry), the direct request, the request by term and the
//! collateral-backed request, with the interest-rate rules they share.
use vstd::prelude::*;

use crate::address::Address;
use crate::loan_controller::{
    term_days, Loan, LoanController, LoanError, LoanStatus, LoanTerm, TokenId, Transfer,
};
use crate::math::{apply_basis_points, basis_points_of, checked_mul_div};

verus! {

/// Interest rate (basis points) for a reputation score: the base rate scaled by
/// `100 - score * 80 / 1000` percent, and a fifth of the base rate from the top score
/// of 1000 upwards.
pub open spec fn interest_rate_for_score(base_rate: nat, score: nat) -> nat {
    if score >= 1000 {
        base_rate / 5
    } else {
        base_rate * ((100 - score * 80 / 1000) as nat) / 100
    }
}

/// The rate computation for `score` stays within 64 bits.
pub open spec fn interest_rate_fits(base_rate: nat, score: nat) -> bool {
    score < 1000 ==> base_rate * ((100 - score * 80 / 1000) as nat) <= u64::MAX
}

/// A rate adjusted to the loan term: +20% for extended, -20% for short, +50% for maximum.
pub open spec fn term_rate(base_rate: nat, term: LoanTerm) -> nat {
    match term {
        LoanTerm::Standard => base_rate,
        LoanTerm::Extended => base_rate * 12 / 10,
        LoanTerm::Short => base_rate * 8 / 10,
        LoanTerm::Maximum => base_rate * 15 / 10,
    }
}

/// Percentage applied to the rate of a loan opened by term: 150 for the extended term,
/// 200 for the maximum term, 100 otherwise.
pub open spec fn term_loan_factor(term: LoanTerm) -> nat {
    match term {
        LoanTerm::Extended => 150,
        LoanTerm::Maximum => 200,
        _ => 100,
    }
}

/// The percentage applied to the rate of a loan opened by `term`.
pub fn term_factor(term: LoanTerm) -> (r: u64)
    ensures
        r == term_loan_factor(term),
        r > 0,
        term == LoanTerm::Standard || term == LoanTerm::Short ==> r == 100,
        term == LoanTerm::Extended ==> r == 150,
        term == LoanTerm::Maximum ==> r == 200,
{
    match term {
        LoanTerm::Extended => 150,
        LoanTerm::Maximum => 200,
        _ => 100,
    }
}

/// The term adjustment stays within 64 bits.
pub open spec fn term_rate_fits(base_rate: nat, term: LoanTerm) -> bool {
    match term {
        LoanTerm::Standard => true,
        LoanTerm::Extended => base_rate * 12 <= u64::MAX,
        LoanTerm::Short => base_rate * 8 <= u64::MAX,
        LoanTerm::Maximum => base_rate * 15 <= u64::MAX,
    }
}

/// Interest owed on `amount` at `rate` basis points.
pub open spec fn interest_on(amount: nat, rate: nat) -> nat {
    amount * rate / 10000
}

/// The amount to repay: principal plus interest.
pub open spec fn repayment_for(amount: nat, rate: nat) -> nat {
    amount + interest_on(amount, rate)
}

/// Computing the amount to repay stays within 128 bits.
pub open spec fn repayment_fits(amount: nat, rate: nat) -> bool {
    amount * rate <= u128::MAX && repayment_for(amount, rate) <= u128::MAX
}

/// The due timestamp `days` days after `now`.
pub open spec fn due_after(now: nat, days: nat) -> nat {
    now + days * 86400
}

/// A query the desk sends to the reputation registry.
#[derive(Clone, Copy, Debug, PartialEq, Eq, Structural)]
pub enum ReputationQuery {
    IsEligibleForLoan { user: Address, min_score: u64 },
    CalculateMaxLoanAmount { user: Address, base_amount: u128 },
    GetUserScore { user: Address },
}

/// The step that handles the registry's answer.
#[derive(Clone, Copy, Debug, PartialEq, Eq, Structural)]
pub enum LoanCallback {
    CheckEligibility,
    CheckAmount,
    ProcessLoan,
}

/// A loan request carried through the chain of registry calls.
#[derive(Clone, Copy, Debug, PartialEq, Eq, Structural)]
pub struct LoanRequest {
    pub caller: Address,
    pub amount: u128,
    pub term: LoanTerm,
}

/// A call to the reputation registry whose answer goes to `callback`.
#[derive(Clone, Copy, Debug, PartialEq, Eq, Structural)]
pub struct ReputationCall {
    pub to: Address,
    pub query: ReputationQuery,
    pub callback: LoanCallback,
    pub request: LoanRequest,
}

/// The registry failed to answer.
#[derive(Clone, Copy, Debug, PartialEq, Eq, Structural)]
pub struct AsyncCallError {
    pub err_code: u32,
}

/// Interest rate for a reputation score, from a base rate.
pub fn rate_for_score(base_rate: u64, user_score: u64) -> (r: u64)
    requires
        interest_rate_fits(base_rate as nat, user_score as nat),
    ensures
        r == interest_rate_for_score(base_rate as nat, user_score as nat),
{
    if user_score >= 1000 {
        return base_rate / 5;
    }
    let score_factor = (user_score * 80) / 1000;
    proof {
        assert(base_rate * (100 - score_factor) / 100 <= base_rate * (100 - score_factor)) by (nonlinear_arith)
            requires
                base_rate * (100 - score_factor) >= 0,
        ;
    }
    base_rate * (100 - score_factor) / 100
}

/// The interest rate for a score, or `None` where its computation overflows 64 bits.
pub fn checked_rate_for_score(base_rate: u64, user_score: u64) -> (r: Option<u64>)
    ensures
        r is Some <==> interest_rate_fits(base_rate as nat, user_score as nat),
        r matches Some(v) ==> v == interest_rate_for_score(base_rate as nat, user_score as nat),
{
    if user_score < 1000 {
        let m = 100 - (user_score * 80) / 1000;
        if base_rate > u64::MAX / m {
            proof {
                let b = base_rate as int;
                assert(b * (m as int) > u64::MAX) by (nonlinear_arith)
                    requires
                        b > (u64::MAX as int) / (m as int),
                        m > 0,
                ;
            }
            return None;
        }
        proof {
            let b = base_rate as int;
            assert(b * (m as int) <= u64::MAX) by (nonlinear_arith)
                requires
                    b <= (u64::MAX as int) / (m as int),
                    m > 0,
            ;
        }
    }
    Some(rate_for_score(base_rate, user_score))
}

impl LoanController {
    /// `after` holds `loan` under `loan_id`, listed last among its borrower's loans.
    pub open spec fn records_loan(before: LoanController, after: LoanController, loan_id: u64, loan: Loan) -> bool {
        &&& after.loans@ == before.loans@.insert(loan_id, loan)
        &&& after.user_loans@ == before.user_loans@.insert(
            loan.borrower,
            after.user_loans@[loan.borrower],
        )
        &&& after.loans_of(loan.borrower) == before.loans_of(loan.borrower).push(loan_id)
    }

    /// Records `loan` under the next id, one above the counter, which moves up to it, and
    /// counts it as active.
    fn record_loan(&mut self, loan: Loan) -> (loan_id: u64)
        requires
            old(self).wf(),
            old(self).loan_counter < u64::MAX,
        ensures
            final(self).wf(),
            loan_id == old(self).loan_counter + 1,
            Self::records_loan(*old(self), *final(self), loan_id, loan),
            *final(self) == (LoanController {
                loans: final(self).loans,
                user_loans: final(self).user_loans,
                loan_counter: loan_id,
                active_loans_count: (old(self).active_loans_count + 1) as u64,
                ..*old(self)
            }),
    {
        let loan_id = self.loan_counter + 1;
        self.loans.insert(loan_id, loan);
        self.loan_counter = loan_id;
        self.active_loans_count = self.active_loans_count + 1;
        self.push_user_loan(loan.borrower, loan_id);
        loan_id
    }

    /// Interest rate for a reputation score, from the base rate.
    pub fn calculate_interest_rate(&self, user_score: u64) -> (r: u64)
        requires
            interest_rate_fits(self.interest_rate_base as nat, user_score as nat),
        ensures
            r == interest_rate_for_score(self.interest_rate_base as nat, user_score as nat),
    {
        rate_for_score(self.interest_rate_base, user_score)
    }

    /// A rate adjusted to the loan term.
    pub fn calculate_interest_rate_for_term(&self, base_rate: u64, term: LoanTerm) -> (r: u64)
        requires
            term_rate_fits(base_rate as nat, term),
        ensures
            r == term_rate(base_rate as nat, term),
    {
        match term {
            LoanTerm::Standard => base_rate,
            LoanTerm::Extended => base_rate * 12 / 10,
            LoanTerm::Short => base_rate * 8 / 10,
            LoanTerm::Maximum => base_rate * 15 / 10,
        }
    }

    /// Same as `calculate_interest_rate_for_term`.
    pub fn get_interest_rate_for_term(&self, base_rate: u64, term: LoanTerm) -> (r: u64)
        requires
            term_rate_fits(base_rate as nat, term),
        ensures
            r == term_rate(base_rate as nat, term),
    {
        self.calculate_interest_rate_for_term(base_rate, term)
    }

    fn term_rate_checked(&self, base_rate: u64, term: LoanTerm) -> (r: Option<u64>)
        ensures
            r is Some <==> term_rate_fits(base_rate as nat, term),
            r matches Some(v) ==> v == term_rate(base_rate as nat, term),
    {
        let fits = match term {
            LoanTerm::Standard => true,
            LoanTerm::Extended => base_rate <= u64::MAX / 12,
            LoanTerm::Short => base_rate <= u64::MAX / 8,
            LoanTerm::Maximum => base_rate <= u64::MAX / 15,
        };
        if fits {
            Some(self.calculate_interest_rate_for_term(base_rate, term))
        } else {
            None
        }
    }

    /// The principal plus interest, or `None` where it does not fit in 128 bits.
    fn repayment_checked(amount: u128, rate: u64) -> (r: Option<u128>)
        ensures
            r is Some <==> repayment_fits(amount as nat, rate as nat),
            r matches Some(v) ==> v == repayment_for(amount as nat, rate as nat),
    {
        match checked_mul_div(amount, rate as u128, 10000) {
            Some(interest) => amount.checked_add(interest),
            None => None,
        }
    }

    /// The timestamp `days` days after `now`, or `None` where it does not fit in 64 bits.
    fn due_checked(now: u64, days: u64) -> (r: Option<u64>)
        ensures
            r is Some <==> due_after(now as nat, days as nat) <= u64::MAX,
            r matches Some(v) ==> v == due_after(now as nat, days as nat),
    {
        match days.checked_mul(86400) {
            Some(secs) => now.checked_add(secs),
            None => None,
        }
    }

    /// The refusal, if any, of a reputation-checked loan request by `caller`, checked in
    /// order: pause, blacklist, the reputation score stored for the caller, the per-user
    /// loan limit and the global limit on active loans (a limit of zero means none).
    pub open spec fn request_refusal(&self, caller: Address) -> Option<LoanError> {
        if self.paused {
            Some(LoanError::Paused)
        } else if self.blacklisted(caller) {
            Some(LoanError::Blacklisted)
        } else if self.user_reputation_scores.count_of(caller) < self.min_required_score {
            Some(LoanError::InsufficientReputationScore)
        } else if self.max_loans_per_user > 0 && self.loans_of(caller).len()
            >= self.max_loans_per_user {
            Some(LoanError::UserLoanLimitReached)
        } else if self.max_active_loans > 0 && self.active_loans_count >= self.max_active_loans {
            Some(LoanError::GlobalLoanLimitReached)
        } else {
            None
        }
    }

    /// Asks the reputation registry whether the caller may borrow; the answer goes
    /// to `check_eligibility_callback`. Refused as `request_refusal` says.
    pub fn request_loan(&self, caller: Address, amount: u128, term: LoanTerm) -> (r: Result<
        ReputationCall,
        LoanError,
    >)
        requires
            self.wf(),
        ensures
            self.request_refusal(caller) matches Some(e) ==> r == Err::<ReputationCall, LoanError>(
                e,
            ),
            self.request_refusal(caller) is None ==> r == Ok::<ReputationCall, LoanError>(
                ReputationCall {
                    to: self.reputation_score_address,
                    query: ReputationQuery::IsEligibleForLoan {
                        user: caller,
                        min_score: self.min_required_score,
                    },
                    callback: LoanCallback::CheckEligibility,
                    request: LoanRequest { caller, amount, term },
                },
            ),
    {
        if self.paused {
            return Err(LoanError::Paused);
        }
        if self.is_blacklisted(caller) {
            return Err(LoanError::Blacklisted);
        }
        if self.user_reputation_scores.count(&caller) < self.min_required_score {
            return Err(LoanError::InsufficientReputationScore);
        }
        let held: usize = match self.user_loans.get(&caller) {
            Some(v) => v.len(),
            None => 0,
        };
        if self.max_loans_per_user > 0 && held as u64 >= self.max_loans_per_user {
            return Err(LoanError::UserLoanLimitReached);
        }
        if self.max_active_loans > 0 && self.active_loans_count >= self.max_active_loans {
            return Err(LoanError::GlobalLoanLimitReached);
        }
        Ok(
            ReputationCall {
                to: self.reputation_score_address,
                query: ReputationQuery::IsEligibleForLoan {
                    user: caller,
                    min_score: self.min_required_score,
                },
                callback: LoanCallback::CheckEligibility,
                request: LoanRequest { caller, amount, term },
            },
        )
    }

    /// Handles the eligibility answer: refuses an ineligible user, otherwise asks the
    /// registry for the user's loan limit, to be handled by `check_amount_callback`.
    pub fn check_eligibility_callback(
        &self,
        result: Result<bool, AsyncCallError>,
        caller: Address,
        amount: u128,
        term: LoanTerm,
    ) -> (r: Result<ReputationCall, LoanError>)
        ensures
            result is Err ==> r == Err::<ReputationCall, LoanError>(
                LoanError::ReputationCallFailed,
            ),
            result == Ok::<bool, AsyncCallError>(false) ==> r == Err::<ReputationCall, LoanError>(
                LoanError::ScoreTooLow,
            ),
            result == Ok::<bool, AsyncCallError>(true) ==> r == Ok::<ReputationCall, LoanError>(
                ReputationCall {
                    to: self.reputation_score_address,
                    query: ReputationQuery::CalculateMaxLoanAmount {
                        user: caller,
                        base_amount: self.base_loan_amount,
                    },
                    callback: LoanCallback::CheckAmount,
                    request: LoanRequest { caller, amount, term },
                },
            ),
    {
        match result {
            Ok(is_eligible) => {
                if !is_eligible {
                    return Err(LoanError::ScoreTooLow);
                }
                Ok(
                    ReputationCall {
                        to: self.reputation_score_address,
                        query: ReputationQuery::CalculateMaxLoanAmount {
                            user: caller,
                            base_amount: self.base_loan_amount,
                        },
                        callback: LoanCallback::CheckAmount,
                        request: LoanRequest { caller, amount, term },
                    },
                )
            },
            Err(_) => Err(LoanError::ReputationCallFailed),
        }
    }

    /// Handles the loan-limit answer: refuses an amount above the limit, otherwise asks
    /// the registry for the user's score, to be handled by `process_loan_callback`.
    pub fn check_amount_callback(
        &self,
        result: Result<u128, AsyncCallError>,
        caller: Address,
        amount: u128,
        term: LoanTerm,
    ) -> (r: Result<ReputationCall, LoanError>)
        ensures
            result is Err ==> r == Err::<ReputationCall, LoanError>(
                LoanError::ReputationCallFailed,
            ),
            result matches Ok(max_amount) && amount > max_amount ==> r == Err::<
                ReputationCall,
                LoanError,
            >(LoanError::AmountAboveLimit),
            result matches Ok(max_amount) && amount <= max_amount ==> r == Ok::<
                ReputationCall,
                LoanError,
            >(
                ReputationCall {
                    to: self.reputation_score_address,
                    query: ReputationQuery::GetUserScore { user: caller },
                    callback: LoanCallback::ProcessLoan,
                    request: LoanRequest { caller, amount, term },
                },
            ),
    {
        match result {
            Ok(max_amount) => {
                if amount > max_amount {
                    return Err(LoanError::AmountAboveLimit);
                }
                Ok(
                    ReputationCall {
                        to: self.reputation_score_address,
                        query: ReputationQuery::GetUserScore { user: caller },
                        callback: LoanCallback::ProcessLoan,
                        request: LoanRequest { caller, amount, term },
                    },
                )
            },
            Err(_) => Err(LoanError::ReputationCallFailed),
        }
    }

    /// The rate a loan opened through the registry carries, for a user score and a term.
    pub open spec fn callback_rate(&self, user_score: u64, term: LoanTerm) -> nat {
        term_rate(interest_rate_for_score(self.interest_rate_base as nat, user_score as nat), term)
    }

    /// Opening a loan through the registry would overflow some counter or amount.
    pub open spec fn process_loan_overflows(
        &self,
        now: u64,
        user_score: u64,
        amount: u128,
        term: LoanTerm,
    ) -> bool {
        let rate = self.callback_rate(user_score, term);
        ||| !interest_rate_fits(self.interest_rate_base as nat, user_score as nat)
        ||| !term_rate_fits(
            interest_rate_for_score(self.interest_rate_base as nat, user_score as nat),
            term,
        )
        ||| !repayment_fits(amount as nat, rate)
        ||| self.total_repayment_amount + repayment_for(amount as nat, rate) > u128::MAX
        ||| self.loan_counter == u64::MAX
        ||| due_after(now as nat, term_days(term) as nat) > u64::MAX
        ||| self.total_loan_amount + amount > u128::MAX
    }

    /// Handles the score answer: opens the loan under the next id (one above the counter)
    /// with a rate from the score and the term, counts the loan as active, adds the amount
    /// lent and the amount to repay to the running totals, and pays the amount out to the
    /// borrower.
    pub fn process_loan_callback(
        &mut self,
        now: u64,
        payment_token: TokenId,
        result: Result<u64, AsyncCallError>,
        caller: Address,
        amount: u128,
        term: LoanTerm,
    ) -> (r: Result<Transfer, LoanError>)
        requires
            old(self).wf(),
        ensures
            final(self).wf(),
            result is Err ==> r == Err::<Transfer, LoanError>(LoanError::ReputationCallFailed),
            result matches Ok(score) && old(self).process_loan_overflows(now, score, amount, term)
                ==> r == Err::<Transfer, LoanError>(LoanError::ArithmeticOverflow),
            result matches Ok(score) && !old(self).process_loan_overflows(now, score, amount, term)
                ==> r is Ok,
            r is Err ==> *final(self) == *old(self),
            r is Ok ==> {
                let score = result->Ok_0;
                let rate = old(self).callback_rate(score, term);
                let repayment = repayment_for(amount as nat, rate);
                let loan = Loan {
                    borrower: caller,
                    amount,
                    repayment_amount: repayment as u128,
                    interest_rate: rate as u64,
                    creation_timestamp: now,
                    due_timestamp: due_after(now as nat, term_days(term) as nat) as u64,
                    status: LoanStatus::Active,
                };
                &&& result is Ok
                &&& !old(self).process_loan_overflows(now, score, amount, term)
                &&& r == Ok::<Transfer, LoanError>(Transfer { to: caller, token: payment_token, amount })
                &&& Self::records_loan(*old(self), *final(self), (old(self).loan_counter + 1) as u64, loan)
                &&& *final(self) == (LoanController {
                    loans: final(self).loans,
                    user_loans: final(self).user_loans,
                    loan_counter: (old(self).loan_counter + 1) as u64,
                    active_loans_count: (old(self).active_loans_count + 1) as u64,
                    total_loan_amount: (old(self).total_loan_amount + amount) as u128,
                    total_repayment_amount: (old(self).total_repayment_amount + repayment) as u128,
                    ..*old(self)
                })
            },
    {
        let user_score = match result {
            Ok(s) => s,
            Err(_) => {
                return Err(LoanError::ReputationCallFailed);
            },
        };
        let base_rate = match checked_rate_for_score(self.interest_rate_base, user_score) {
            Some(v) => v,
            None => {
                return Err(LoanError::ArithmeticOverflow);
            },
        };
        let term_adjusted_rate = match self.term_rate_checked(base_rate, term) {
            Some(v) => v,
            None => {
                return Err(LoanError::ArithmeticOverflow);
            },
        };
        let repayment_amount = match Self::repayment_checked(amount, term_adjusted_rate) {
            Some(v) => v,
            None => {
                return Err(LoanError::ArithmeticOverflow);
            },
        };
        if self.total_repayment_amount > u128::MAX - repayment_amount {
            return Err(LoanError::ArithmeticOverflow);
        }
        if self.loan_counter == u64::MAX {
            return Err(LoanError::ArithmeticOverflow);
        }
        let due_timestamp = match Self::due_checked(now, term.get_days()) {
            Some(v) => v,
            None => {
                return Err(LoanError::ArithmeticOverflow);
            },
        };
        if self.total_loan_amount > u128::MAX - amount {
            return Err(LoanError::ArithmeticOverflow);
        }
        let loan = Loan {
            borrower: caller,
            amount,
            repayment_amount,
            interest_rate: term_adjusted_rate,
            creation_timestamp: now,
            due_timestamp,
            status: LoanStatus::Active,
        };
        self.record_loan(loan);
        self.total_loan_amount = self.total_loan_amount + amount;
        self.total_repayment_amount = self.total_repayment_amount + repayment_amount;
        Ok(Transfer { to: caller, token: payment_token, amount })
    }

    /// Opening a direct loan would overflow some counter or amount.
    pub open spec fn sync_loan_overflows(&self, now: u64, amount: u128, duration_days: u64) -> bool {
        ||| self.loan_counter == u64::MAX
        ||| !repayment_fits(amount as nat, self.interest_rate_base as nat)
        ||| due_after(now as nat, duration_days as nat) > u64::MAX
    }

    /// Opens a loan at the base rate for `duration_days` days under the next id (one above
    /// the counter) and counts it as active, unless the caller is blacklisted or already
    /// holds `max_active_loans` loans.
    pub fn request_loan_sync(&mut self, caller: Address, now: u64, amount: u128, duration_days: u64) -> (r:
        Result<u64, LoanError>)
        requires
            old(self).wf(),
        ensures
            final(self).wf(),
            old(self).blacklisted(caller) ==> r == Err::<u64, LoanError>(LoanError::Blacklisted),
            !old(self).blacklisted(caller) && old(self).loans_of(caller).len() >= old(
                self,
            ).max_active_loans ==> r == Err::<u64, LoanError>(LoanError::ActiveLoanLimitReached),
            !old(self).blacklisted(caller) && old(self).loans_of(caller).len() < old(
                self,
            ).max_active_loans && old(self).sync_loan_overflows(now, amount, duration_days) ==> r
                == Err::<u64, LoanError>(LoanError::ArithmeticOverflow),
            !old(self).blacklisted(caller) && old(self).loans_of(caller).len() < old(
                self,
            ).max_active_loans && !old(self).sync_loan_overflows(now, amount, duration_days) ==> r
                is Ok,
            r is Err ==> *final(self) == *old(self),
            r is Ok ==> !old(self).blacklisted(caller),
            r is Ok ==> {
                let rate = old(self).interest_rate_base;
                let loan = Loan {
                    borrower: caller,
                    amount,
                    repayment_amount: repayment_for(amount as nat, rate as nat) as u128,
                    interest_rate: rate,
                    creation_timestamp: now,
                    due_timestamp: due_after(now as nat, duration_days as nat) as u64,
                    status: LoanStatus::Active,
                };
                &&& old(self).loans_of(caller).len() < old(self).max_active_loans
                &&& !old(self).sync_loan_overflows(now, amount, duration_days)
                &&& r == Ok::<u64, LoanError>((old(self).loan_counter + 1) as u64)
                &&& Self::records_loan(*old(self), *final(self), (old(self).loan_counter + 1) as u64, loan)
                &&& *final(self) == (LoanController {
                    loans: final(self).loans,
                    user_loans: final(self).user_loans,
                    loan_counter: (old(self).loan_counter + 1) as u64,
                    active_loans_count: (old(self).active_loans_count + 1) as u64,
                    ..*old(self)
                })
            },
    {
        if self.is_blacklisted(caller) {
            return Err(LoanError::Blacklisted);
        }
        let active_loans: usize = match self.user_loans.get(&caller) {
            Some(v) => v.len(),
            None => 0,
        };
        if active_loans as u64 >= self.max_active_loans {
            return Err(LoanError::ActiveLoanLimitReached);
        }
        if self.loan_counter == u64::MAX {
            return Err(LoanError::ArithmeticOverflow);
        }
        let interest_rate = self.interest_rate_base;
        let repayment_amount = match Self::repayment_checked(amount, interest_rate) {
            Some(v) => v,
            None => {
                return Err(LoanError::ArithmeticOverflow);
            },
        };
        let due_timestamp = match Self::due_checked(now, duration_days) {
            Some(v) => v,
            None => {
                return Err(LoanError::ArithmeticOverflow);
            },
        };
        let loan = Loan {
            borrower: caller,
            amount,
            repayment_amount,
            interest_rate,
            creation_timestamp: now,
            due_timestamp,
            status: LoanStatus::Active,
        };
        let loan_id = self.record_loan(loan);
        Ok(loan_id)
    }

    /// Opening a loan by term would overflow some counter or amount.
    pub open spec fn term_loan_overflows(&self, now: u64, term: LoanTerm) -> bool {
        ||| self.loan_counter == u64::MAX
        ||| due_after(now as nat, term_days(term) as nat) > u64::MAX
        ||| !interest_rate_fits(self.interest_rate_base as nat, 800)
        ||| interest_rate_for_score(self.interest_rate_base as nat, 800) * term_loan_factor(term)
            > u64::MAX
        ||| self.base_loan_amount + self.term_loan_rate(term) > u128::MAX
    }

    /// The rate of a loan opened by term: the rate for a score of 800, scaled by the term's
    /// factor.
    pub open spec fn term_loan_rate(&self, term: LoanTerm) -> nat {
        interest_rate_for_score(self.interest_rate_base as nat, 800) * term_loan_factor(term) / 100
    }

    /// Opens a loan of the base amount for the given term under the next counter value;
    /// its rate is the one for a score of 800 scaled by the term (one and a half times for
    /// the extended term, twice for the maximum term), and the amount to repay is the base
    /// amount plus that rate.
    pub fn request_loan_with_term(&mut self, caller: Address, now: u64, term: LoanTerm) -> (r: Result<
        u64,
        LoanError,
    >)
        requires
            old(self).wf(),
        ensures
            final(self).wf(),
            old(self).blacklisted(caller) ==> r == Err::<u64, LoanError>(LoanError::Blacklisted),
            !old(self).blacklisted(caller) && old(self).term_loan_overflows(now, term) ==> r
                == Err::<u64, LoanError>(LoanError::ArithmeticOverflow),
            !old(self).blacklisted(caller) && !old(self).term_loan_overflows(now, term) ==> r is Ok,
            r is Err ==> *final(self) == *old(self),
            r is Ok ==> !old(self).blacklisted(caller),
            r is Ok && (term == LoanTerm::Standard || term == LoanTerm::Short) ==> {
                let loan = final(self).loans@[(old(self).loan_counter + 1) as u64];
                let rate = interest_rate_for_score(old(self).interest_rate_base as nat, 800);
                &&& loan.interest_rate == rate
                &&& loan.repayment_amount == old(self).base_loan_amount + rate
            },
            r is Ok && term == LoanTerm::Extended ==> final(self).loans@[(old(self).loan_counter
                + 1) as u64].interest_rate == interest_rate_for_score(
                old(self).interest_rate_base as nat,
                800,
            ) * 150 / 100,
            r is Ok && term == LoanTerm::Maximum ==> final(self).loans@[(old(self).loan_counter
                + 1) as u64].interest_rate == interest_rate_for_score(
                old(self).interest_rate_base as nat,
                800,
            ) * 2,
            r is Ok ==> {
                let rate = old(self).term_loan_rate(term);
                let loan_id = (old(self).loan_counter + 1) as u64;
                let loan = Loan {
                    borrower: caller,
                    amount: old(self).base_loan_amount,
                    repayment_amount: (old(self).base_loan_amount + rate) as u128,
                    interest_rate: rate as u64,
                    creation_timestamp: now,
                    due_timestamp: due_after(now as nat, term_days(term) as nat) as u64,
                    status: LoanStatus::Active,
                };
                &&& !old(self).term_loan_overflows(now, term)
                &&& r == Ok::<u64, LoanError>(loan_id)
                &&& Self::records_loan(*old(self), *final(self), loan_id, loan)
                &&& *final(self) == (LoanController {
                    loans: final(self).loans,
                    user_loans: final(self).user_loans,
                    loan_counter: loan_id,
                    active_loans_count: (old(self).active_loans_count + 1) as u64,
                    ..*old(self)
                })
            },
    {
        if self.is_blacklisted(caller) {
            return Err(LoanError::Blacklisted);
        }
        if self.loan_counter == u64::MAX {
            return Err(LoanError::ArithmeticOverflow);
        }
        let due_date = match Self::due_checked(now, term.get_days()) {
            Some(v) => v,
            None => {
                return Err(LoanError::ArithmeticOverflow);
            },
        };
        let score_rate = match checked_rate_for_score(self.interest_rate_base, 800) {
            Some(v) => v,
            None => {
                return Err(LoanError::ArithmeticOverflow);
            },
        };
        let factor = term_factor(term);
        if score_rate > u64::MAX / factor {
            proof {
                assert(score_rate * factor > u64::MAX) by (nonlinear_arith)
                    requires
                        score_rate > u64::MAX / factor,
                        factor > 0,
                ;
            }
            return Err(LoanError::ArithmeticOverflow);
        }
        proof {
            assert(score_rate * factor <= u64::MAX) by (nonlinear_arith)
                requires
                    score_rate <= u64::MAX / factor,
                    factor > 0,
            ;
        }
        let rate = score_rate * factor / 100;
        proof {
            assert(score_rate * 200 / 100 == score_rate * 2) by (nonlinear_arith);
            assert(score_rate * 100 / 100 == score_rate) by (nonlinear_arith);
        }
        let base = self.base_loan_amount;
        if base > u128::MAX - (rate as u128) {
            return Err(LoanError::ArithmeticOverflow);
        }
        let loan = Loan {
            borrower: caller,
            amount: base,
            repayment_amount: base + rate as u128,
            interest_rate: rate,
            creation_timestamp: now,
            due_timestamp: due_date,
            status: LoanStatus::Active,
        };
        let loan_id = self.record_loan(loan);
        Ok(loan_id)
    }

    /// Collateral deposited by `user` towards a new loan (zero when none).
    pub open spec fn pending_of(&self, user: Address) -> nat {
        self.pending_collateral.amount_of(user)
    }

    /// Amount lent against `pending` collateral at the collateral ratio.
    pub open spec fn collateral_loan_amount(&self, pending: nat) -> nat {
        basis_points_of(pending, self.collateral_ratio as nat)
    }

    /// Opening a collateral-backed loan would overflow some counter or amount.
    pub open spec fn collateral_loan_overflows(&self, now: u64, amount: nat) -> bool {
        ||| self.loan_counter == u64::MAX
        ||| !repayment_fits(amount, self.interest_rate_base as nat)
        ||| due_after(now as nat, self.standard_term_days as nat) > u64::MAX
    }

    /// Turns the caller's pending collateral into a loan of `collateral * ratio / 10000` at
    /// the base rate for the standard term, under the next counter value; the collateral
    /// moves to the new loan.
    pub fn request_loan_with_collateral(&mut self, caller: Address, now: u64) -> (r: Result<
        u64,
        LoanError,
    >)
        requires
            old(self).wf(),
        ensures
            final(self).wf(),
            old(self).blacklisted(caller) ==> r == Err::<u64, LoanError>(LoanError::Blacklisted),
            !old(self).blacklisted(caller) && ({
                let pending = old(self).pending_of(caller);
                pending == 0 || pending < old(self).min_collateral_amount
                    || old(self).collateral_loan_amount(pending) == 0
            }) ==> r == Err::<u64, LoanError>(LoanError::InsufficientCollateral),
            r is Err ==> *final(self) == *old(self),
            r is Ok ==> !old(self).blacklisted(caller),
            r is Ok ==> {
                let pending = old(self).pending_of(caller);
                let amount = old(self).collateral_loan_amount(pending);
                let rate = old(self).interest_rate_base;
                let loan_id = (old(self).loan_counter + 1) as u64;
                let loan = Loan {
                    borrower: caller,
                    amount: amount as u128,
                    repayment_amount: repayment_for(amount, rate as nat) as u128,
                    interest_rate: rate,
                    creation_timestamp: now,
                    due_timestamp: due_after(now as nat, old(self).standard_term_days as nat) as u64,
                    status: LoanStatus::Active,
                };
                &&& pending > 0
                &&& pending >= old(self).min_collateral_amount
                &&& amount > 0
                &&& !old(self).collateral_loan_overflows(now, amount)
                &&& r == Ok::<u64, LoanError>(loan_id)
                &&& Self::records_loan(*old(self), *final(self), loan_id, loan)
                &&& final(self).loan_collateral@ == old(self).loan_collateral@.insert(
                    loan_id,
                    pending as u128,
                )
                &&& final(self).pending_collateral@ == old(self).pending_collateral@.insert(
                    caller,
                    0,
                )
                &&& *final(self) == (LoanController {
                    loans: final(self).loans,
                    user_loans: final(self).user_loans,
                    loan_collateral: final(self).loan_collateral,
                    pending_collateral: final(self).pending_collateral,
                    loan_counter: loan_id,
                    active_loans_count: (old(self).active_loans_count + 1) as u64,
                    ..*old(self)
                })
            },
            !old(self).blacklisted(caller) && ({
                let pending = old(self).pending_of(caller);
                let amount = old(self).collateral_loan_amount(pending);
                pending > 0 && pending >= old(self).min_collateral_amount && amount > 0
                    && old(self).collateral_loan_overflows(now, amount)
            }) ==> r == Err::<u64, LoanError>(LoanError::ArithmeticOverflow),
            !old(self).blacklisted(caller) && ({
                let pending = old(self).pending_of(caller);
                let amount = old(self).collateral_loan_amount(pending);
                pending > 0 && pending >= old(self).min_collateral_amount && amount > 0
                    && !old(self).collateral_loan_overflows(now, amount)
            }) ==> r is Ok,
    {
        if self.is_blacklisted(caller) {
            return Err(LoanError::Blacklisted);
        }
        let pending = self.pending_collateral.amount(&caller);
        if pending == 0 {
            return Err(LoanError::InsufficientCollateral);
        }
        if pending < self.min_collateral_amount {
            return Err(LoanError::InsufficientCollateral);
        }
        let amount = apply_basis_points(pending, self.collateral_ratio);
        if amount == 0 {
            return Err(LoanError::InsufficientCollateral);
        }
        if self.loan_counter == u64::MAX {
            return Err(LoanError::ArithmeticOverflow);
        }
        let interest_rate = self.interest_rate_base;
        let repayment_amount = match Self::repayment_checked(amount, interest_rate) {
            Some(v) => v,
            None => {
                return Err(LoanError::ArithmeticOverflow);
            },
        };
        let due = match Self::due_checked(now, self.standard_term_days) {
            Some(v) => v,
            None => {
                return Err(LoanError::ArithmeticOverflow);
            },
        };
        let loan = Loan {
            borrower: caller,
            amount,
            repayment_amount,
            interest_rate,
            creation_timestamp: now,
            due_timestamp: due,
            status: LoanStatus::Active,
        };
        let loan_id = self.record_loan(loan);
        self.loan_collateral.set_amount(loan_id, pending);
        self.pending_collateral.set_amount(caller, 0);
        Ok(loan_id)
    }
}

/// A higher reputation score never raises the interest rate.
pub proof fn lemma_rate_nonincreasing_in_score(base_rate: nat, s1: nat, s2: nat)
    requires
        s1 <= s2,
    ensures
        interest_rate_for_score(base_rate, s2) <= interest_rate_for_score(base_rate, s1),
{
    if s2 < 1000 {
        let f1 = s1 * 80 / 1000;
        let f2 = s2 * 80 / 1000;
        vstd::arithmetic::div_mod::lemma_div_is_ordered((s1 * 80) as int, (s2 * 80) as int, 1000);
        assert(base_rate * ((100 - f2) as nat) <= base_rate * ((100 - f1) as nat)) by (nonlinear_arith)
            requires
                f1 <= f2,
                f2 < 100,
        ;
        vstd::arithmetic::div_mod::lemma_div_is_ordered(
            (base_rate * ((100 - f2) as nat)) as int,
            (base_rate * ((100 - f1) as nat)) as int,
            100,
        );
    } else if s1 < 1000 {
        let f1 = s1 * 80 / 1000;
        assert(f1 < 80);
        assert(base_rate * 20 <= base_rate * ((100 - f1) as nat)) by (nonlinear_arith)
            requires
                f1 < 80,
        ;
        vstd::arithmetic::div_mod::lemma_div_is_ordered(
            (base_rate * 20) as int,
            (base_rate * ((100 - f1) as nat)) as int,
            100,
        );
        assert(base_rate / 5 == base_rate * 20 / 100) by (nonlinear_arith);
    }
}

/// A user with the top score of 1000 pays a fifth of the base rate (2% on a 10% base).
pub proof fn lemma_top_score_rate(base_rate: nat)
    ensures
        interest_rate_for_score(base_rate, 1000) == base_rate / 5,
        interest_rate_for_score(1000, 1000) == 200,
        interest_rate_for_score(1000, 0) == 1000,
{
    assert(1000nat * 100 / 100 == 1000) by (nonlinear_arith);
}

/// The rate for a score never exceeds the base rate.
pub proof fn lemma_rate_within_base(base_rate: nat, score: nat)
    ensures
        interest_rate_for_score(base_rate, score) <= base_rate,
{
    if score < 1000 {
        let m = (100 - score * 80 / 1000) as nat;
        assert(base_rate * m <= base_rate * 100) by (nonlinear_arith)
            requires
                m <= 100,
        ;
        vstd::arithmetic::div_mod::lemma_div_is_ordered((base_rate * m) as int, (base_rate * 100) as int, 100);
        vstd::arithmetic::div_mod::lemma_div_multiples_vanish(base_rate as int, 100);
    }
}

/// A loan opened by term carries the rate for a score of 800 unchanged for the standard
/// and short terms, one and a half times it for the extended term and twice it for the
/// maximum term, whatever the base rate.
pub proof fn lemma_term_loan_rate_by_term(c: LoanController)
    ensures
        c.term_loan_rate(LoanTerm::Standard) == interest_rate_for_score(c.interest_rate_base as nat, 800),
        c.term_loan_rate(LoanTerm::Short) == interest_rate_for_score(c.interest_rate_base as nat, 800),
        c.term_loan_rate(LoanTerm::Extended) == interest_rate_for_score(c.interest_rate_base as nat, 800)
            * 3 / 2,
        c.term_loan_rate(LoanTerm::Maximum) == interest_rate_for_score(c.interest_rate_base as nat, 800)
            * 2,
{
    let r = interest_rate_for_score(c.interest_rate_base as nat, 800);
    assert(r * 100 / 100 == r) by (nonlinear_arith);
    assert(r * 150 / 100 == r * 3 / 2) by (nonlinear_arith);
    assert(r * 200 / 100 == r * 2) by (nonlinear_arith);
}

/// Longer terms never carry a lower rate: short <= standard <= extended <= maximum.
pub proof fn lemma_term_rates_ordered(base_rate: nat)
    ensures
        term_rate(base_rate, LoanTerm::Short) <= term_rate(base_rate, LoanTerm::Standard),
        term_rate(base_rate, LoanTerm::Standard) <= term_rate(base_rate, LoanTerm::Extended),
        term_rate(base_rate, LoanTerm::Extended) <= term_rate(base_rate, LoanTerm::Maximum),
{
    assert(base_rate * 8 / 10 <= base_rate) by {
        vstd::arithmetic::div_mod::lemma_div_is_ordered((base_rate * 8) as int, (base_rate * 10) as int, 10);
        vstd::arithmetic::div_mod::lemma_div_multiples_vanish(base_rate as int, 10);
    }
    assert(base_rate <= base_rate * 12 / 10) by {
        vstd::arithmetic::div_mod::lemma_div_is_ordered((base_rate * 10) as int, (base_rate * 12) as int, 10);
        vstd::arithmetic::div_mod::lemma_div_multiples_vanish(base_rate as int, 10);
    }
    vstd::arithmetic::div_mod::lemma_div_is_ordered((base_rate * 12) as int, (base_rate * 15) as int, 10);
}

/// Simple interest on `principal` at `rate` basis points a year over `duration_days` days:
/// `principal * rate * duration_days / (10000 * 365)`.
pub open spec fn simple_interest(principal: nat, rate: nat, duration_days: nat) -> nat {
    principal * rate * duration_days / (10000 * 365)
}

/// Simple interest on `principal` at `rate` basis points a year over `duration_days` days.
pub fn calculate_interest_amount(principal: u128, rate: u64, duration_days: u64) -> (r: u128)
    requires
        principal * rate * duration_days <= u128::MAX,
    ensures
        r == simple_interest(principal as nat, rate as nat, duration_days as nat),
{
    if duration_days == 0 {
        assert(principal * rate * duration_days == 0) by (nonlinear_arith)
            requires
                duration_days == 0,
        ;
        return 0;
    }
    assert(principal * rate <= principal * rate * duration_days) by (nonlinear_arith)
        requires
            duration_days >= 1,
    ;
    let product: u128 = principal * (rate as u128) * (duration_days as u128);
    product / 3650000
}

/// Whether `repayment_amount` is exactly the principal plus its interest at `interest_rate`
/// basis points.
pub fn verify_loan_consistency(loan_amount: u128, repayment_amount: u128, interest_rate: u64) -> (r: bool)
    ensures
        r == (repayment_for(loan_amount as nat, interest_rate as nat) == repayment_amount),
{
    let q: u128 = loan_amount / 10000;
    let rem: u128 = loan_amount % 10000;
    proof {
        vstd::arithmetic::div_mod::lemma_fundamental_div_mod(loan_amount as int, 10000);
    }
    let high = match q.checked_mul(interest_rate as u128) {
        Some(v) => v,
        None => {
            proof {
                lemma_interest_split(loan_amount as nat, interest_rate as nat);
            }
            return false;
        },
    };
    proof {
        assert(rem * interest_rate < 10000 * 18446744073709551616) by (nonlinear_arith)
            requires rem < 10000, interest_rate < 18446744073709551616;
    }
    let low: u128 = rem * (interest_rate as u128) / 10000;
    proof {
        lemma_interest_split(loan_amount as nat, interest_rate as nat);
    }
    let interest = match high.checked_add(low) {
        Some(v) => v,
        None => {
            return false;
        },
    };
    match loan_amount.checked_add(interest) {
        Some(expected) => expected == repayment_amount,
        None => false,
    }
}

/// Interest splits along the principal's division by 10000:
/// `interest_on(a, r) == (a / 10000) * r + (a % 10000) * r / 10000`.
proof fn lemma_interest_split(a: nat, rate: nat)
    ensures
        interest_on(a, rate) == (a / 10000) * rate + (a % 10000) * rate / 10000,
{
    let q = (a / 10000) as int;
    let m = (a % 10000) as int;
    let x = (a * rate) as int;
    let lr = m * (rate as int);
    vstd::arithmetic::div_mod::lemma_fundamental_div_mod(a as int, 10000);
    vstd::arithmetic::div_mod::lemma_fundamental_div_mod(lr, 10000);
    assert(x == (q * (rate as int)) * 10000 + lr) by (nonlinear_arith)
        requires
            a == 10000 * q + m,
            x == (a as int) * (rate as int),
            lr == m * (rate as int),
    ;
    assert(x == (q * (rate as int) + lr / 10000) * 10000 + lr % 10000) by (nonlinear_arith)
        requires
            x == (q * (rate as int)) * 10000 + lr,
            lr == 10000 * (lr / 10000) + lr % 10000,
    ;
    vstd::arithmetic::div_mod::lemma_fundamental_div_mod_converse(
        x,
        10000,
        q * (rate as int) + lr / 10000,
        lr % 10000,
    );
}

/// Loans are numbered from one: a new loan is recorded one above the counter, which then
/// moves up to it. While every recorded id lies between one and the counter, a new loan
/// therefore never replaces an existing one, and every id stays within the counter.
pub proof fn lemma_new_loan_never_overwrites(before: LoanController, after: LoanController, loan: Loan)
    requires
        before.ids_within_counter(),
        after.loan_counter == before.loan_counter + 1,
        LoanController::records_loan(before, after, after.loan_counter, loan),
    ensures
        after.ids_within_counter(),
        !before.loans@.dom().contains(after.loan_counter),
        forall|id: u64| #[trigger]
            before.loans@.dom().contains(id) ==> after.loans@.dom().contains(id)
                && after.loans@[id] == before.loans@[id],
{
}

} // verus!
