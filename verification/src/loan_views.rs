//! Read-only views of the loan desk: loan details, a user's loans by status,
//! statistics over all loans, due dates and loan-amount limits.
use vstd::prelude::*;

use crate::address::Address;
use crate::loan_controller::{term_days, Loan, LoanController, LoanStatus, LoanTerm};
use crate::loan_requests::due_after;

verus! {

/// Longest loan duration `calculate_due_date_safely` accepts: ten years, in seconds.
pub const MAX_LOAN_DURATION_SECONDS: u64 = 315360000;

impl LoanController {
    /// The ids among `ids` whose loan has `status`, in order.
    pub open spec fn ids_with_status(&self, ids: Seq<u64>, status: LoanStatus) -> Seq<u64>
        decreases ids.len(),
    {
        if ids.len() == 0 {
            Seq::empty()
        } else {
            let prev = self.ids_with_status(ids.drop_last(), status);
            if self.loans@[ids.last()].status == status {
                prev.push(ids.last())
            } else {
                prev
            }
        }
    }

    /// Details of `loan_id`: none for id zero or an id above the counter.
    pub fn get_loan_details(&self, loan_id: u64) -> (r: Option<Loan>)
        requires
            self.wf(),
        ensures
            loan_id == 0 || loan_id > self.loan_counter ==> r is None,
            0 < loan_id <= self.loan_counter ==> r == Some(self.loans@[loan_id]),
    {
        if loan_id == 0 || loan_id > self.loan_counter {
            return None;
        }
        match self.loans.get(&loan_id) {
            Some(l) => Some(*l),
            None => None,
        }
    }

    /// All loan ids recorded for `user`, oldest first.
    pub fn get_user_loan_history(&self, user: Address) -> (r: Vec<u64>)
        requires
            self.wf(),
        ensures
            r@ == self.loans_of(user),
    {
        match self.user_loans.get(&user) {
            Some(v) => v.clone(),
            None => Vec::new(),
        }
    }

    fn user_loans_with_status(&self, user: Address, status: LoanStatus) -> (r: Vec<u64>)
        requires
            self.wf(),
        ensures
            r@ == self.ids_with_status(self.loans_of(user), status),
    {
        let ids = self.get_user_loan_history(user);
        let mut out: Vec<u64> = Vec::new();
        let mut i: usize = 0;
        while i < ids.len()
            invariant
                self.wf(),
                ids@ == self.loans_of(user),
                i <= ids@.len(),
                out@ == self.ids_with_status(ids@.take(i as int), status),
            decreases ids@.len() - i,
        {
            let id = ids[i];
            proof {
                assert(ids@.take(i as int + 1).drop_last() =~= ids@.take(i as int));
                assert(self.user_loans@[user]@[i as int] == id);
            }
            match self.loans.get(&id) {
                Some(l) => {
                    if l.status == status {
                        out.push(id);
                    }
                },
                None => {},
            }
            i = i + 1;
        }
        proof {
            assert(ids@.take(ids@.len() as int) =~= ids@);
        }
        out
    }

    /// The active loan ids of `user`, oldest first.
    pub fn get_user_active_loans(&self, user: Address) -> (r: Vec<u64>)
        requires
            self.wf(),
        ensures
            r@ == self.ids_with_status(self.loans_of(user), LoanStatus::Active),
    {
        self.user_loans_with_status(user, LoanStatus::Active)
    }

    /// The repaid loan ids of `user`, oldest first.
    pub fn get_user_repaid_loans(&self, user: Address) -> (r: Vec<u64>)
        requires
            self.wf(),
        ensures
            r@ == self.ids_with_status(self.loans_of(user), LoanStatus::Repaid),
    {
        self.user_loans_with_status(user, LoanStatus::Repaid)
    }

    /// The due timestamp of a loan of `term` opened at `now`.
    pub fn calculate_due_date(&self, now: u64, term: LoanTerm) -> (r: u64)
        requires
            due_after(now as nat, term_days(term) as nat) <= u64::MAX,
        ensures
            r == due_after(now as nat, term_days(term) as nat),
    {
        let duration_seconds = term.get_days() * 24 * 60 * 60;
        now + duration_seconds
    }

    /// `now` plus the term, the term capped at ten years.
    pub fn calculate_due_date_safely(&self, now: u64, term_in_seconds: u64) -> (r: u64)
        requires
            now + (if term_in_seconds < MAX_LOAN_DURATION_SECONDS {
                term_in_seconds
            } else {
                MAX_LOAN_DURATION_SECONDS
            }) <= u64::MAX,
        ensures
            r == now + (if term_in_seconds < MAX_LOAN_DURATION_SECONDS {
                term_in_seconds
            } else {
                MAX_LOAN_DURATION_SECONDS
            }),
    {
        let safe_term = if term_in_seconds < MAX_LOAN_DURATION_SECONDS {
            term_in_seconds
        } else {
            MAX_LOAN_DURATION_SECONDS
        };
        now + safe_term
    }

    /// The loan amount granted for a requested `base_amount`: always the base loan amount,
    /// whatever is requested.
    pub fn calculate_loan_amount_with_limits(&self, base_amount: u128) -> (r: u128)
        ensures
            r == self.base_loan_amount,
    {
        let _requested = base_amount;
        self.base_loan_amount
    }

    /// The loan amount for a reputation `score`: the base loan amount scaled by
    /// `score / 1000`, so a score of 1000 gets the base amount.
    pub fn calculate_loan_amount(&self, score: u64) -> (r: u128)
        requires
            self.base_loan_amount * score <= u128::MAX,
        ensures
            r == self.base_loan_amount * score / 1000,
    {
        self.base_loan_amount * (score as u128) / 1000
    }

    /// Pool utilization: the amount lent out per unit of available funds, in basis points.
    pub fn calculate_utilization(&self) -> (r: u64)
        requires
            self.available_funds > 0,
            self.total_active_loan_amount * 10000 <= u128::MAX,
            self.total_active_loan_amount * 10000 / self.available_funds as int <= u64::MAX,
        ensures
            r == self.total_active_loan_amount * 10000 / self.available_funds as int,
    {
        let scaled = self.total_active_loan_amount * 10000;
        (scaled / self.available_funds) as u64
    }

    /// The interest rate for a pool `utilization`: the base rate at the target; above it,
    /// raised by the over-utilization multiplier times the relative excess; below it,
    /// lowered by the under-utilization multiplier times the relative shortfall.
    pub fn calculate_dynamic_interest_rate(&self, utilization: u64) -> (r: u64)
        requires
            dynamic_rate_defined(
                self.interest_rate_base as nat,
                self.target_utilization as nat,
                self.over_utilization_multiplier as nat,
                self.under_utilization_multiplier as nat,
                utilization as nat,
            ),
        ensures
            r == dynamic_rate(
                self.interest_rate_base as nat,
                self.target_utilization as nat,
                self.over_utilization_multiplier as nat,
                self.under_utilization_multiplier as nat,
                utilization as nat,
            ),
    {
        let base = self.interest_rate_base;
        let target = self.target_utilization;
        if target == 0 || utilization == target {
            return base;
        }
        let factor: u128 = if utilization > target {
            let d: u128 = (utilization - target) as u128;
            let m: u128 = self.over_utilization_multiplier as u128;
            proof {
                assert(d * m <= 0xffff_ffff_ffff_ffff * 0xffff_ffff_ffff_ffffu128) by (nonlinear_arith)
                    requires
                        d <= 0xffff_ffff_ffff_ffff,
                        m <= 0xffff_ffff_ffff_ffff,
                ;
            }
            let excess = d * m;
            proof {
                assert(excess / (target as u128) <= excess) by (nonlinear_arith)
                    requires
                        target > 0,
                        excess >= 0,
                ;
            }
            10000 + excess / (target as u128)
        } else {
            let d: u128 = (target - utilization) as u128;
            let m: u128 = self.under_utilization_multiplier as u128;
            proof {
                assert(d * m <= 0xffff_ffff_ffff_ffff * 0xffff_ffff_ffff_ffffu128) by (nonlinear_arith)
                    requires
                        d <= 0xffff_ffff_ffff_ffff,
                        m <= 0xffff_ffff_ffff_ffff,
                ;
            }
            let shortfall = d * m;
            10000 - shortfall / (target as u128)
        };
        let ghost k = factor as nat;
        proof {
            assert(base * k / 10000 <= u64::MAX);
            assert(base * k < 0x1_0000_0000_0000_0000 * 10000) by (nonlinear_arith)
                requires
                    base * k / 10000 <= u64::MAX,
                    base * k >= 0,
            ;
        }
        ((base as u128) * factor / 10000) as u64
    }

    /// Number of days of `term`.
    pub fn get_loan_term_days(&self, term: LoanTerm) -> (r: u64)
        ensures
            r == term_days(term),
    {
        term.get_days()
    }

    /// Loans from one up to the counter that are active, repaid, and overdue at `now`.
    fn count_loans(&self, now: u64) -> (r: (u64, u64, u64))
        requires
            self.wf(),
        ensures
            r.0 == count_status(self.loans@, self.loan_counter as nat, LoanStatus::Active),
            r.1 == count_status(self.loans@, self.loan_counter as nat, LoanStatus::Repaid),
            r.2 == count_overdue(self.loans@, self.loan_counter as nat, now as nat, self.grace_period_days as nat),
    {
        let mut active: u64 = 0;
        let mut repaid: u64 = 0;
        let mut overdue: u64 = 0;
        let mut id: u64 = 0;
        while id < self.loan_counter
            invariant
                self.wf(),
                id <= self.loan_counter,
                active <= id,
                repaid <= id,
                overdue <= id,
                active == count_status(self.loans@, id as nat, LoanStatus::Active),
                repaid == count_status(self.loans@, id as nat, LoanStatus::Repaid),
                overdue == count_overdue(self.loans@, id as nat, now as nat, self.grace_period_days as nat),
            decreases self.loan_counter - id,
        {
            id = id + 1;
            assert(self.loans@.dom().contains(id));
            let l = *self.loans.get(&id).unwrap();
            if l.status == LoanStatus::Active {
                active = active + 1;
            }
            if l.status == LoanStatus::Repaid {
                repaid = repaid + 1;
            }
            if l.status == LoanStatus::Defaulted || self.is_expired(&l, now) {
                overdue = overdue + 1;
            }
        }
        (active, repaid, overdue)
    }

    /// Sum over the loans from one up to the counter of the amounts to repay when
    /// `repayments` holds, else of the amounts lent; a sum beyond 128 bits gives the
    /// largest 128-bit value.
    fn sum_loans(&self, repayments: bool) -> (r: u128)
        requires
            self.wf(),
        ensures
            r == capped(loans_total(self.loans@, self.loan_counter as nat, repayments)),
    {
        let mut total: u128 = 0;
        let mut id: u64 = 0;
        while id < self.loan_counter
            invariant
                self.wf(),
                id <= self.loan_counter,
                total == capped(loans_total(self.loans@, id as nat, repayments)),
            decreases self.loan_counter - id,
        {
            id = id + 1;
            assert(self.loans@.dom().contains(id));
            let l = *self.loans.get(&id).unwrap();
            let x: u128 = if repayments {
                l.repayment_amount
            } else {
                l.amount
            };
            if total > u128::MAX - x {
                total = u128::MAX;
            } else {
                total = total + x;
            }
        }
        total
    }

    /// Number of loans that are active.
    pub fn get_active_loans_count(&self) -> (r: u64)
        requires
            self.wf(),
        ensures
            r == count_status(self.loans@, self.loan_counter as nat, LoanStatus::Active),
    {
        self.count_loans(0).0
    }

    /// Number of loans repaid in full.
    pub fn get_repaid_loans_count(&self) -> (r: u64)
        requires
            self.wf(),
        ensures
            r == count_status(self.loans@, self.loan_counter as nat, LoanStatus::Repaid),
    {
        self.count_loans(0).1
    }

    /// Number of loans overdue at `now`: defaulted, or active and past their due time by
    /// the grace period or more.
    pub fn get_overdue_loans_count(&self, now: u64) -> (r: u64)
        requires
            self.wf(),
        ensures
            r == count_overdue(self.loans@, self.loan_counter as nat, now as nat, self.grace_period_days as nat),
            r == self.expiring_count(now, self.loan_counter as nat) + count_status(
                self.loans@,
                self.loan_counter as nat,
                LoanStatus::Defaulted,
            ),
    {
        proof {
            lemma_overdue_are_defaulted_or_expiring(*self, now, self.loan_counter as nat);
        }
        self.count_loans(now).2
    }

    /// Total amount lent over all loans (the largest 128-bit value if it does not fit).
    pub fn get_total_loan_amount(&self) -> (r: u128)
        requires
            self.wf(),
        ensures
            r == capped(sum_amounts(self.loans@, self.loan_counter as nat)),
    {
        self.sum_loans(false)
    }

    /// Total amount to repay over all loans (the largest 128-bit value if it does not
    /// fit).
    pub fn get_total_repayment_amount(&self) -> (r: u128)
        requires
            self.wf(),
        ensures
            r == capped(sum_repayments(self.loans@, self.loan_counter as nat)),
    {
        self.sum_loans(true)
    }
}

/// The loans overdue at `now` are exactly the defaulted ones and those that marking
/// expired loans at `now` would default (active and past their due time by the grace
/// period): an active loan still within its grace period is not overdue.
pub proof fn lemma_overdue_are_defaulted_or_expiring(c: LoanController, now: u64, n: nat)
    requires
        c.wf(),
        n <= c.loan_counter,
    ensures
        count_overdue(c.loans@, n, now as nat, c.grace_period_days as nat) == c.expiring_count(now, n)
            + count_status(c.loans@, n, LoanStatus::Defaulted),
        forall|id: u64|
            1 <= id <= n ==> (is_overdue(c.loans@[id], now as nat, c.grace_period_days as nat) <==> (
            c.loans@[id].status == LoanStatus::Defaulted || #[trigger] c.expires_at(id, now))),
    decreases n,
{
    if n > 0 {
        lemma_overdue_are_defaulted_or_expiring(c, now, (n - 1) as nat);
        let id = n as u64;
        assert(c.loans@.dom().contains(id));
    }
    assert forall|id: u64|
        1 <= id <= n implies (is_overdue(c.loans@[id], now as nat, c.grace_period_days as nat) <==> (
        c.loans@[id].status == LoanStatus::Defaulted || #[trigger] c.expires_at(id, now))) by {
        assert(c.loans@.dom().contains(id));
    }
}

/// Number of loans among ids one up to `n` with `status`.
pub open spec fn count_status(loans: Map<u64, Loan>, n: nat, status: LoanStatus) -> nat
    decreases n,
{
    if n == 0 {
        0
    } else {
        count_status(loans, (n - 1) as nat, status) + if loans[n as u64].status == status {
            1nat
        } else {
            0nat
        }
    }
}

/// A loan is overdue at `now`: defaulted, or active and past its due time by the grace
/// period or more.
pub open spec fn is_overdue(l: Loan, now: nat, grace_days: nat) -> bool {
    ||| l.status == LoanStatus::Defaulted
    ||| l.status == LoanStatus::Active && now >= l.due_timestamp + grace_days * 86400
}

/// Number of loans among ids one up to `n` overdue at `now`.
pub open spec fn count_overdue(loans: Map<u64, Loan>, n: nat, now: nat, grace_days: nat) -> nat
    decreases n,
{
    if n == 0 {
        0
    } else {
        count_overdue(loans, (n - 1) as nat, now, grace_days) + if is_overdue(
            loans[n as u64],
            now,
            grace_days,
        ) {
            1nat
        } else {
            0nat
        }
    }
}

/// Sum of the amounts lent on the loans among ids one up to `n`.
pub open spec fn sum_amounts(loans: Map<u64, Loan>, n: nat) -> nat
    decreases n,
{
    if n == 0 {
        0
    } else {
        sum_amounts(loans, (n - 1) as nat) + loans[n as u64].amount as nat
    }
}

/// Sum of the amounts to repay on the loans among ids one up to `n`.
pub open spec fn sum_repayments(loans: Map<u64, Loan>, n: nat) -> nat
    decreases n,
{
    if n == 0 {
        0
    } else {
        sum_repayments(loans, (n - 1) as nat) + loans[n as u64].repayment_amount as nat
    }
}

/// Sum of the amounts to repay (when `repayments` holds) or lent over the loans among
/// ids one up to `n`.
pub open spec fn loans_total(loans: Map<u64, Loan>, n: nat, repayments: bool) -> nat {
    if repayments {
        sum_repayments(loans, n)
    } else {
        sum_amounts(loans, n)
    }
}

/// The dynamic interest rate for `utilization` (see `calculate_dynamic_interest_rate`).
pub open spec fn dynamic_rate(base: nat, target: nat, over: nat, under: nat, utilization: nat) -> int {
    if target == 0 || utilization == target {
        base as int
    } else if utilization > target {
        base * (10000 + (utilization - target) * over / (target as int)) / 10000
    } else {
        base * (10000 - (target - utilization) * under / (target as int)) / 10000
    }
}

/// The dynamic rate is defined: the reduction below the target does not exceed the whole
/// rate, and the rate fits in 64 bits.
pub open spec fn dynamic_rate_defined(base: nat, target: nat, over: nat, under: nat, utilization: nat) -> bool {
    &&& (target > 0 && utilization < target ==> (target - utilization) * under / (target as int) <= 10000)
    &&& 0 <= dynamic_rate(base, target, over, under, utilization) <= u64::MAX
}

/// `n` when it fits in 128 bits, else the largest 128-bit value.
pub open spec fn capped(n: nat) -> u128 {
    if n <= u128::MAX {
        n as u128
    } else {
        u128::MAX
    }
}

} // verus!
