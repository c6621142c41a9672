//! Repaying, partially repaying and extending loans, and marking loans as
//! defaulted by hand or once they are due.
use vstd::prelude::*;

use crate::address::Address;
use crate::loan_controller::{less_or_zero, Loan, LoanController, LoanError, LoanStatus};
use crate::math::{apply_basis_points, basis_points_of, checked_mul_div};

verus! {

/// Whole days by which `now` is past `due` (zero when not past).
pub open spec fn days_late(now: u64, due: u64) -> nat {
    if now > due {
        ((now - due) / 86400) as nat
    } else {
        0
    }
}

/// Late fee on `owed` at `daily_rate` basis points a day for `days` days.
pub open spec fn late_fee(owed: nat, daily_rate: nat, days: nat) -> nat {
    owed * (daily_rate * days) / 10000
}

impl LoanController {
    /// What repaying `loan_id` at `now` costs: the amount owed plus the late fee of
    /// `late_fee_daily_rate` basis points of it for each whole day past the due time.
    pub open spec fn amount_due(&self, loan_id: u64, now: u64) -> nat {
        let loan = self.loans@[loan_id];
        loan.repayment_amount as nat + late_fee(
            loan.repayment_amount as nat,
            self.late_fee_daily_rate as nat,
            days_late(now, loan.due_timestamp),
        )
    }

    /// Computing the amount due stays within 128 bits.
    pub open spec fn amount_due_fits(&self, loan_id: u64, now: u64) -> bool {
        let loan = self.loans@[loan_id];
        &&& loan.repayment_amount * (self.late_fee_daily_rate * days_late(now, loan.due_timestamp))
            <= u128::MAX
        &&& self.amount_due(loan_id, now) <= u128::MAX
    }

    /// The refusal, if any, of a full repayment of `loan_id` by `caller` paying `payment` at `now`,
    /// checked in order: existence, borrower, status, amount, then arithmetic.
    pub open spec fn repay_refusal(&self, caller: Address, now: u64, payment: u128, loan_id: u64) -> Option<
        LoanError,
    > {
        let loan = self.loans@[loan_id];
        if !self.loans@.dom().contains(loan_id) {
            Some(LoanError::LoanNotFound)
        } else if loan.borrower != caller {
            Some(LoanError::NotBorrower)
        } else if loan.status != LoanStatus::Active {
            Some(LoanError::LoanNotActive)
        } else if !self.amount_due_fits(loan_id, now) {
            Some(LoanError::ArithmeticOverflow)
        } else if payment != self.amount_due(loan_id, now) {
            Some(LoanError::IncorrectRepaymentAmount)
        } else if self.repaid_loans_count == u64::MAX || (now <= loan.due_timestamp
            && self.on_time_payments.count_of(caller) == u64::MAX) {
            Some(LoanError::ArithmeticOverflow)
        } else if payment < loan.amount {
            Some(LoanError::RepaymentBelowPrincipal)
        } else if self.total_interest_earned + (payment - loan.amount) > u128::MAX {
            Some(LoanError::ArithmeticOverflow)
        } else {
            None
        }
    }

    /// Repays `loan_id` in full with `payment`, which must be the amount due (the amount
    /// owed plus any late fee): the loan becomes repaid, the repaid-loan count grows, the
    /// active-loan count shrinks, an on-time repayment is counted for the borrower, and the interest (payment less
    /// principal, late fee included) is added to the interest earned.
    pub fn repay_loan(&mut self, caller: Address, now: u64, payment: u128, loan_id: u64) -> (r: Result<
        (),
        LoanError,
    >)
        requires
            old(self).wf(),
        ensures
            final(self).wf(),
            r is Err <==> old(self).repay_refusal(caller, now, payment, loan_id) is Some,
            r matches Err(e) ==> old(self).repay_refusal(caller, now, payment, loan_id) == Some(e),
            r is Err ==> *final(self) == *old(self),
            r is Ok ==> {
                let loan = old(self).loans@[loan_id];
                &&& final(self).loans@ == old(self).loans@.insert(
                    loan_id,
                    Loan { status: LoanStatus::Repaid, ..loan },
                )
                &&& now <= loan.due_timestamp ==> final(self).on_time_payments@ == old(self).on_time_payments@.insert(
                    caller,
                    (old(self).on_time_payments.count_of(caller) + 1) as u64,
                )
                &&& now > loan.due_timestamp ==> final(self).on_time_payments@ == old(self).on_time_payments@
                &&& *final(self) == (LoanController {
                    loans: final(self).loans,
                    on_time_payments: final(self).on_time_payments,
                    repaid_loans_count: (old(self).repaid_loans_count + 1) as u64,
                    active_loans_count: less_or_zero(old(self).active_loans_count, 1),
                    total_interest_earned: (old(self).total_interest_earned + (payment
                        - loan.amount)) as u128,
                    ..*old(self)
                })
            },
    {
        let mut loan = match self.loans.get(&loan_id) {
            Some(l) => *l,
            None => {
                return Err(LoanError::LoanNotFound);
            },
        };
        if loan.borrower != caller {
            return Err(LoanError::NotBorrower);
        }
        if loan.status != LoanStatus::Active {
            return Err(LoanError::LoanNotActive);
        }
        let due_ts = loan.due_timestamp;
        let days: u64 = if now > due_ts {
            (now - due_ts) / 86400
        } else {
            0
        };
        proof {
            assert(self.late_fee_daily_rate * days <= u64::MAX) by (nonlinear_arith)
                requires
                    self.late_fee_daily_rate <= 10000,
                    days <= u64::MAX / 86400,
            ;
        }
        let rate_days: u64 = self.late_fee_daily_rate * days;
        let fee = match checked_mul_div(loan.repayment_amount, rate_days as u128, 10000) {
            Some(f) => f,
            None => {
                return Err(LoanError::ArithmeticOverflow);
            },
        };
        let amount_due = match loan.repayment_amount.checked_add(fee) {
            Some(v) => v,
            None => {
                return Err(LoanError::ArithmeticOverflow);
            },
        };
        if payment != amount_due {
            return Err(LoanError::IncorrectRepaymentAmount);
        }
        let on_time = now <= due_ts;
        let on_time_count = self.on_time_payments.count(&caller);
        if self.repaid_loans_count == u64::MAX || (on_time && on_time_count == u64::MAX) {
            return Err(LoanError::ArithmeticOverflow);
        }
        if payment < loan.amount {
            return Err(LoanError::RepaymentBelowPrincipal);
        }
        let interest = payment - loan.amount;
        if self.total_interest_earned > u128::MAX - interest {
            return Err(LoanError::ArithmeticOverflow);
        }
        loan.status = LoanStatus::Repaid;
        self.loans.insert(loan_id, loan);
        self.repaid_loans_count = self.repaid_loans_count + 1;
        if self.active_loans_count > 0 {
            self.active_loans_count = self.active_loans_count - 1;
        }
        if on_time {
            self.on_time_payments.insert(caller, on_time_count + 1);
        }
        self.total_interest_earned = self.total_interest_earned + interest;
        Ok(())
    }

    /// The refusal, if any, of a partial repayment of `loan_id` by `caller` paying `paid`.
    pub open spec fn partial_repay_refusal(&self, caller: Address, paid: u128, loan_id: u64) -> Option<
        LoanError,
    > {
        let loan = self.loans@[loan_id];
        if !self.allow_partial_repayments {
            Some(LoanError::PartialRepaymentsDisabled)
        } else if !self.loans@.dom().contains(loan_id) {
            Some(LoanError::LoanNotFound)
        } else if loan.borrower != caller {
            Some(LoanError::NotBorrower)
        } else if loan.status != LoanStatus::Active {
            Some(LoanError::LoanNotActive)
        } else if paid == 0 {
            Some(LoanError::ZeroPayment)
        } else if paid > loan.repayment_amount {
            Some(LoanError::PaymentExceedsDebt)
        } else if self.loan_payments.amount_of(loan_id) + paid > u128::MAX || (paid
            == loan.repayment_amount && self.repaid_loans_count == u64::MAX) {
            Some(LoanError::ArithmeticOverflow)
        } else {
            None
        }
    }

    /// Pays `paid` towards `loan_id`: the amount owed shrinks by `paid`, the payments
    /// recorded for the loan grow by `paid`, and a loan paid off becomes repaid and no
    /// longer counts as active.
    pub fn partial_repay_loan(&mut self, caller: Address, paid: u128, loan_id: u64) -> (r: Result<
        (),
        LoanError,
    >)
        requires
            old(self).wf(),
        ensures
            final(self).wf(),
            r is Err <==> old(self).partial_repay_refusal(caller, paid, loan_id) is Some,
            r matches Err(e) ==> old(self).partial_repay_refusal(caller, paid, loan_id) == Some(e),
            r is Err ==> *final(self) == *old(self),
            r is Ok ==> final(self).loans@[loan_id].repayment_amount
                + final(self).loan_payments.amount_of(loan_id)
                == old(self).loans@[loan_id].repayment_amount
                + old(self).loan_payments.amount_of(loan_id),
            r is Ok ==> {
                let loan = old(self).loans@[loan_id];
                let owed = (loan.repayment_amount - paid) as u128;
                let paid_off = owed == 0;
                &&& final(self).loans@ == old(self).loans@.insert(
                    loan_id,
                    Loan {
                        repayment_amount: owed,
                        status: if paid_off {
                            LoanStatus::Repaid
                        } else {
                            LoanStatus::Active
                        },
                        ..loan
                    },
                )
                &&& final(self).loan_payments@ == old(self).loan_payments@.insert(
                    loan_id,
                    (old(self).loan_payments.amount_of(loan_id) + paid) as u128,
                )
                &&& *final(self) == (LoanController {
                    loans: final(self).loans,
                    loan_payments: final(self).loan_payments,
                    repaid_loans_count: if paid_off {
                        (old(self).repaid_loans_count + 1) as u64
                    } else {
                        old(self).repaid_loans_count
                    },
                    active_loans_count: if paid_off {
                        less_or_zero(old(self).active_loans_count, 1)
                    } else {
                        old(self).active_loans_count
                    },
                    ..*old(self)
                })
            },
    {
        if !self.allow_partial_repayments {
            return Err(LoanError::PartialRepaymentsDisabled);
        }
        let mut loan = match self.loans.get(&loan_id) {
            Some(l) => *l,
            None => {
                return Err(LoanError::LoanNotFound);
            },
        };
        if loan.borrower != caller {
            return Err(LoanError::NotBorrower);
        }
        if loan.status != LoanStatus::Active {
            return Err(LoanError::LoanNotActive);
        }
        if paid == 0 {
            return Err(LoanError::ZeroPayment);
        }
        if paid > loan.repayment_amount {
            return Err(LoanError::PaymentExceedsDebt);
        }
        let payments = self.loan_payments.amount(&loan_id);
        if payments > u128::MAX - paid || (paid == loan.repayment_amount && self.repaid_loans_count
            == u64::MAX) {
            return Err(LoanError::ArithmeticOverflow);
        }
        loan.repayment_amount = loan.repayment_amount - paid;
        self.loans.insert(loan_id, loan);
        self.loan_payments.set_amount(loan_id, payments + paid);
        if loan.repayment_amount == 0 {
            loan.status = LoanStatus::Repaid;
            self.loans.insert(loan_id, loan);
            self.repaid_loans_count = self.repaid_loans_count + 1;
            if self.active_loans_count > 0 {
                self.active_loans_count = self.active_loans_count - 1;
            }
        }
        Ok(())
    }

    /// Fee for extending a loan that owes `repayment_amount`.
    pub open spec fn extension_fee(&self, repayment_amount: nat) -> nat {
        basis_points_of(repayment_amount, self.extension_fee_percent as nat)
    }

    /// The refusal, if any, of extending `loan_id` by `extra_days` for `paid` at `now`.
    pub open spec fn extend_refusal(
        &self,
        caller: Address,
        now: u64,
        paid: u128,
        loan_id: u64,
        extra_days: u64,
    ) -> Option<LoanError> {
        let loan = self.loans@[loan_id];
        let fee = self.extension_fee(loan.repayment_amount as nat);
        if !self.loans@.dom().contains(loan_id) {
            Some(LoanError::LoanNotFound)
        } else if loan.borrower != caller {
            Some(LoanError::NotBorrower)
        } else if loan.status != LoanStatus::Active {
            Some(LoanError::LoanNotActive)
        } else if now >= loan.due_timestamp {
            Some(LoanError::LoanExpired)
        } else if paid != fee {
            Some(LoanError::IncorrectExtensionFee)
        } else if loan.due_timestamp + extra_days * 86400 > u64::MAX || loan.repayment_amount + fee
            > u128::MAX {
            Some(LoanError::ArithmeticOverflow)
        } else if self.max_loan_term_days > 0 && loan.due_timestamp + extra_days * 86400
            > loan.creation_timestamp + self.max_loan_term_days * 86400 {
            Some(LoanError::DurationAboveMaximum)
        } else {
            None
        }
    }

    /// Extends a loan that is not yet due by `extra_days` days for a fee of
    /// `extension_fee_percent` basis points of the amount owed; the fee is added to the
    /// amount owed. When `max_loan_term_days` is set, the loan may not end more than that
    /// many days after its creation.
    pub fn extend_loan_deadline(
        &mut self,
        caller: Address,
        now: u64,
        paid: u128,
        loan_id: u64,
        extra_days: u64,
    ) -> (r: Result<(), LoanError>)
        requires
            old(self).wf(),
        ensures
            final(self).wf(),
            r is Err <==> old(self).extend_refusal(caller, now, paid, loan_id, extra_days) is Some,
            r matches Err(e) ==> old(self).extend_refusal(caller, now, paid, loan_id, extra_days)
                == Some(e),
            r is Err ==> *final(self) == *old(self),
            r is Ok && old(self).max_loan_term_days > 0 ==> final(self).loans@[loan_id].due_timestamp
                <= old(self).loans@[loan_id].creation_timestamp + old(self).max_loan_term_days
                * 86400,
            r is Ok ==> old(self).loans@[loan_id].status == LoanStatus::Active && now
                < old(self).loans@[loan_id].due_timestamp,
            r is Ok ==> {
                let loan = old(self).loans@[loan_id];
                &&& final(self).loans@ == old(self).loans@.insert(
                    loan_id,
                    Loan {
                        due_timestamp: (loan.due_timestamp + extra_days * 86400) as u64,
                        repayment_amount: (loan.repayment_amount + paid) as u128,
                        ..loan
                    },
                )
                &&& *final(self) == (LoanController { loans: final(self).loans, ..*old(self) })
            },
    {
        let mut loan = match self.loans.get(&loan_id) {
            Some(l) => *l,
            None => {
                return Err(LoanError::LoanNotFound);
            },
        };
        if loan.borrower != caller {
            return Err(LoanError::NotBorrower);
        }
        if loan.status != LoanStatus::Active {
            return Err(LoanError::LoanNotActive);
        }
        if !(now < loan.due_timestamp) {
            return Err(LoanError::LoanExpired);
        }
        let expected_fee = apply_basis_points(loan.repayment_amount, self.extension_fee_percent);
        if paid != expected_fee {
            return Err(LoanError::IncorrectExtensionFee);
        }
        let extra_secs = match extra_days.checked_mul(86400) {
            Some(v) => v,
            None => {
                return Err(LoanError::ArithmeticOverflow);
            },
        };
        let new_due = match loan.due_timestamp.checked_add(extra_secs) {
            Some(v) => v,
            None => {
                return Err(LoanError::ArithmeticOverflow);
            },
        };
        let new_repayment = match loan.repayment_amount.checked_add(expected_fee) {
            Some(v) => v,
            None => {
                return Err(LoanError::ArithmeticOverflow);
            },
        };
        if self.max_loan_term_days > 0 {
            let exceeds = match self.max_loan_term_days.checked_mul(86400) {
                Some(max_secs) => match loan.creation_timestamp.checked_add(max_secs) {
                    Some(limit) => new_due > limit,
                    None => false,
                },
                None => false,
            };
            if exceeds {
                return Err(LoanError::DurationAboveMaximum);
            }
        }
        loan.due_timestamp = new_due;
        loan.repayment_amount = new_repayment;
        self.loans.insert(loan_id, loan);
        Ok(())
    }

    /// Marks an active loan as defaulted (owner only); it no longer counts as active.
    pub fn mark_loan_defaulted(&mut self, caller: Address, loan_id: u64) -> (r: Result<
        (),
        LoanError,
    >)
        requires
            old(self).wf(),
        ensures
            final(self).wf(),
            caller != old(self).owner ==> r == Err::<(), LoanError>(LoanError::NotOwner),
            caller == old(self).owner && !old(self).loans@.dom().contains(loan_id) ==> r == Err::<
                (),
                LoanError,
            >(LoanError::LoanNotFound),
            caller == old(self).owner && old(self).loans@.dom().contains(loan_id) && old(self).loans@[loan_id].status != LoanStatus::Active ==> r == Err::<(), LoanError>(
                LoanError::LoanNotActive,
            ),
            r is Err ==> *final(self) == *old(self),
            r is Ok ==> {
                &&& caller == old(self).owner
                &&& old(self).loans@.dom().contains(loan_id)
                &&& old(self).loans@[loan_id].status == LoanStatus::Active
                &&& final(self).loans@ == old(self).loans@.insert(
                    loan_id,
                    Loan { status: LoanStatus::Defaulted, ..old(self).loans@[loan_id] },
                )
                &&& *final(self) == (LoanController {
                    loans: final(self).loans,
                    active_loans_count: less_or_zero(old(self).active_loans_count, 1),
                    ..*old(self)
                })
            },
    {
        if caller != self.owner {
            return Err(LoanError::NotOwner);
        }
        let mut loan = match self.loans.get(&loan_id) {
            Some(l) => *l,
            None => {
                return Err(LoanError::LoanNotFound);
            },
        };
        if loan.status != LoanStatus::Active {
            return Err(LoanError::LoanNotActive);
        }
        loan.status = LoanStatus::Defaulted;
        self.loans.insert(loan_id, loan);
        if self.active_loans_count > 0 {
            self.active_loans_count = self.active_loans_count - 1;
        }
        Ok(())
    }

    /// The loan under `id` is active and `now` is past its due time by the grace period
    /// or more.
    pub open spec fn expires_at(&self, id: u64, now: u64) -> bool {
        &&& self.loans@.dom().contains(id)
        &&& self.loans@[id].status == LoanStatus::Active
        &&& now >= self.loans@[id].due_timestamp + self.grace_period_days * 86400
    }

    /// Whether `loan` is active and `now` is past its due time by the grace period or more.
    pub(crate) fn is_expired(&self, loan: &Loan, now: u64) -> (r: bool)
        ensures
            r == (loan.status == LoanStatus::Active && now >= loan.due_timestamp
                + self.grace_period_days * 86400),
    {
        if loan.status != LoanStatus::Active {
            return false;
        }
        match self.grace_period_days.checked_mul(86400) {
            Some(grace) => match loan.due_timestamp.checked_add(grace) {
                Some(limit) => now >= limit,
                None => false,
            },
            None => false,
        }
    }

    /// Number of ids from one up to `n` whose loan is active and due at `now`.
    pub open spec fn expiring_count(&self, now: u64, n: nat) -> nat
        decreases n,
    {
        if n == 0 {
            0
        } else {
            self.expiring_count(now, (n - 1) as nat) + if self.expires_at(n as u64, now) {
                1nat
            } else {
                0nat
            }
        }
    }

    /// The loan under `id` once expired loans with ids from one up to `counter` are
    /// marked defaulted.
    pub open spec fn after_expiry(&self, id: u64, now: u64, counter: u64) -> Loan {
        if 1 <= id <= counter && self.expires_at(id, now) {
            Loan { status: LoanStatus::Defaulted, ..self.loans@[id] }
        } else {
            self.loans@[id]
        }
    }

    /// Marks every active loan (ids from one up to the counter) whose due time plus the
    /// grace period has come at `now` as defaulted, counts it as overdue and no longer as
    /// active.
    pub fn mark_expired_loans(&mut self, now: u64) -> (r: Result<(), LoanError>)
        requires
            old(self).wf(),
        ensures
            final(self).wf(),
            r is Err <==> old(self).overdue_loans_count + old(self).expiring_count(
                now,
                old(self).loan_counter as nat,
            ) > u64::MAX,
            r is Err ==> r == Err::<(), LoanError>(LoanError::ArithmeticOverflow)
                && *final(self) == *old(self),
            r is Ok ==> {
                &&& final(self).loans@.dom() == old(self).loans@.dom()
                &&& forall|id: u64| #[trigger]
                    final(self).loans@.dom().contains(id) ==> final(self).loans@[id] == old(
                        self).after_expiry(id, now, old(self).loan_counter)
                &&& *final(self) == (LoanController {
                    loans: final(self).loans,
                    overdue_loans_count: (old(self).overdue_loans_count + old(self).expiring_count(
                        now,
                        old(self).loan_counter as nat,
                    )) as u64,
                    active_loans_count: less_or_zero(
                        old(self).active_loans_count,
                        old(self).expiring_count(now, old(self).loan_counter as nat),
                    ),
                    ..*old(self)
                })
            },
    {
        let ghost before = *self;
        let counter = self.loan_counter;
        let mut done: u64 = 0;
        let mut expiring: u64 = 0;
        while done < counter
            invariant
                *self == before,
                self.wf(),
                counter == self.loan_counter,
                done <= counter,
                expiring == self.expiring_count(now, done as nat),
                expiring <= done,
            decreases counter - done,
        {
            let id = done + 1;
            match self.loans.get(&id) {
                Some(l) => {
                    if self.is_expired(l, now) {
                        expiring = expiring + 1;
                    }
                },
                None => {},
            }
            done = id;
        }
        if expiring > u64::MAX - self.overdue_loans_count {
            return Err(LoanError::ArithmeticOverflow);
        }
        let mut marked: u64 = 0;
        while marked < counter
            invariant
                self.wf(),
                before.wf(),
                counter == before.loan_counter,
                marked <= counter,
                self.loans@.dom() == before.loans@.dom(),
                forall|id: u64| #[trigger]
                    self.loans@.dom().contains(id) ==> self.loans@[id] == before.after_expiry(
                        id,
                        now,
                        marked,
                    ),
                *self == (LoanController { loans: self.loans, ..before }),
            decreases counter - marked,
        {
            let ghost prev = *self;
            let id = marked + 1;
            match self.loans.get(&id) {
                Some(l) => {
                    let mut loan = *l;
                    if self.is_expired(&loan, now) {
                        loan.status = LoanStatus::Defaulted;
                        self.loans.insert(id, loan);
                    }
                },
                None => {},
            }
            proof {
                assert forall|k: u64| #[trigger]
                    self.loans@.dom().contains(k) implies self.loans@[k] == before.after_expiry(
                        k,
                        now,
                        id,
                    ) by {
                    if k != id {
                        assert(prev.loans@.dom().contains(k));
                    }
                }
                assert(self.loans@.dom() =~= before.loans@.dom());
            }
            marked = id;
        }
        self.overdue_loans_count = self.overdue_loans_count + expiring;
        if self.active_loans_count >= expiring {
            self.active_loans_count = self.active_loans_count - expiring;
        } else {
            self.active_loans_count = 0;
        }
        Ok(())
    }

    /// Once expired loans are marked, no loan from one up to the counter is still active
    /// and past its due time by the grace period.
    pub proof fn lemma_no_active_loan_left_due(&self, now: u64, id: u64)
        requires
            1 <= id <= self.loan_counter,
            self.loans@.dom().contains(id),
        ensures
            !(self.after_expiry(id, now, self.loan_counter).status == LoanStatus::Active
                && now >= self.after_expiry(id, now, self.loan_counter).due_timestamp
                + self.grace_period_days * 86400),
    {
    }
}

/// An extension is granted only to an active loan not yet due, and, when a maximum loan
/// term is set, never lets the loan end later than that term after its creation, whenever
/// the extension is asked for.
pub proof fn lemma_extension_within_maximum_term(
    c: LoanController,
    caller: Address,
    now: u64,
    paid: u128,
    loan_id: u64,
    extra_days: u64,
)
    requires
        c.extend_refusal(caller, now, paid, loan_id, extra_days) is None,
    ensures
        c.loans@.dom().contains(loan_id),
        c.loans@[loan_id].borrower == caller,
        c.loans@[loan_id].status == LoanStatus::Active,
        now < c.loans@[loan_id].due_timestamp,
        c.max_loan_term_days > 0 ==> c.loans@[loan_id].due_timestamp + extra_days * 86400
            <= c.loans@[loan_id].creation_timestamp + c.max_loan_term_days * 86400,
{
}

} // verus!
