//! Collateral: deposits for existing and future loans, its return after
//! repayment, its seizure or auction after a default.
use vstd::prelude::*;

use crate::address::Address;
use crate::loan_controller::{Loan, LoanController, LoanError, LoanStatus, TokenId, Transfer};
use crate::math::{apply_basis_points, basis_points_of};

verus! {

impl LoanController {
    /// Collateral held for `loan_id` (zero when none).
    pub open spec fn collateral_of(&self, loan_id: u64) -> nat {
        self.loan_collateral.amount_of(loan_id)
    }

    /// The refusal, if any, of depositing `amount` as collateral for `loan_id`.
    pub open spec fn provide_collateral_refusal(&self, caller: Address, amount: u128, loan_id: u64) -> Option<
        LoanError,
    > {
        let loan = self.loans@[loan_id];
        if !self.loans@.dom().contains(loan_id) {
            Some(LoanError::LoanNotFound)
        } else if loan.borrower != caller {
            Some(LoanError::NotBorrower)
        } else if loan.status != LoanStatus::Active {
            Some(LoanError::LoanNotActive)
        } else if amount == 0 {
            Some(LoanError::ZeroPayment)
        } else if self.collateral_of(loan_id) + amount > u128::MAX {
            Some(LoanError::ArithmeticOverflow)
        } else {
            None
        }
    }

    /// Adds the payment `amount` to the collateral of the caller's active loan.
    pub fn provide_collateral(&mut self, caller: Address, amount: u128, loan_id: u64) -> (r: Result<
        (),
        LoanError,
    >)
        requires
            old(self).wf(),
        ensures
            final(self).wf(),
            r is Err <==> old(self).provide_collateral_refusal(caller, amount, loan_id) is Some,
            r matches Err(e) ==> old(self).provide_collateral_refusal(caller, amount, loan_id)
                == Some(e),
            r is Err ==> *final(self) == *old(self),
            r is Ok ==> {
                &&& final(self).loan_collateral@ == old(self).loan_collateral@.insert(
                    loan_id,
                    (old(self).collateral_of(loan_id) + amount) as u128,
                )
                &&& *final(self) == (LoanController {
                    loan_collateral: final(self).loan_collateral,
                    ..*old(self)
                })
            },
    {
        let loan: Loan = match self.loans.get(&loan_id) {
            Some(l) => *l,
            None => {
                return Err(LoanError::LoanNotFound);
            },
        };
        if loan.borrower != caller {
            return Err(LoanError::NotBorrower);
        }
        if loan.status != LoanStatus::Active {
            return Err(LoanError::LoanNotActive);
        }
        if amount == 0 {
            return Err(LoanError::ZeroPayment);
        }
        let current = self.loan_collateral.amount(&loan_id);
        if current > u128::MAX - amount {
            return Err(LoanError::ArithmeticOverflow);
        }
        self.loan_collateral.set_amount(loan_id, current + amount);
        Ok(())
    }

    /// The refusal, if any, of withdrawing the collateral of `loan_id`.
    pub open spec fn withdraw_collateral_refusal(&self, caller: Address, loan_id: u64) -> Option<
        LoanError,
    > {
        let loan = self.loans@[loan_id];
        if !self.loans@.dom().contains(loan_id) {
            Some(LoanError::LoanNotFound)
        } else if loan.borrower != caller {
            Some(LoanError::NotBorrower)
        } else if loan.status != LoanStatus::Repaid {
            Some(LoanError::LoanNotRepaid)
        } else if self.collateral_of(loan_id) == 0 {
            Some(LoanError::NoCollateral)
        } else {
            None
        }
    }

    /// Returns the whole collateral of the caller's repaid loan.
    pub fn withdraw_collateral(&mut self, caller: Address, loan_id: u64) -> (r: Result<
        Transfer,
        LoanError,
    >)
        requires
            old(self).wf(),
        ensures
            final(self).wf(),
            r is Err <==> old(self).withdraw_collateral_refusal(caller, loan_id) is Some,
            r matches Err(e) ==> old(self).withdraw_collateral_refusal(caller, loan_id) == Some(e),
            r is Err ==> *final(self) == *old(self),
            r is Ok ==> old(self).loans@.dom().contains(loan_id) && old(self).loans@[loan_id].borrower
                == caller && old(self).loans@[loan_id].status == LoanStatus::Repaid,
            old(self).loans@.dom().contains(loan_id) && old(self).loans@[loan_id].status
                != LoanStatus::Repaid ==> r is Err,
            r is Ok ==> {
                &&& r == Ok::<Transfer, LoanError>(
                    Transfer {
                        to: caller,
                        token: TokenId::Egld,
                        amount: old(self).collateral_of(loan_id) as u128,
                    },
                )
                &&& final(self).loan_collateral@ == old(self).loan_collateral@.insert(loan_id, 0)
                &&& *final(self) == (LoanController {
                    loan_collateral: final(self).loan_collateral,
                    ..*old(self)
                })
            },
    {
        let loan: Loan = match self.loans.get(&loan_id) {
            Some(l) => *l,
            None => {
                return Err(LoanError::LoanNotFound);
            },
        };
        if loan.borrower != caller {
            return Err(LoanError::NotBorrower);
        }
        if loan.status != LoanStatus::Repaid {
            return Err(LoanError::LoanNotRepaid);
        }
        let collateral = self.loan_collateral.amount(&loan_id);
        if collateral == 0 {
            return Err(LoanError::NoCollateral);
        }
        self.loan_collateral.set_amount(loan_id, 0);
        Ok(Transfer { to: caller, token: TokenId::Egld, amount: collateral })
    }

    /// The refusal, if any, of seizing or auctioning the collateral of `loan_id`.
    pub open spec fn seize_refusal(&self, loan_id: u64) -> Option<LoanError> {
        if !self.loans@.dom().contains(loan_id) {
            Some(LoanError::LoanNotFound)
        } else if self.loans@[loan_id].status != LoanStatus::Defaulted {
            Some(LoanError::LoanNotDefaulted)
        } else if self.collateral_of(loan_id) == 0 {
            Some(LoanError::NoCollateral)
        } else {
            None
        }
    }

    /// Seizes the collateral of a defaulted loan; it stays with the desk (owner only).
    pub fn forfeit_collateral(&mut self, caller: Address, loan_id: u64) -> (r: Result<
        (),
        LoanError,
    >)
        requires
            old(self).wf(),
        ensures
            final(self).wf(),
            caller != old(self).owner ==> r == Err::<(), LoanError>(LoanError::NotOwner),
            caller == old(self).owner ==> (r is Err <==> old(self).seize_refusal(loan_id) is Some),
            caller == old(self).owner && r is Err ==> r == Err::<(), LoanError>(
                old(self).seize_refusal(loan_id)->Some_0,
            ),
            r is Err ==> *final(self) == *old(self),
            r is Ok ==> {
                &&& final(self).loan_collateral@ == old(self).loan_collateral@.insert(loan_id, 0)
                &&& *final(self) == (LoanController {
                    loan_collateral: final(self).loan_collateral,
                    ..*old(self)
                })
            },
    {
        if caller != self.owner {
            return Err(LoanError::NotOwner);
        }
        let loan: Loan = match self.loans.get(&loan_id) {
            Some(l) => *l,
            None => {
                return Err(LoanError::LoanNotFound);
            },
        };
        if loan.status != LoanStatus::Defaulted {
            return Err(LoanError::LoanNotDefaulted);
        }
        let collateral = self.loan_collateral.amount(&loan_id);
        if collateral == 0 {
            return Err(LoanError::NoCollateral);
        }
        self.loan_collateral.set_amount(loan_id, 0);
        Ok(())
    }

    /// Adds the payment `deposit` to the caller's collateral for a future loan.
    pub fn provide_collateral_for_new_loan(&mut self, caller: Address, deposit: u128) -> (r: Result<
        (),
        LoanError,
    >)
        requires
            old(self).wf(),
        ensures
            final(self).wf(),
            deposit == 0 ==> r == Err::<(), LoanError>(LoanError::ZeroPayment),
            deposit > 0 && old(self).pending_of(caller) + deposit > u128::MAX ==> r == Err::<
                (),
                LoanError,
            >(LoanError::ArithmeticOverflow),
            deposit > 0 && old(self).pending_of(caller) + deposit <= u128::MAX ==> r is Ok,
            r is Err ==> *final(self) == *old(self),
            r is Ok ==> {
                &&& deposit > 0
                &&& final(self).pending_collateral@ == old(self).pending_collateral@.insert(
                    caller,
                    (old(self).pending_of(caller) + deposit) as u128,
                )
                &&& *final(self) == (LoanController {
                    pending_collateral: final(self).pending_collateral,
                    ..*old(self)
                })
            },
    {
        if deposit == 0 {
            return Err(LoanError::ZeroPayment);
        }
        let current = self.pending_collateral.amount(&caller);
        if current > u128::MAX - deposit {
            return Err(LoanError::ArithmeticOverflow);
        }
        self.pending_collateral.set_amount(caller, current + deposit);
        Ok(())
    }

    /// Returns the caller's collateral deposited for a future loan.
    pub fn cancel_loan_request(&mut self, caller: Address) -> (r: Result<Transfer, LoanError>)
        requires
            old(self).wf(),
        ensures
            final(self).wf(),
            old(self).pending_of(caller) == 0 ==> r == Err::<Transfer, LoanError>(
                LoanError::NoCollateral,
            ) && *final(self) == *old(self),
            old(self).pending_of(caller) > 0 ==> {
                &&& r == Ok::<Transfer, LoanError>(
                    Transfer {
                        to: caller,
                        token: TokenId::Egld,
                        amount: old(self).pending_of(caller) as u128,
                    },
                )
                &&& final(self).pending_collateral@ == old(self).pending_collateral@.insert(
                    caller,
                    0,
                )
                &&& *final(self) == (LoanController {
                    pending_collateral: final(self).pending_collateral,
                    ..*old(self)
                })
            },
    {
        let pending = self.pending_collateral.amount(&caller);
        if pending == 0 {
            return Err(LoanError::NoCollateral);
        }
        self.pending_collateral.set_amount(caller, 0);
        Ok(Transfer { to: caller, token: TokenId::Egld, amount: pending })
    }

    /// Sells the collateral of a defaulted loan to the caller, whose bid came with the call:
    /// the loan becomes liquidated and the collateral goes to the caller in the bid's token.
    pub fn liquidate_collateral_via_auction(
        &mut self,
        caller: Address,
        payment_token: TokenId,
        loan_id: u64,
    ) -> (r: Result<Transfer, LoanError>)
        requires
            old(self).wf(),
        ensures
            final(self).wf(),
            r is Err <==> old(self).seize_refusal(loan_id) is Some,
            r matches Err(e) ==> old(self).seize_refusal(loan_id) == Some(e),
            r is Err ==> *final(self) == *old(self),
            r is Ok ==> {
                &&& r == Ok::<Transfer, LoanError>(
                    Transfer {
                        to: caller,
                        token: payment_token,
                        amount: old(self).collateral_of(loan_id) as u128,
                    },
                )
                &&& final(self).loans@ == old(self).loans@.insert(
                    loan_id,
                    Loan { status: LoanStatus::Liquidated, ..old(self).loans@[loan_id] },
                )
                &&& final(self).loan_collateral@ == old(self).loan_collateral@.insert(loan_id, 0)
                &&& *final(self) == (LoanController {
                    loans: final(self).loans,
                    loan_collateral: final(self).loan_collateral,
                    ..*old(self)
                })
            },
    {
        let mut loan: Loan = match self.loans.get(&loan_id) {
            Some(l) => *l,
            None => {
                return Err(LoanError::LoanNotFound);
            },
        };
        if loan.status != LoanStatus::Defaulted {
            return Err(LoanError::LoanNotDefaulted);
        }
        let collateral_amount = self.loan_collateral.amount(&loan_id);
        if collateral_amount == 0 {
            return Err(LoanError::NoCollateral);
        }
        loan.status = LoanStatus::Liquidated;
        self.loans.insert(loan_id, loan);
        self.loan_collateral.set_amount(loan_id, 0);
        Ok(Transfer { to: caller, token: payment_token, amount: collateral_amount })
    }

    /// Value of the collateral of `loan_id` after the liquidation discount:
    /// `collateral * (10000 - discount) / 10000`.
    pub fn calculate_liquidation_value(&self, loan_id: u64) -> (r: u128)
        requires
            self.wf(),
        ensures
            r == basis_points_of(
                self.collateral_of(loan_id),
                (10000 - self.liquidation_discount) as nat,
            ),
            r <= self.collateral_of(loan_id),
    {
        let collateral = self.loan_collateral.amount(&loan_id);
        let discount = self.liquidation_discount;
        apply_basis_points(collateral, 10000 - discount)
    }
}

/// Collateral is only ever returned for a repaid loan, to its borrower: a loan in any
/// other state (active, defaulted or liquidated) keeps its collateral with the desk.
pub proof fn lemma_collateral_returned_only_after_repayment(c: LoanController, caller: Address, loan_id: u64)
    ensures
        c.withdraw_collateral_refusal(caller, loan_id) is None ==> {
            &&& c.loans@.dom().contains(loan_id)
            &&& c.loans@[loan_id].borrower == caller
            &&& c.loans@[loan_id].status == LoanStatus::Repaid
            &&& c.collateral_of(loan_id) > 0
        },
        c.loans@.dom().contains(loan_id) && c.loans@[loan_id].borrower == caller
            && c.loans@[loan_id].status != LoanStatus::Repaid ==> c.withdraw_collateral_refusal(
            caller,
            loan_id,
        ) == Some(LoanError::LoanNotRepaid),
{
}

} // verus!
