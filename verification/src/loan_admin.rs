//! Administration of the loan desk: owner-only operations, settings and their
//! views, the pause switch, the blacklist and the two-step destruction.
use vstd::prelude::*;

use crate::address::Address;
use crate::loan_controller::{LoanController, LoanError, TokenId, Transfer};

verus! {

impl LoanController {
    /// Sends `amount` of the native currency to the owner (owner only).
    pub fn withdraw_funds(&self, caller: Address, amount: u128) -> (r: Result<Transfer, LoanError>)
        ensures
            caller != self.owner ==> r == Err::<Transfer, LoanError>(LoanError::NotOwner),
            caller == self.owner ==> r == Ok::<Transfer, LoanError>(
                Transfer { to: caller, token: TokenId::Egld, amount },
            ),
    {
        if caller != self.owner {
            return Err(LoanError::NotOwner);
        }
        Ok(Transfer { to: caller, token: TokenId::Egld, amount })
    }

    /// Sets the three loan terms in days (owner only); they must be positive and
    /// ordered `short < standard < extended`.
    pub fn set_loan_terms(&mut self, caller: Address, standard: u64, extended: u64, short: u64) -> (r:
        Result<(), LoanError>)
        ensures
            caller != old(self).owner ==> r == Err::<(), LoanError>(LoanError::NotOwner),
            caller == old(self).owner && (standard == 0 || extended == 0 || short == 0) ==> r
                == Err::<(), LoanError>(LoanError::TermsNotPositive),
            caller == old(self).owner && standard > 0 && extended > 0 && short > 0 && !(extended
                > standard && standard > short) ==> r == Err::<(), LoanError>(
                LoanError::TermsOutOfOrder,
            ),
            caller == old(self).owner && 0 < short < standard < extended ==> r is Ok,
            r is Err ==> *final(self) == *old(self),
            r is Ok ==> {
                &&& caller == old(self).owner
                &&& 0 < short < standard < extended
                &&& *final(self) == (LoanController {
                    standard_term_days: standard,
                    extended_term_days: extended,
                    short_term_days: short,
                    ..*old(self)
                })
            },
    {
        if caller != self.owner {
            return Err(LoanError::NotOwner);
        }
        if !(standard > 0 && extended > 0 && short > 0) {
            return Err(LoanError::TermsNotPositive);
        }
        if !(extended > standard && standard > short) {
            return Err(LoanError::TermsOutOfOrder);
        }
        self.standard_term_days = standard;
        self.extended_term_days = extended;
        self.short_term_days = short;
        Ok(())
    }

    /// Sends the desk's whole balance to the owner while emergency mode is on (owner only).
    pub fn emergency_withdraw(&self, caller: Address, contract_balance: u128) -> (r: Result<
        Transfer,
        LoanError,
    >)
        ensures
            caller != self.owner ==> r == Err::<Transfer, LoanError>(LoanError::NotOwner),
            caller == self.owner && !self.emergency_mode ==> r == Err::<Transfer, LoanError>(
                LoanError::EmergencyModeInactive,
            ),
            caller == self.owner && self.emergency_mode ==> r == Ok::<Transfer, LoanError>(
                Transfer { to: self.owner, token: TokenId::Egld, amount: contract_balance },
            ),
    {
        if caller != self.owner {
            return Err(LoanError::NotOwner);
        }
        if !self.emergency_mode {
            return Err(LoanError::EmergencyModeInactive);
        }
        Ok(Transfer { to: self.owner, token: TokenId::Egld, amount: contract_balance })
    }

    /// Whether `user` is on the blacklist.
    pub open spec fn blacklisted(&self, user: Address) -> bool {
        self.blacklist@.dom().contains(user) && self.blacklist@[user]
    }

    fn set_blacklisted(&mut self, caller: Address, user: Address, flag: bool) -> (r: Result<
        (),
        LoanError,
    >)
        requires
            old(self).wf(),
        ensures
            final(self).wf(),
            caller != old(self).owner ==> r == Err::<(), LoanError>(LoanError::NotOwner)
                && *final(self) == *old(self),
            caller == old(self).owner ==> {
                &&& r is Ok
                &&& final(self).blacklist@ == old(self).blacklist@.insert(user, flag)
                &&& *final(self) == (LoanController { blacklist: final(self).blacklist, ..*old(self) })
            },
    {
        if caller != self.owner {
            return Err(LoanError::NotOwner);
        }
        self.blacklist.insert(user, flag);
        Ok(())
    }

    /// Puts `user` on the blacklist (owner only).
    pub fn add_to_blacklist(&mut self, caller: Address, user: Address) -> (r: Result<(), LoanError>)
        requires
            old(self).wf(),
        ensures
            final(self).wf(),
            caller != old(self).owner ==> r == Err::<(), LoanError>(LoanError::NotOwner)
                && *final(self) == *old(self),
            caller == old(self).owner ==> {
                &&& r is Ok
                &&& final(self).blacklist@ == old(self).blacklist@.insert(user, true)
                &&& *final(self) == (LoanController { blacklist: final(self).blacklist, ..*old(self) })
            },
    {
        self.set_blacklisted(caller, user, true)
    }

    /// Takes `user` off the blacklist (owner only).
    pub fn remove_from_blacklist(&mut self, caller: Address, user: Address) -> (r: Result<
        (),
        LoanError,
    >)
        requires
            old(self).wf(),
        ensures
            final(self).wf(),
            caller != old(self).owner ==> r == Err::<(), LoanError>(LoanError::NotOwner)
                && *final(self) == *old(self),
            caller == old(self).owner ==> {
                &&& r is Ok
                &&& final(self).blacklist@ == old(self).blacklist@.insert(user, false)
                &&& *final(self) == (LoanController { blacklist: final(self).blacklist, ..*old(self) })
            },
    {
        self.set_blacklisted(caller, user, false)
    }

    /// Whether `user` is on the blacklist.
    pub fn is_blacklisted(&self, user: Address) -> (r: bool)
        requires
            self.wf(),
        ensures
            r == self.blacklisted(user),
    {
        match self.blacklist.get(&user) {
            Some(b) => *b,
            None => false,
        }
    }

    /// Records the reputation score reported for `user_address`; only the reputation
    /// registry may report one.
    pub fn reputation_check_callback(&mut self, caller: Address, user_address: Address, score: u64) -> (r:
        Result<(), LoanError>)
        requires
            old(self).wf(),
        ensures
            final(self).wf(),
            caller != old(self).reputation_score_address ==> r == Err::<(), LoanError>(
                LoanError::NotReputationContract,
            ) && *final(self) == *old(self),
            caller == old(self).reputation_score_address ==> {
                &&& r is Ok
                &&& final(self).user_reputation_scores@ == old(self).user_reputation_scores@.insert(
                    user_address,
                    score,
                )
                &&& *final(self) == (LoanController {
                    user_reputation_scores: final(self).user_reputation_scores,
                    ..*old(self)
                })
            },
    {
        if caller != self.reputation_score_address {
            return Err(LoanError::NotReputationContract);
        }
        self.user_reputation_scores.insert(user_address, score);
        Ok(())
    }

    /// Sets the minimum reputation score to borrow (owner only).
    pub fn set_min_required_score(&mut self, caller: Address, score: u64) -> (r: Result<
        (),
        LoanError,
    >)
        ensures
            caller != old(self).owner ==> r == Err::<(), LoanError>(LoanError::NotOwner)
                && *final(self) == *old(self),
            caller == old(self).owner ==> r is Ok && *final(self) == (LoanController {
                min_required_score: score,
                ..*old(self)
            }),
    {
        if caller != self.owner {
            return Err(LoanError::NotOwner);
        }
        self.min_required_score = score;
        Ok(())
    }

    /// Sets the base loan amount (owner only).
    pub fn set_base_loan_amount(&mut self, caller: Address, amount: u128) -> (r: Result<
        (),
        LoanError,
    >)
        ensures
            caller != old(self).owner ==> r == Err::<(), LoanError>(LoanError::NotOwner)
                && *final(self) == *old(self),
            caller == old(self).owner ==> r is Ok && *final(self) == (LoanController {
                base_loan_amount: amount,
                ..*old(self)
            }),
    {
        if caller != self.owner {
            return Err(LoanError::NotOwner);
        }
        self.base_loan_amount = amount;
        Ok(())
    }

    /// Points the desk at another reputation registry (owner only).
    pub fn set_reputation_score_address(&mut self, caller: Address, address: Address) -> (r: Result<
        (),
        LoanError,
    >)
        ensures
            caller != old(self).owner ==> r == Err::<(), LoanError>(LoanError::NotOwner)
                && *final(self) == *old(self),
            caller == old(self).owner ==> r is Ok && *final(self) == (LoanController {
                reputation_score_address: address,
                ..*old(self)
            }),
    {
        if caller != self.owner {
            return Err(LoanError::NotOwner);
        }
        self.reputation_score_address = address;
        Ok(())
    }

    /// Points the desk at another liquidity pool (owner only).
    pub fn set_liquidity_pool_address(&mut self, caller: Address, address: Address) -> (r: Result<
        (),
        LoanError,
    >)
        ensures
            caller != old(self).owner ==> r == Err::<(), LoanError>(LoanError::NotOwner)
                && *final(self) == *old(self),
            caller == old(self).owner ==> r is Ok && *final(self) == (LoanController {
                liquidity_pool_address: address,
                ..*old(self)
            }),
    {
        if caller != self.owner {
            return Err(LoanError::NotOwner);
        }
        self.liquidity_pool_address = address;
        Ok(())
    }

    /// Points the desk at another debt token (owner only).
    pub fn set_debt_token_address(&mut self, caller: Address, address: Address) -> (r: Result<
        (),
        LoanError,
    >)
        ensures
            caller != old(self).owner ==> r == Err::<(), LoanError>(LoanError::NotOwner)
                && *final(self) == *old(self),
            caller == old(self).owner ==> r is Ok && *final(self) == (LoanController {
                debt_token_address: address,
                ..*old(self)
            }),
    {
        if caller != self.owner {
            return Err(LoanError::NotOwner);
        }
        self.debt_token_address = address;
        Ok(())
    }

    /// Pauses the reputation-checked loan request (owner only).
    pub fn pause_contract(&mut self, caller: Address) -> (r: Result<(), LoanError>)
        ensures
            caller != old(self).owner ==> r == Err::<(), LoanError>(LoanError::NotOwner)
                && *final(self) == *old(self),
            caller == old(self).owner ==> r is Ok && *final(self) == (LoanController {
                paused: true,
                ..*old(self)
            }),
    {
        if caller != self.owner {
            return Err(LoanError::NotOwner);
        }
        self.paused = true;
        Ok(())
    }

    /// Lifts the pause (owner only).
    pub fn unpause_contract(&mut self, caller: Address) -> (r: Result<(), LoanError>)
        ensures
            caller != old(self).owner ==> r == Err::<(), LoanError>(LoanError::NotOwner)
                && *final(self) == *old(self),
            caller == old(self).owner ==> r is Ok && *final(self) == (LoanController {
                paused: false,
                ..*old(self)
            }),
    {
        if caller != self.owner {
            return Err(LoanError::NotOwner);
        }
        self.paused = false;
        Ok(())
    }

    /// Starts the destruction (owner only): destruction becomes possible one day after
    /// `now`, and the two-step destruction is marked pending with one confirmation.
    pub fn initiate_contract_destruction(&mut self, caller: Address, now: u64) -> (r: Result<
        (),
        LoanError,
    >)
        ensures
            caller != old(self).owner ==> r == Err::<(), LoanError>(LoanError::NotOwner),
            caller == old(self).owner && now + 86400 > u64::MAX ==> r == Err::<(), LoanError>(
                LoanError::ArithmeticOverflow,
            ),
            caller == old(self).owner && now + 86400 <= u64::MAX ==> r is Ok,
            r is Err ==> *final(self) == *old(self),
            r is Ok ==> caller == old(self).owner && now + 86400 <= u64::MAX && *final(self) == (
            LoanController {
                destruction_timelock: (now + 86400) as u64,
                destruction_pending_v2: true,
                destruction_confirmation_count: 1,
                ..*old(self)
            }),
    {
        if caller != self.owner {
            return Err(LoanError::NotOwner);
        }
        if now > u64::MAX - 86400 {
            return Err(LoanError::ArithmeticOverflow);
        }
        self.destruction_timelock = now + 86400;
        self.destruction_pending_v2 = true;
        self.destruction_confirmation_count = 1;
        Ok(())
    }

    /// Once the timelock has expired, sends the desk's whole balance to the owner
    /// (owner only).
    pub fn execute_contract_destruction(&self, caller: Address, now: u64, contract_balance: u128) -> (r:
        Result<Transfer, LoanError>)
        ensures
            caller != self.owner ==> r == Err::<Transfer, LoanError>(LoanError::NotOwner),
            caller == self.owner && now < self.destruction_timelock ==> r == Err::<
                Transfer,
                LoanError,
            >(LoanError::TimelockActive),
            caller == self.owner && now >= self.destruction_timelock ==> r == Ok::<
                Transfer,
                LoanError,
            >(Transfer { to: self.owner, token: TokenId::Egld, amount: contract_balance }),
    {
        if caller != self.owner {
            return Err(LoanError::NotOwner);
        }
        if now < self.destruction_timelock {
            return Err(LoanError::TimelockActive);
        }
        Ok(self.cleanup_and_destroy(contract_balance))
    }

    /// Sends the desk's whole balance to the owner.
    pub fn cleanup_and_destroy(&self, contract_balance: u128) -> (r: Transfer)
        ensures
            r == (Transfer { to: self.owner, token: TokenId::Egld, amount: contract_balance }),
    {
        Transfer { to: self.owner, token: TokenId::Egld, amount: contract_balance }
    }

    /// Opens a destruction request with one confirmation (owner only).
    pub fn initiate_contract_destruction_v2(&mut self, caller: Address) -> (r: Result<
        (),
        LoanError,
    >)
        ensures
            caller != old(self).owner ==> r == Err::<(), LoanError>(LoanError::NotOwner)
                && *final(self) == *old(self),
            caller == old(self).owner ==> r is Ok && *final(self) == (LoanController {
                destruction_pending_v2: true,
                destruction_confirmation_count: 1,
                ..*old(self)
            }),
    {
        if caller != self.owner {
            return Err(LoanError::NotOwner);
        }
        self.destruction_pending_v2 = true;
        self.destruction_confirmation_count = 1;
        Ok(())
    }

    /// Adds one confirmation to the destruction request (owner only).
    pub fn confirm_contract_destruction_v2(&mut self, caller: Address) -> (r: Result<
        (),
        LoanError,
    >)
        ensures
            caller != old(self).owner ==> r == Err::<(), LoanError>(LoanError::NotOwner),
            caller == old(self).owner && old(self).destruction_confirmation_count == u32::MAX ==> r
                == Err::<(), LoanError>(LoanError::ArithmeticOverflow),
            caller == old(self).owner && old(self).destruction_confirmation_count < u32::MAX ==> r
                is Ok,
            r is Err ==> *final(self) == *old(self),
            r is Ok ==> caller == old(self).owner && *final(self) == (LoanController {
                destruction_confirmation_count: (old(self).destruction_confirmation_count
                    + 1) as u32,
                ..*old(self)
            }),
    {
        if caller != self.owner {
            return Err(LoanError::NotOwner);
        }
        if self.destruction_confirmation_count == u32::MAX {
            return Err(LoanError::ArithmeticOverflow);
        }
        self.destruction_confirmation_count = self.destruction_confirmation_count + 1;
        Ok(())
    }

    /// Withdraws the destruction request, clearing the timelock and the confirmations
    /// (owner only).
    pub fn cancel_contract_destruction_v2(&mut self, caller: Address) -> (r: Result<
        (),
        LoanError,
    >)
        ensures
            caller != old(self).owner ==> r == Err::<(), LoanError>(LoanError::NotOwner)
                && *final(self) == *old(self),
            caller == old(self).owner ==> r is Ok && *final(self) == (LoanController {
                destruction_pending_v2: false,
                destruction_timelock: 0,
                destruction_confirmation_count: 0,
                ..*old(self)
            }),
    {
        if caller != self.owner {
            return Err(LoanError::NotOwner);
        }
        self.destruction_pending_v2 = false;
        self.destruction_timelock = 0;
        self.destruction_confirmation_count = 0;
        Ok(())
    }

    /// Minimum interest rate setting.
    pub fn get_min_interest_rate(&self) -> (r: u64)
        ensures
            r == self.min_interest_rate,
    {
        self.min_interest_rate
    }

    /// Maximum interest rate setting.
    pub fn get_max_interest_rate(&self) -> (r: u64)
        ensures
            r == self.max_interest_rate,
    {
        self.max_interest_rate
    }

    /// The timestamp stored by `set_mock_timestamp`.
    pub fn get_block_timestamp(&self) -> (r: u64)
        ensures
            r == self.mock_timestamp,
    {
        self.mock_timestamp
    }

    /// Most loans a user may hold through `request_loan_sync`.
    pub fn get_max_active_loans(&self) -> (r: u64)
        ensures
            r == self.max_active_loans,
    {
        self.max_active_loans
    }


    /// Extension fee in basis points.
    pub fn get_extension_fee_percent(&self) -> (r: u64)
        ensures
            r == self.extension_fee_percent,
    {
        self.extension_fee_percent
    }

    /// Daily late fee in basis points.
    pub fn get_late_fee_daily_rate(&self) -> (r: u64)
        ensures
            r == self.late_fee_daily_rate,
    {
        self.late_fee_daily_rate
    }

    /// Collateral ratio in basis points.
    pub fn get_collateral_ratio(&self) -> (r: u64)
        ensures
            r == self.collateral_ratio,
    {
        self.collateral_ratio
    }

    /// Liquidation discount in basis points.
    pub fn get_liquidation_discount(&self) -> (r: u64)
        ensures
            r == self.liquidation_discount,
    {
        self.liquidation_discount
    }

    /// Configured standard term in days.
    pub fn get_standard_loan_term_days(&self) -> (r: u64)
        ensures
            r == self.standard_loan_term_days,
    {
        self.standard_loan_term_days
    }

    /// Configured extended term in days.
    pub fn get_extended_loan_term_days(&self) -> (r: u64)
        ensures
            r == self.extended_loan_term_days,
    {
        self.extended_loan_term_days
    }

    /// Configured maximum term in days.
    pub fn get_max_loan_term_days(&self) -> (r: u64)
        ensures
            r == self.max_loan_term_days,
    {
        self.max_loan_term_days
    }

    /// Minimum reputation score to borrow.
    pub fn get_min_required_score(&self) -> (r: u64)
        ensures
            r == self.min_required_score,
    {
        self.min_required_score
    }

    /// Base interest rate in basis points.
    pub fn get_interest_rate_base(&self) -> (r: u64)
        ensures
            r == self.interest_rate_base,
    {
        self.interest_rate_base
    }

    /// Rate multiplier setting for extended terms.
    pub fn get_extended_term_rate_multiplier(&self) -> (r: u64)
        ensures
            r == self.extended_term_rate_multiplier,
    {
        self.extended_term_rate_multiplier
    }

    /// Rate multiplier setting for maximum terms.
    pub fn get_max_term_rate_multiplier(&self) -> (r: u64)
        ensures
            r == self.max_term_rate_multiplier,
    {
        self.max_term_rate_multiplier
    }


    /// Timelock for governance operations.
    pub fn get_operation_timelock(&self) -> (r: u64)
        ensures
            r == self.operation_timelock,
    {
        self.operation_timelock
    }


    /// Whether the desk is paused.
    pub fn is_paused(&self) -> (r: bool)
        ensures
            r == self.paused,
    {
        self.paused
    }

    /// Sets the minimum interest rate setting.
    pub fn set_min_interest_rate(&mut self, value: u64)
        ensures
            *final(self) == (LoanController { min_interest_rate: value, ..*old(self) }),
    {
        self.min_interest_rate = value;
    }

    /// Sets the maximum interest rate setting.
    pub fn set_max_interest_rate(&mut self, value: u64)
        ensures
            *final(self) == (LoanController { max_interest_rate: value, ..*old(self) }),
    {
        self.max_interest_rate = value;
    }

    /// Stores a timestamp read back by `get_block_timestamp`.
    pub fn set_mock_timestamp(&mut self, value: u64)
        ensures
            *final(self) == (LoanController { mock_timestamp: value, ..*old(self) }),
    {
        self.mock_timestamp = value;
    }

    /// Sets the most loans a user may hold through `request_loan_sync`.
    pub fn set_max_active_loans(&mut self, value: u64)
        ensures
            *final(self) == (LoanController { max_active_loans: value, ..*old(self) }),
    {
        self.max_active_loans = value;
    }

    /// Sets the configured standard term.
    pub fn set_standard_loan_term_days(&mut self, value: u64)
        ensures
            *final(self) == (LoanController { standard_loan_term_days: value, ..*old(self) }),
    {
        self.standard_loan_term_days = value;
    }

    /// Sets the configured extended term.
    pub fn set_extended_loan_term_days(&mut self, value: u64)
        ensures
            *final(self) == (LoanController { extended_loan_term_days: value, ..*old(self) }),
    {
        self.extended_loan_term_days = value;
    }

    /// Sets the configured maximum term.
    pub fn set_max_loan_term_days(&mut self, value: u64)
        ensures
            *final(self) == (LoanController { max_loan_term_days: value, ..*old(self) }),
    {
        self.max_loan_term_days = value;
    }

    /// Sets the base interest rate.
    pub fn set_interest_rate_base(&mut self, value: u64)
        ensures
            *final(self) == (LoanController { interest_rate_base: value, ..*old(self) }),
    {
        self.interest_rate_base = value;
    }

    /// Sets the rate multiplier setting for extended terms.
    pub fn set_extended_term_rate_multiplier(&mut self, value: u64)
        ensures
            *final(self) == (LoanController { extended_term_rate_multiplier: value, ..*old(self) }),
    {
        self.extended_term_rate_multiplier = value;
    }

    /// Sets the rate multiplier setting for maximum terms.
    pub fn set_max_term_rate_multiplier(&mut self, value: u64)
        ensures
            *final(self) == (LoanController { max_term_rate_multiplier: value, ..*old(self) }),
    {
        self.max_term_rate_multiplier = value;
    }

    /// Sets the timelock for governance operations.
    pub fn set_operation_timelock(&mut self, value: u64)
        ensures
            *final(self) == (LoanController { operation_timelock: value, ..*old(self) }),
    {
        self.operation_timelock = value;
    }

    /// Sets the extension fee (at most 10000 basis points).
    pub fn set_extension_fee_percent(&mut self, value: u64) -> (r: Result<(), LoanError>)
        requires
            old(self).wf(),
        ensures
            final(self).wf(),
            value > 10000 ==> r == Err::<(), LoanError>(LoanError::RateTooHigh) && *final(self)
                == *old(self),
            value <= 10000 ==> r is Ok && *final(self) == (LoanController { extension_fee_percent: value, ..*old(self) }),
    {
        if value > 10000 {
            return Err(LoanError::RateTooHigh);
        }
        self.extension_fee_percent = value;
        Ok(())
    }

    /// Sets the daily late fee (at most 10000 basis points).
    pub fn set_late_fee_daily_rate(&mut self, value: u64) -> (r: Result<(), LoanError>)
        requires
            old(self).wf(),
        ensures
            final(self).wf(),
            value > 10000 ==> r == Err::<(), LoanError>(LoanError::RateTooHigh) && *final(self)
                == *old(self),
            value <= 10000 ==> r is Ok && *final(self) == (LoanController { late_fee_daily_rate: value, ..*old(self) }),
    {
        if value > 10000 {
            return Err(LoanError::RateTooHigh);
        }
        self.late_fee_daily_rate = value;
        Ok(())
    }

    /// Sets the collateral ratio (at most 10000 basis points).
    pub fn set_collateral_ratio(&mut self, value: u64) -> (r: Result<(), LoanError>)
        requires
            old(self).wf(),
        ensures
            final(self).wf(),
            value > 10000 ==> r == Err::<(), LoanError>(LoanError::RateTooHigh) && *final(self)
                == *old(self),
            value <= 10000 ==> r is Ok && *final(self) == (LoanController { collateral_ratio: value, ..*old(self) }),
    {
        if value > 10000 {
            return Err(LoanError::RateTooHigh);
        }
        self.collateral_ratio = value;
        Ok(())
    }

    /// Sets the liquidation discount (at most 10000 basis points).
    pub fn set_liquidation_discount(&mut self, value: u64) -> (r: Result<(), LoanError>)
        requires
            old(self).wf(),
        ensures
            final(self).wf(),
            value > 10000 ==> r == Err::<(), LoanError>(LoanError::RateTooHigh) && *final(self)
                == *old(self),
            value <= 10000 ==> r is Ok && *final(self) == (LoanController { liquidation_discount: value, ..*old(self) }),
    {
        if value > 10000 {
            return Err(LoanError::RateTooHigh);
        }
        self.liquidation_discount = value;
        Ok(())
    }

    /// Sets the per-user loan limit (owner only).
    pub fn set_max_loans_per_user(&mut self, caller: Address, value: u64) -> (r: Result<(), LoanError>)
        ensures
            caller != old(self).owner ==> r == Err::<(), LoanError>(LoanError::NotOwner)
                && *final(self) == *old(self),
            caller == old(self).owner ==> r is Ok && *final(self) == (LoanController {
                max_loans_per_user: value,
                ..*old(self)
            }),
    {
        if caller != self.owner {
            return Err(LoanError::NotOwner);
        }
        self.max_loans_per_user = value;
        Ok(())
    }

    /// Sets the least collateral a collateral-backed loan needs (owner only).
    pub fn set_min_collateral_amount(&mut self, caller: Address, value: u128) -> (r: Result<(), LoanError>)
        ensures
            caller != old(self).owner ==> r == Err::<(), LoanError>(LoanError::NotOwner)
                && *final(self) == *old(self),
            caller == old(self).owner ==> r is Ok && *final(self) == (LoanController {
                min_collateral_amount: value,
                ..*old(self)
            }),
    {
        if caller != self.owner {
            return Err(LoanError::NotOwner);
        }
        self.min_collateral_amount = value;
        Ok(())
    }
}

} // verus!
