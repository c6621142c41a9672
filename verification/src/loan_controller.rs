//! Loan desk that lends against social reputation (and optionally collateral),
//! tracks repayment, extensions, defaults and liquidations, and shares the
//! interest earned among investors.
use vstd::prelude::*;

use crate::address::{Address, StorageKey};
use crate::storage::KeyMap;

verus! {

/// Lifecycle of a loan.
#[derive(Clone, Copy, Debug, PartialEq, Eq, Structural)]
pub enum LoanStatus {
    Active,
    Repaid,
    Defaulted,
    Liquidated,
}

/// Governance parameters whose changes can be scheduled.
#[derive(Clone, Copy, Debug, PartialEq, Eq, Structural)]
pub enum ParamType {
    MinScore,
    MaxScore,
    InterestRate,
}

impl StorageKey for ParamType {
    fn same_key(&self, other: &Self) -> (r: bool) {
        *self == *other
    }
}

/// Duration classes of a loan.
#[derive(Clone, Copy, Debug, PartialEq, Eq, Structural)]
pub enum LoanTerm {
    /// 30 days.
    Standard,
    /// 90 days.
    Extended,
    /// 15 days.
    Short,
    /// 180 days.
    Maximum,
}

/// Number of days of each loan term.
pub open spec fn term_days(term: LoanTerm) -> u64 {
    match term {
        LoanTerm::Standard => 30,
        LoanTerm::Extended => 90,
        LoanTerm::Short => 15,
        LoanTerm::Maximum => 180,
    }
}

impl LoanTerm {
    /// Number of days of the term.
    pub fn get_days(&self) -> (r: u64)
        ensures
            r == term_days(*self),
    {
        match self {
            LoanTerm::Standard => 30,
            LoanTerm::Extended => 90,
            LoanTerm::Short => 15,
            LoanTerm::Maximum => 180,
        }
    }
}

/// A scheduled parameter change.
#[derive(Clone, Copy, Debug, PartialEq, Eq, Structural)]
pub struct ParameterChange {
    /// The new value for the parameter.
    pub value: u64,
    /// When the change was requested.
    pub timestamp: u64,
}

/// A loan record.
#[derive(Clone, Copy, Debug, PartialEq, Eq, Structural)]
pub struct Loan {
    pub borrower: Address,
    pub amount: u128,
    pub repayment_amount: u128,
    pub interest_rate: u64,
    pub creation_timestamp: u64,
    pub due_timestamp: u64,
    pub status: LoanStatus,
}

/// The token a payment or a transfer is made in.
#[derive(Clone, Debug, PartialEq, Eq)]
pub enum TokenId {
    /// The native currency.
    Egld,
    /// A fungible token, by identifier.
    Esdt(Vec<u8>),
}

/// A transfer the desk makes out of its own balance.
#[derive(Clone, Debug, PartialEq, Eq)]
pub struct Transfer {
    pub to: Address,
    pub token: TokenId,
    pub amount: u128,
}

/// Why a call to the loan desk was refused.
#[derive(Clone, Copy, Debug, PartialEq, Eq, Structural)]
pub enum LoanError {
    /// The endpoint can only be called by the owner.
    NotOwner,
    /// The desk is paused.
    Paused,
    /// No loan is recorded under this id.
    LoanNotFound,
    /// The caller is not the borrower of the loan.
    NotBorrower,
    /// The caller is not the reputation registry.
    NotReputationContract,
    /// The caller is on the blacklist and may not request loans.
    Blacklisted,
    /// The reputation score stored for the caller is below the minimum required.
    InsufficientReputationScore,
    /// The caller already holds `max_loans_per_user` loans.
    UserLoanLimitReached,
    /// `max_active_loans` loans are already active across all users.
    GlobalLoanLimitReached,
    /// The loan is not active.
    LoanNotActive,
    /// The loan is not repaid.
    LoanNotRepaid,
    /// The loan is not defaulted.
    LoanNotDefaulted,
    /// The payment differs from the amount owed.
    IncorrectRepaymentAmount,
    /// The payment differs from the extension fee.
    IncorrectExtensionFee,
    /// The loan is already due.
    LoanExpired,
    /// The extension would take the loan past `max_loan_term_days` from its creation.
    DurationAboveMaximum,
    /// A payment or deposit of zero.
    ZeroPayment,
    /// The payment exceeds the amount owed.
    PaymentExceedsDebt,
    /// Partial repayments are switched off.
    PartialRepaymentsDisabled,
    /// No collateral is held for the loan or the caller.
    NoCollateral,
    /// The collateral is below the minimum, or lends nothing.
    InsufficientCollateral,
    /// Loan terms must all be positive.
    TermsNotPositive,
    /// Loan terms must satisfy `short < standard < extended`.
    TermsOutOfOrder,
    /// A rate above 10000 basis points.
    RateTooHigh,
    /// The caller already holds the maximum number of loans.
    ActiveLoanLimitReached,
    /// Nothing to distribute: no interest earned.
    NoProfits,
    /// Nothing to distribute to: no investor shares.
    NoInvestors,
    /// The investor holds no shares.
    InvestorNotFound,
    /// The zero address cannot be an investor.
    InvalidInvestorAddress,
    /// Investor shares would exceed 10000 basis points (100%) in total.
    InvestorSharesAboveWhole,
    /// Emergency mode is off.
    EmergencyModeInactive,
    /// The destruction timelock has not expired.
    TimelockActive,
    /// The reputation registry judged the user not eligible.
    ScoreTooLow,
    /// The requested amount exceeds the user's limit.
    AmountAboveLimit,
    /// The reputation registry could not answer.
    ReputationCallFailed,
    /// The amount repaid is below the principal.
    RepaymentBelowPrincipal,
    /// A counter, timestamp or rate does not fit in 64 bits, or an amount in 128 bits.
    ArithmeticOverflow,
}

/// The loan desk's storage.
pub struct LoanController {
    /// The account that deployed the desk.
    pub owner: Address,
    pub reputation_score_address: Address,
    pub min_required_score: u64,
    /// Base interest rate in basis points (1000 = 10%).
    pub interest_rate_base: u64,
    pub base_loan_amount: u128,
    pub standard_term_days: u64,
    pub extended_term_days: u64,
    pub short_term_days: u64,
    pub loan_counter: u64,
    pub loans: KeyMap<u64, Loan>,
    pub user_loans: KeyMap<Address, Vec<u64>>,
    pub on_time_payments: KeyMap<Address, u64>,
    /// Running count of repayments in full.
    pub repaid_loans_count: u64,
    pub total_interest_earned: u128,
    /// Extension fee in basis points of the amount owed.
    pub extension_fee_percent: u64,
    pub late_fee_daily_rate: u64,
    /// Loan amount granted per unit of collateral, in basis points.
    pub collateral_ratio: u64,
    pub liquidation_discount: u64,
    pub loan_collateral: KeyMap<u64, u128>,
    pub pending_collateral: KeyMap<Address, u128>,
    pub min_collateral_amount: u128,
    pub allow_partial_repayments: bool,
    pub loan_payments: KeyMap<u64, u128>,
    pub investors: Vec<Address>,
    pub investor_shares: KeyMap<Address, u64>,
    pub total_investor_shares: u64,
    pub emergency_mode: bool,
    pub blacklist: KeyMap<Address, bool>,
    pub max_loans_per_user: u64,
    pub min_interest_rate: u64,
    pub max_interest_rate: u64,
    pub mock_timestamp: u64,
    pub max_active_loans: u64,
    /// Running count of loans marked defaulted once expired.
    pub overdue_loans_count: u64,
    pub standard_loan_term_days: u64,
    pub extended_loan_term_days: u64,
    pub max_loan_term_days: u64,
    pub user_reputation_scores: KeyMap<Address, u64>,
    pub extended_term_rate_multiplier: u64,
    pub max_term_rate_multiplier: u64,
    pub max_loan_amount: u128,
    /// Count of loans opened and not yet repaid or defaulted, checked against the global
    /// loan limit.
    pub active_loans_count: u64,
    pub operation_timelock: u64,
    pub pending_parameter_changes: KeyMap<ParamType, ParameterChange>,
    /// Scheduled parameter changes keyed by a numeric parameter key.
    pub pending_parameter_changes_by_key: KeyMap<u128, ParameterChange>,
    pub destruction_timelock: u64,
    pub destruction_pending_v2: bool,
    pub destruction_confirmation_count: u32,
    /// Running totals lent and owed on loans opened through the reputation-checked request.
    pub total_loan_amount: u128,
    pub total_repayment_amount: u128,
    pub paused: bool,
    /// Days after the due time before an unpaid loan counts as expired.
    pub grace_period_days: u64,
    /// Smallest loan amount (kept for configuration; no endpoint reads it).
    pub min_loan_amount: u128,
    /// Days late after which a higher daily fee was meant to apply (kept for
    /// configuration; the late fee is the flat daily rate and no endpoint reads it).
    pub progressive_late_fee_threshold_days: u64,
    /// The higher daily fee meant for that threshold (kept for configuration; no endpoint
    /// reads it).
    pub progressive_late_fee_daily_rate: u64,
    /// Pool utilization the base rate is meant for, in basis points.
    pub target_utilization: u64,
    /// How strongly the rate rises above the target utilization, in basis points.
    pub over_utilization_multiplier: u64,
    /// How strongly the rate falls below the target utilization, in basis points.
    pub under_utilization_multiplier: u64,
    /// Funds available for lending.
    pub available_funds: u128,
    /// Amount currently lent out.
    pub total_active_loan_amount: u128,
    /// The liquidity pool the desk lends from (the zero address until set).
    pub liquidity_pool_address: Address,
    /// The debt token recording what borrowers owe (the zero address until set).
    pub debt_token_address: Address,
    /// Loan-limit increase per on-time repayment, in basis points (kept for
    /// configuration; no endpoint reads it).
    pub loan_limit_scale_factor: u64,
}

/// `count` less `n`, stopping at zero.
pub open spec fn less_or_zero(count: u64, n: nat) -> u64 {
    if count >= n {
        (count - n) as u64
    } else {
        0
    }
}

impl LoanController {
    /// The storage is well formed: rates given in basis points are at most 100%, the
    /// recorded loan ids are exactly those from one up to the loan counter, every id
    /// listed for a user is a recorded loan, the investor shares are all held by listed
    /// investors, and the active-loan count never exceeds the loans opened.
    pub open spec fn wf(&self) -> bool {
        &&& self.loans.wf()
        &&& self.user_loans.wf()
        &&& self.on_time_payments.wf()
        &&& self.loan_collateral.wf()
        &&& self.pending_collateral.wf()
        &&& self.loan_payments.wf()
        &&& self.investor_shares.wf()
        &&& self.blacklist.wf()
        &&& self.user_reputation_scores.wf()
        &&& self.pending_parameter_changes.wf()
        &&& self.pending_parameter_changes_by_key.wf()
        &&& self.extension_fee_percent <= 10000
        &&& self.late_fee_daily_rate <= 10000
        &&& self.collateral_ratio <= 10000
        &&& self.liquidation_discount <= 10000
        &&& self.ids_within_counter()
        &&& self.all_loans_recorded()
        &&& self.user_loans_recorded()
        &&& self.shares_all_listed()
        &&& self.active_loans_count <= self.loan_counter
    }

    /// Every recorded loan id lies between one and the loan counter.
    pub open spec fn ids_within_counter(&self) -> bool {
        forall|id: u64| #[trigger] self.loans@.dom().contains(id) ==> 1 <= id <= self.loan_counter
    }

    /// Every id from one up to the loan counter holds a loan record.
    pub open spec fn all_loans_recorded(&self) -> bool {
        forall|id: u64| 1 <= id <= self.loan_counter ==> #[trigger] self.loans@.dom().contains(id)
    }

    /// Every id listed for a user is a recorded loan.
    pub open spec fn user_loans_recorded(&self) -> bool {
        forall|u: Address, i: int|
            #![trigger self.user_loans@[u]@[i]]
            self.user_loans@.dom().contains(u) && 0 <= i < self.user_loans@[u]@.len()
                ==> self.loans@.dom().contains(self.user_loans@[u]@[i])
    }

    /// The loan ids recorded for `user` (empty when none).
    pub open spec fn loans_of(&self, user: Address) -> Seq<u64> {
        if self.user_loans@.dom().contains(user) {
            self.user_loans@[user]@
        } else {
            Seq::empty()
        }
    }

    /// Deploys the desk; `owner` is the deployer.
    pub fn init(
        owner: Address,
        reputation_score_address: Address,
        min_required_score: u64,
        interest_rate_base: u64,
        base_loan_amount: u128,
    ) -> (r: LoanController)
        ensures
            r.wf(),
            r.owner == owner,
            r.reputation_score_address == reputation_score_address,
            r.min_required_score == min_required_score,
            r.interest_rate_base == interest_rate_base,
            r.base_loan_amount == base_loan_amount,
            r.standard_term_days == 30,
            r.extended_term_days == 90,
            r.short_term_days == 15,
            r.loan_counter == 0,
            r.loans@ == Map::<u64, Loan>::empty(),
            r.user_loans@ == Map::<Address, Vec<u64>>::empty(),
            r.loan_collateral@ == Map::<u64, u128>::empty(),
            r.pending_collateral@ == Map::<Address, u128>::empty(),
            r.investor_shares@ == Map::<Address, u64>::empty(),
            r.investors@ == Seq::<Address>::empty(),
            r.total_investor_shares == 0,
            r.total_interest_earned == 0,
            r.repaid_loans_count == 0,
            r.overdue_loans_count == 0,
            r.extension_fee_percent == 0,
            r.collateral_ratio == 0,
            r.liquidation_discount == 0,
            !r.paused,
            !r.emergency_mode,
            !r.allow_partial_repayments,
            r.grace_period_days == 0,
            r.active_loans_count == 0,
            r.on_time_payments@ == Map::<Address, u64>::empty(),
            r.loan_payments@ == Map::<u64, u128>::empty(),
            r.blacklist@ == Map::<Address, bool>::empty(),
            r.user_reputation_scores@ == Map::<Address, u64>::empty(),
            r.pending_parameter_changes@ == Map::<ParamType, ParameterChange>::empty(),
            r.pending_parameter_changes_by_key@ == Map::<u128, ParameterChange>::empty(),
            r.late_fee_daily_rate == 0,
            r.min_collateral_amount == 0,
            r.max_loans_per_user == 0,
            r.min_interest_rate == 0,
            r.max_interest_rate == 0,
            r.mock_timestamp == 0,
            r.max_active_loans == 0,
            r.standard_loan_term_days == 0,
            r.extended_loan_term_days == 0,
            r.max_loan_term_days == 0,
            r.extended_term_rate_multiplier == 0,
            r.max_term_rate_multiplier == 0,
            r.max_loan_amount == 0,
            r.operation_timelock == 0,
            r.destruction_timelock == 0,
            !r.destruction_pending_v2,
            r.destruction_confirmation_count == 0,
            r.total_loan_amount == 0,
            r.total_repayment_amount == 0,
            r.min_loan_amount == 0,
            r.progressive_late_fee_threshold_days == 0,
            r.progressive_late_fee_daily_rate == 0,
            r.target_utilization == 0,
            r.over_utilization_multiplier == 0,
            r.under_utilization_multiplier == 0,
            r.available_funds == 0,
            r.total_active_loan_amount == 0,
            r.liquidity_pool_address == Address::spec_zero(),
            r.debt_token_address == Address::spec_zero(),
            r.loan_limit_scale_factor == 0,
    {
        LoanController {
            owner,
            reputation_score_address,
            min_required_score,
            interest_rate_base,
            base_loan_amount,
            standard_term_days: 30,
            extended_term_days: 90,
            short_term_days: 15,
            loan_counter: 0,
            loans: KeyMap::new(),
            user_loans: KeyMap::new(),
            on_time_payments: KeyMap::new(),
            repaid_loans_count: 0,
            total_interest_earned: 0,
            extension_fee_percent: 0,
            late_fee_daily_rate: 0,
            collateral_ratio: 0,
            liquidation_discount: 0,
            loan_collateral: KeyMap::new(),
            pending_collateral: KeyMap::new(),
            min_collateral_amount: 0,
            allow_partial_repayments: false,
            loan_payments: KeyMap::new(),
            investors: Vec::new(),
            investor_shares: KeyMap::new(),
            total_investor_shares: 0,
            emergency_mode: false,
            blacklist: KeyMap::new(),
            max_loans_per_user: 0,
            min_interest_rate: 0,
            max_interest_rate: 0,
            mock_timestamp: 0,
            max_active_loans: 0,
            overdue_loans_count: 0,
            standard_loan_term_days: 0,
            extended_loan_term_days: 0,
            max_loan_term_days: 0,
            user_reputation_scores: KeyMap::new(),
            extended_term_rate_multiplier: 0,
            max_term_rate_multiplier: 0,
            max_loan_amount: 0,
            active_loans_count: 0,
            operation_timelock: 0,
            pending_parameter_changes: KeyMap::new(),
            pending_parameter_changes_by_key: KeyMap::new(),
            destruction_timelock: 0,
            destruction_pending_v2: false,
            destruction_confirmation_count: 0,
            total_loan_amount: 0,
            total_repayment_amount: 0,
            paused: false,
            grace_period_days: 0,
            min_loan_amount: 0,
            progressive_late_fee_threshold_days: 0,
            progressive_late_fee_daily_rate: 0,
            target_utilization: 0,
            over_utilization_multiplier: 0,
            under_utilization_multiplier: 0,
            available_funds: 0,
            total_active_loan_amount: 0,
            liquidity_pool_address: Address::zero(),
            debt_token_address: Address::zero(),
            loan_limit_scale_factor: 0,
        }
    }

    /// Appends the recorded loan `loan_id` to the loans listed for `user`.
    pub fn push_user_loan(&mut self, user: Address, loan_id: u64)
        requires
            old(self).wf(),
            old(self).loans@.dom().contains(loan_id),
        ensures
            final(self).wf(),
            final(self).user_loans@ == old(self).user_loans@.insert(
                user,
                final(self).user_loans@[user],
            ),
            final(self).user_loans@[user]@ == old(self).loans_of(user).push(loan_id),
            final(self).loans_of(user) == old(self).loans_of(user).push(loan_id),
            *final(self) == (LoanController { user_loans: final(self).user_loans, ..*old(self) }),
    {
        let mut ids: Vec<u64> = match self.user_loans.get(&user) {
            Some(v) => v.clone(),
            None => Vec::new(),
        };
        ids.push(loan_id);
        let ghost before = *self;
        self.user_loans.insert(user, ids);
        proof {
            assert forall|u: Address, i: int|
                #![trigger self.user_loans@[u]@[i]]
                self.user_loans@.dom().contains(u) && 0 <= i < self.user_loans@[u]@.len()
                    implies self.loans@.dom().contains(self.user_loans@[u]@[i]) by {
                if u != user {
                    assert(self.user_loans@[u] == before.user_loans@[u]);
                } else if i < before.loans_of(u).len() {
                    assert(self.user_loans@[u]@[i] == before.user_loans@[u]@[i]);
                }
            }
        }
    }
}

} // verus!
