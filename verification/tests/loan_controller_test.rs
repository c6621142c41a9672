use rand::rngs::StdRng;
use rand::{Rng, SeedableRng};
use socialfi_credit::address::Address;
use socialfi_credit::loan_controller::{
    Loan, LoanController, LoanError, LoanStatus, LoanTerm, ParamType, ParameterChange, TokenId, Transfer,
};
use socialfi_credit::loan_requests::{
    AsyncCallError, LoanCallback, LoanRequest, ReputationCall, ReputationQuery,
};
use socialfi_credit::reputation_score::ReputationScore;

const DAY: u64 = 24 * 60 * 60;

fn addr(n: u64) -> Address {
    Address { w0: n, w1: 0, w2: 0, w3: 0 }
}

struct Setup {
    desk: LoanController,
    owner: Address,
    reputation_score_address: Address,
    borrower: Address,
}

fn setup_contract() -> Setup {
    let owner = addr(1);
    let reputation_score_address = addr(2);
    let borrower = addr(3);
    let desk = LoanController::init(owner, reputation_score_address, 500, 1000, 10_000);
    Setup { desk, owner, reputation_score_address, borrower }
}

fn loan(borrower: Address, amount: u128, repayment: u128, created: u64, due: u64, status: LoanStatus) -> Loan {
    Loan {
        borrower,
        amount,
        repayment_amount: repayment,
        interest_rate: 1000,
        creation_timestamp: created,
        due_timestamp: due,
        status,
    }
}

/// Stores a loan directly, as a storage write would.
fn store_loan(desk: &mut LoanController, id: u64, l: Loan) {
    desk.loans.insert(id, l);
    desk.push_user_loan(l.borrower, id);
}

/// Answers a registry query from a registry's state.
fn answer(registry: &ReputationScore, call: &ReputationCall) -> (Option<bool>, Option<u128>, Option<u64>) {
    match call.query {
        ReputationQuery::IsEligibleForLoan { user, min_score } => {
            (Some(registry.is_eligible_for_loan(user, min_score)), None, None)
        }
        ReputationQuery::CalculateMaxLoanAmount { user, base_amount } => {
            (None, Some(registry.calculate_max_loan_amount(user, base_amount).unwrap()), None)
        }
        ReputationQuery::GetUserScore { user } => (None, None, Some(registry.get_user_score(user))),
    }
}

/// Runs the reputation-checked request through the registry and its three callbacks.
fn request_through_registry(
    desk: &mut LoanController,
    registry: &ReputationScore,
    caller: Address,
    now: u64,
    amount: u128,
    term: LoanTerm,
) -> Result<Transfer, LoanError> {
    let rs = desk.reputation_score_address;
    desk.reputation_check_callback(rs, caller, registry.get_user_score(caller)).unwrap();
    let mut call = desk.request_loan(caller, amount, term)?;
    loop {
        assert_eq!(call.to, desk.reputation_score_address);
        let (eligible, max_amount, score) = answer(registry, &call);
        let req = call.request;
        match call.callback {
            LoanCallback::CheckEligibility => {
                call = desk.check_eligibility_callback(Ok(eligible.unwrap()), req.caller, req.amount, req.term)?;
            }
            LoanCallback::CheckAmount => {
                call = desk.check_amount_callback(Ok(max_amount.unwrap()), req.caller, req.amount, req.term)?;
            }
            LoanCallback::ProcessLoan => {
                return desk.process_loan_callback(now, TokenId::Egld, Ok(score.unwrap()), req.caller, req.amount, req.term);
            }
        }
    }
}

fn registry_with_score(rs_owner: Address, user: Address, score: u64) -> ReputationScore {
    let oracle = addr(99);
    let mut registry = ReputationScore::init(rs_owner, 0, 1000).unwrap();
    registry.set_oracle_address(rs_owner, oracle).unwrap();
    registry.update_score(oracle, user, score).unwrap();
    registry
}

#[test]
fn loan_controller_test_test_init() {
    let setup = setup_contract();
    assert_eq!(setup.desk.reputation_score_address, setup.reputation_score_address);
    assert_eq!(setup.desk.min_required_score, 500);
    assert_eq!(setup.desk.interest_rate_base, 1000);
    assert_eq!(setup.desk.base_loan_amount, 10_000);
    assert_eq!(setup.desk.loan_counter, 0);
    assert_eq!(setup.desk.owner, setup.owner);
    assert_eq!((setup.desk.standard_term_days, setup.desk.extended_term_days, setup.desk.short_term_days), (30, 90, 15));
}

#[test]
fn test_calculate_interest_rate() {
    let setup = setup_contract();
    assert_eq!(setup.desk.calculate_interest_rate(100), 920);
    assert_eq!(setup.desk.calculate_interest_rate(500), 600);
    assert_eq!(setup.desk.calculate_interest_rate(900), 280);
    assert_eq!(setup.desk.calculate_interest_rate(1000), 200);
}

#[test]
fn test_interest_rate_above_top_score() {
    let setup = setup_contract();
    assert_eq!(setup.desk.calculate_interest_rate(1100), 200);
    assert_eq!(setup.desk.calculate_interest_rate(1249), 200);
    assert_eq!(setup.desk.calculate_interest_rate(u64::MAX), 200);
    assert_eq!(setup.desk.calculate_interest_rate(0), 1000);
    assert_eq!(setup.desk.calculate_interest_rate(999), 210);
}

#[test]
fn test_loan_mappings() {
    let mut setup = setup_contract();
    let b = setup.borrower;
    setup.desk.loan_counter = 1;
    store_loan(&mut setup.desk, 1, loan(b, 5000, 5500, 12345, 23456, LoanStatus::Active));
    let l = *setup.desk.loans.get(&1).unwrap();
    assert_eq!(l.borrower, b);
    assert_eq!(l.amount, 5000);
    assert_eq!(l.repayment_amount, 5500);
    assert_eq!(l.interest_rate, 1000);
    assert_eq!(l.creation_timestamp, 12345);
    assert_eq!(l.due_timestamp, 23456);
    assert_eq!(l.status, LoanStatus::Active);
    assert_eq!(setup.desk.get_user_loan_history(b), vec![1]);
}

#[test]
fn test_request_loan_through_registry() {
    let mut setup = setup_contract();
    let b = setup.borrower;
    let registry = registry_with_score(addr(50), b, 800);
    let transfer = request_through_registry(&mut setup.desk, &registry, b, 10_000, 10_000, LoanTerm::Standard).unwrap();
    assert_eq!(transfer, Transfer { to: b, token: TokenId::Egld, amount: 10_000 });
    assert_eq!(setup.desk.loan_counter, 1);
    let l = *setup.desk.loans.get(&1).unwrap();
    assert_eq!(l.borrower, b);
    assert_eq!(l.amount, 10_000);
    assert_eq!(l.status, LoanStatus::Active);
    assert_eq!(l.interest_rate, 360);
    assert_eq!(l.repayment_amount, 10_360);
    assert_eq!(l.creation_timestamp, 10_000);
    assert_eq!(l.due_timestamp, 10_000 + 30 * DAY);
    assert_eq!(setup.desk.get_user_loan_history(b), vec![1]);
    assert_eq!(setup.desk.get_total_loan_amount(), 10_000);
    assert_eq!(setup.desk.get_total_repayment_amount(), 10_360);
    assert_eq!(setup.desk.get_active_loans_count(), 1);
}

#[test]
fn test_request_loan_term_adjusts_rate() {
    let mut setup = setup_contract();
    let b = setup.borrower;
    let registry = registry_with_score(addr(50), b, 800);
    request_through_registry(&mut setup.desk, &registry, b, 0, 10_000, LoanTerm::Extended).unwrap();
    request_through_registry(&mut setup.desk, &registry, b, 0, 10_000, LoanTerm::Short).unwrap();
    request_through_registry(&mut setup.desk, &registry, b, 0, 10_000, LoanTerm::Maximum).unwrap();
    assert_eq!(setup.desk.loans.get(&1).unwrap().interest_rate, 432);
    assert_eq!(setup.desk.loans.get(&1).unwrap().due_timestamp, 90 * DAY);
    assert_eq!(setup.desk.loans.get(&2).unwrap().interest_rate, 288);
    assert_eq!(setup.desk.loans.get(&3).unwrap().interest_rate, 540);
    assert_eq!(setup.desk.loans.get(&3).unwrap().repayment_amount, 10_540);
    assert_eq!(setup.desk.get_user_loan_history(b), vec![1, 2, 3]);
}

#[test]
fn test_request_loan_insufficient_score() {
    let mut setup = setup_contract();
    let (rs, b) = (setup.reputation_score_address, setup.borrower);
    setup.desk.reputation_check_callback(rs, b, 400).unwrap();
    assert_eq!(
        setup.desk.request_loan(b, 10_000, LoanTerm::Standard),
        Err(LoanError::InsufficientReputationScore)
    );
    assert_eq!(setup.desk.loan_counter, 0);
}

#[test]
fn test_request_loan_registry_refuses_low_score() {
    let setup = setup_contract();
    let b = setup.borrower;
    assert_eq!(
        setup.desk.check_eligibility_callback(Ok(false), b, 10_000, LoanTerm::Standard),
        Err(LoanError::ScoreTooLow)
    );
}

#[test]
fn test_request_loan_above_limit() {
    let mut setup = setup_contract();
    let b = setup.borrower;
    let registry = registry_with_score(addr(50), b, 600);
    assert_eq!(
        request_through_registry(&mut setup.desk, &registry, b, 0, 12_001, LoanTerm::Standard),
        Err(LoanError::AmountAboveLimit)
    );
    assert!(request_through_registry(&mut setup.desk, &registry, b, 0, 12_000, LoanTerm::Standard).is_ok());
}

#[test]
fn test_request_loan_calls() {
    let setup = setup_contract();
    let b = setup.borrower;
    let rs = setup.reputation_score_address;
    let req = LoanRequest { caller: b, amount: 7, term: LoanTerm::Short };
    let mut setup = setup;
    setup.desk.reputation_check_callback(rs, b, 800).unwrap();
    assert_eq!(
        setup.desk.request_loan(b, 7, LoanTerm::Short),
        Ok(ReputationCall {
            to: rs,
            query: ReputationQuery::IsEligibleForLoan { user: b, min_score: 500 },
            callback: LoanCallback::CheckEligibility,
            request: req,
        })
    );
    assert_eq!(
        setup.desk.check_eligibility_callback(Ok(true), b, 7, LoanTerm::Short),
        Ok(ReputationCall {
            to: rs,
            query: ReputationQuery::CalculateMaxLoanAmount { user: b, base_amount: 10_000 },
            callback: LoanCallback::CheckAmount,
            request: req,
        })
    );
    assert_eq!(
        setup.desk.check_amount_callback(Ok(7), b, 7, LoanTerm::Short),
        Ok(ReputationCall {
            to: rs,
            query: ReputationQuery::GetUserScore { user: b },
            callback: LoanCallback::ProcessLoan,
            request: req,
        })
    );
    let err = AsyncCallError { err_code: 4 };
    assert_eq!(setup.desk.check_eligibility_callback(Err(err), b, 7, LoanTerm::Short), Err(LoanError::ReputationCallFailed));
    assert_eq!(setup.desk.check_amount_callback(Err(err), b, 7, LoanTerm::Short), Err(LoanError::ReputationCallFailed));
}

#[test]
fn test_process_loan_callback_failure_leaves_state() {
    let mut setup = setup_contract();
    let b = setup.borrower;
    let err = AsyncCallError { err_code: 1 };
    assert_eq!(
        setup.desk.process_loan_callback(0, TokenId::Egld, Err(err), b, 10, LoanTerm::Standard),
        Err(LoanError::ReputationCallFailed)
    );
    assert_eq!(
        setup.desk.process_loan_callback(u64::MAX, TokenId::Egld, Ok(800), b, 10, LoanTerm::Standard),
        Err(LoanError::ArithmeticOverflow)
    );
    assert_eq!(setup.desk.loan_counter, 0);
    assert!(setup.desk.get_user_loan_history(b).is_empty());
}

#[test]
fn test_repay_loan_success() {
    let mut setup = setup_contract();
    let b = setup.borrower;
    setup.desk.loan_counter = 1;
    store_loan(&mut setup.desk, 1, loan(b, 5000, 5500, 10000, 20000, LoanStatus::Active));
    assert_eq!(setup.desk.repay_loan(b, 15000, 5500, 1), Ok(()));
    assert_eq!(setup.desk.loans.get(&1).unwrap().status, LoanStatus::Repaid);
    assert_eq!(setup.desk.get_repaid_loans_count(), 1);
    assert_eq!(setup.desk.on_time_payments.count(&b), 1);
    assert_eq!(setup.desk.total_interest_earned, 500);
}

#[test]
fn test_repay_loan_late_not_counted_on_time() {
    let mut setup = setup_contract();
    let b = setup.borrower;
    setup.desk.loan_counter = 1;
    store_loan(&mut setup.desk, 1, loan(b, 5000, 5500, 10000, 20000, LoanStatus::Active));
    assert_eq!(setup.desk.repay_loan(b, 20001, 5500, 1), Ok(()));
    assert_eq!(setup.desk.on_time_payments.count(&b), 0);
    assert_eq!(setup.desk.get_repaid_loans_count(), 1);
}

#[test]
fn test_repay_loan_incorrect_amount() {
    let mut setup = setup_contract();
    let b = setup.borrower;
    setup.desk.loan_counter = 1;
    store_loan(&mut setup.desk, 1, loan(b, 5000, 5500, 10000, 20000, LoanStatus::Active));
    assert_eq!(setup.desk.repay_loan(b, 15000, 5000, 1), Err(LoanError::IncorrectRepaymentAmount));
    assert_eq!(setup.desk.loans.get(&1).unwrap().status, LoanStatus::Active);
}

#[test]
fn test_repay_loan_not_borrower() {
    let mut setup = setup_contract();
    let b = setup.borrower;
    let other = addr(10);
    setup.desk.loan_counter = 1;
    store_loan(&mut setup.desk, 1, loan(b, 5000, 5500, 10000, 20000, LoanStatus::Active));
    assert_eq!(setup.desk.repay_loan(other, 15000, 5500, 1), Err(LoanError::NotBorrower));
}

#[test]
fn test_repay_loan_already_repaid() {
    let mut setup = setup_contract();
    let b = setup.borrower;
    setup.desk.loan_counter = 1;
    store_loan(&mut setup.desk, 1, loan(b, 5000, 5500, 10000, 20000, LoanStatus::Repaid));
    assert_eq!(setup.desk.repay_loan(b, 15000, 5500, 1), Err(LoanError::LoanNotActive));
}

#[test]
fn test_repay_missing_loan() {
    let mut setup = setup_contract();
    assert_eq!(setup.desk.repay_loan(addr(3), 0, 0, 42), Err(LoanError::LoanNotFound));
}

#[test]
fn test_repay_below_principal_after_partial_payment() {
    let mut setup = setup_contract();
    let b = setup.borrower;
    setup.desk.allow_partial_repayments = true;
    store_loan(&mut setup.desk, 1, loan(b, 10_000, 11_000, 10000, 20000, LoanStatus::Active));
    setup.desk.partial_repay_loan(b, 5000, 1).unwrap();
    assert_eq!(setup.desk.repay_loan(b, 15000, 6000, 1), Err(LoanError::RepaymentBelowPrincipal));
    assert_eq!(setup.desk.loans.get(&1).unwrap().status, LoanStatus::Active);
}

#[test]
fn test_owner_only_settings() {
    let mut setup = setup_contract();
    let owner = setup.owner;
    let non_owner = addr(10);
    assert_eq!(setup.desk.set_min_required_score(non_owner, 600), Err(LoanError::NotOwner));
    assert_eq!(setup.desk.get_min_required_score(), 500);
    setup.desk.set_min_required_score(owner, 600).unwrap();
    assert_eq!(setup.desk.get_min_required_score(), 600);
    setup.desk.set_interest_rate_base(1200);
    assert_eq!(setup.desk.get_interest_rate_base(), 1200);
    setup.desk.set_late_fee_daily_rate(300).unwrap();
    assert_eq!(setup.desk.get_late_fee_daily_rate(), 300);
    assert_eq!(setup.desk.set_late_fee_daily_rate(10001), Err(LoanError::RateTooHigh));
    assert_eq!(setup.desk.get_late_fee_daily_rate(), 300);
}

#[test]
fn test_reputation_check_callback() {
    let mut setup = setup_contract();
    let (rs, b) = (setup.reputation_score_address, setup.borrower);
    setup.desk.reputation_check_callback(rs, b, 750).unwrap();
    assert_eq!(setup.desk.user_reputation_scores.count(&b), 750);
    let unauthorized = addr(20);
    assert_eq!(
        setup.desk.reputation_check_callback(unauthorized, b, 800),
        Err(LoanError::NotReputationContract)
    );
    assert_eq!(setup.desk.user_reputation_scores.count(&b), 750);
}

#[test]
fn test_access_control() {
    let mut setup = setup_contract();
    let (owner, rs, b) = (setup.owner, setup.reputation_score_address, setup.borrower);
    let unauthorized = addr(20);
    assert_eq!(setup.desk.set_min_required_score(unauthorized, 600), Err(LoanError::NotOwner));
    setup.desk.set_min_required_score(owner, 600).unwrap();
    assert_eq!(setup.desk.min_required_score, 600);
    assert_eq!(
        setup.desk.reputation_check_callback(unauthorized, b, 750),
        Err(LoanError::NotReputationContract)
    );
    setup.desk.reputation_check_callback(rs, b, 750).unwrap();
    assert_eq!(setup.desk.user_reputation_scores.count(&b), 750);
}

#[test]
fn test_request_loan_success() {
    let mut setup = setup_contract();
    let (rs, b) = (setup.reputation_score_address, setup.borrower);
    setup.desk.reputation_check_callback(rs, b, 800).unwrap();
    let registry = registry_with_score(addr(50), b, 800);
    request_through_registry(&mut setup.desk, &registry, b, 10_000, 10_000, LoanTerm::Standard).unwrap();
    // A second request only asks the registry; no loan is opened before its answers.
    assert!(setup.desk.request_loan(b, 10_000, LoanTerm::Standard).is_ok());
    assert_eq!(setup.desk.loan_counter, 1);
    let l = *setup.desk.loans.get(&1).unwrap();
    assert_eq!(l.borrower, b);
    assert_eq!(l.amount, 10_000);
    assert_eq!(l.status, LoanStatus::Active);
    assert_eq!(l.interest_rate, 360);
    assert_eq!(l.repayment_amount, 10_360);
    assert_eq!(l.creation_timestamp, 10_000);
    assert_eq!(l.due_timestamp, 10_000 + 30 * DAY);
    let user_loans = setup.desk.get_user_loan_history(b);
    assert_eq!(user_loans.len(), 1);
    assert_eq!(user_loans[0], 1);
}

#[test]
fn test_multiple_loans_for_same_user() {
    let mut setup = setup_contract();
    let b = setup.borrower;
    let registry = registry_with_score(addr(50), b, 800);
    request_through_registry(&mut setup.desk, &registry, b, 10_000, 10_000, LoanTerm::Standard).unwrap();
    assert_eq!(setup.desk.loan_counter, 1);
    request_through_registry(&mut setup.desk, &registry, b, 20_000, 10_000, LoanTerm::Standard).unwrap();
    assert_eq!(setup.desk.loan_counter, 2);
    let user_loans = setup.desk.get_user_loan_history(b);
    assert_eq!(user_loans.len(), 2);
    assert_eq!(user_loans[0], 1);
    assert_eq!(user_loans[1], 2);
}

#[test]
fn test_loan_statistics() {
    let mut setup = setup_contract();
    let b = setup.borrower;
    setup.desk.loan_counter = 3;
    store_loan(&mut setup.desk, 1, loan(b, 5000, 5500, 10000, 20000, LoanStatus::Active));
    store_loan(&mut setup.desk, 2, loan(b, 7000, 7700, 5000, 15000, LoanStatus::Repaid));
    store_loan(&mut setup.desk, 3, loan(b, 3000, 3300, 1000, 11000, LoanStatus::Active));
    let now = 15001;
    assert_eq!(setup.desk.loan_counter, 3);
    assert_eq!(setup.desk.get_active_loans_count(), 2);
    assert_eq!(setup.desk.get_repaid_loans_count(), 1);
    assert_eq!(setup.desk.get_overdue_loans_count(now), 1);
    assert_eq!(setup.desk.get_total_loan_amount(), 15000);
    assert_eq!(setup.desk.get_total_repayment_amount(), 16500);
}

#[test]
fn test_withdraw_funds() {
    let setup = setup_contract();
    let owner = setup.owner;
    let contract_balance: u128 = 10_000;
    assert_eq!(
        setup.desk.withdraw_funds(owner, contract_balance),
        Ok(Transfer { to: owner, token: TokenId::Egld, amount: 10_000 })
    );
    assert_eq!(setup.desk.withdraw_funds(addr(10), contract_balance), Err(LoanError::NotOwner));
}

#[test]
fn test_user_loan_history() {
    let mut setup = setup_contract();
    let b = setup.borrower;
    setup.desk.loan_counter = 3;
    store_loan(&mut setup.desk, 1, loan(b, 5000, 5500, 1000, 11000, LoanStatus::Repaid));
    store_loan(&mut setup.desk, 2, loan(b, 7000, 7700, 5000, 15000, LoanStatus::Repaid));
    store_loan(&mut setup.desk, 3, loan(b, 3000, 3300, 10000, 20000, LoanStatus::Active));
    assert_eq!(setup.desk.get_user_loan_history(b).len(), 3);
    assert_eq!(setup.desk.get_loan_details(1).unwrap().status, LoanStatus::Repaid);
    let active = setup.desk.get_user_active_loans(b);
    assert_eq!(active.len(), 1);
    assert_eq!(active[0], 3);
    let repaid = setup.desk.get_user_repaid_loans(b);
    assert_eq!(repaid.len(), 2);
    assert!(repaid.contains(&1));
    assert!(repaid.contains(&2));
}

#[test]
fn test_owner_only_functions() {
    let mut setup = setup_contract();
    let owner = setup.owner;
    let non_owner = addr(40);
    assert_eq!(setup.desk.set_min_required_score(non_owner, 600), Err(LoanError::NotOwner));
    assert_eq!(setup.desk.min_required_score, 500);
    setup.desk.set_min_required_score(owner, 600).unwrap();
    assert_eq!(setup.desk.min_required_score, 600);
    setup.desk.set_interest_rate_base(1200);
    assert_eq!(setup.desk.interest_rate_base, 1200);
    setup.desk.set_base_loan_amount(owner, 20_000).unwrap();
    assert_eq!(setup.desk.base_loan_amount, 20_000);
    setup.desk.set_late_fee_daily_rate(300).unwrap();
    assert_eq!(setup.desk.late_fee_daily_rate, 300);
    assert_eq!(setup.desk.set_base_loan_amount(non_owner, 1), Err(LoanError::NotOwner));
    assert_eq!(setup.desk.base_loan_amount, 20_000);
}

#[test]
fn test_update_reputation_score_address() {
    let mut setup = setup_contract();
    let owner = setup.owner;
    let new_reputation_address = addr(41);
    setup.desk.set_reputation_score_address(owner, new_reputation_address).unwrap();
    assert_eq!(setup.desk.reputation_score_address, new_reputation_address);
    assert_eq!(setup.desk.set_reputation_score_address(addr(42), addr(43)), Err(LoanError::NotOwner));
    assert_eq!(setup.desk.reputation_score_address, new_reputation_address);
}

#[test]
fn test_calculate_loan_amount() {
    let mut setup = setup_contract();
    setup.desk.base_loan_amount = 10_000;
    assert_eq!(setup.desk.calculate_loan_amount(500), 5_000);
    assert_eq!(setup.desk.calculate_loan_amount(750), 7_500);
    assert_eq!(setup.desk.calculate_loan_amount(1000), 10_000);
    assert_eq!(setup.desk.calculate_loan_amount(1500), 15_000);
}

#[test]
fn test_withdraw_funds_owner_only() {
    let setup = setup_contract();
    let owner = setup.owner;
    assert_eq!(setup.desk.withdraw_funds(owner, 10_000), Ok(Transfer { to: owner, token: TokenId::Egld, amount: 10_000 }));
    assert_eq!(setup.desk.withdraw_funds(addr(10), 10_000), Err(LoanError::NotOwner));
}

#[test]
fn test_pause_unpause_contract() {
    let mut setup = setup_contract();
    let (owner, rs, b) = (setup.owner, setup.reputation_score_address, setup.borrower);
    setup.desk.pause_contract(owner).unwrap();
    assert!(setup.desk.paused);
    assert_eq!(setup.desk.request_loan(b, 10_000, LoanTerm::Standard), Err(LoanError::Paused));
    assert_eq!(setup.desk.pause_contract(b), Err(LoanError::NotOwner));
    setup.desk.unpause_contract(owner).unwrap();
    assert!(!setup.desk.is_paused());
    setup.desk.reputation_check_callback(rs, b, 800).unwrap();
    assert!(setup.desk.request_loan(b, 10_000, LoanTerm::Standard).is_ok());
}

#[test]
fn test_user_loan_lists() {
    let mut setup = setup_contract();
    let b = setup.borrower;
    setup.desk.loan_counter = 3;
    store_loan(&mut setup.desk, 1, loan(b, 5000, 5500, 1000, 11000, LoanStatus::Repaid));
    store_loan(&mut setup.desk, 2, loan(b, 7000, 7700, 5000, 15000, LoanStatus::Repaid));
    store_loan(&mut setup.desk, 3, loan(b, 3000, 3300, 10000, 20000, LoanStatus::Active));
    assert_eq!(setup.desk.get_loan_details(1).unwrap().status, LoanStatus::Repaid);
    assert_eq!(setup.desk.get_loan_details(0), None);
    assert_eq!(setup.desk.get_loan_details(4), None);
    assert_eq!(setup.desk.get_user_loan_history(b).len(), 3);
    assert_eq!(setup.desk.get_user_active_loans(b), vec![3]);
    assert_eq!(setup.desk.get_user_repaid_loans(b), vec![1, 2]);
    assert!(setup.desk.get_user_active_loans(addr(77)).is_empty());
}

#[test]
fn test_requests_keep_ids_contiguous() {
    let mut setup = setup_contract();
    let b = setup.borrower;
    setup.desk.set_max_active_loans(10);
    setup.desk.set_collateral_ratio(7000).unwrap();
    let registry = registry_with_score(addr(50), b, 800);
    setup.desk.request_loan_sync(b, 0, 1000, 30).unwrap();
    setup.desk.request_loan_with_term(b, 0, LoanTerm::Short).unwrap();
    request_through_registry(&mut setup.desk, &registry, b, 0, 5000, LoanTerm::Standard).unwrap();
    setup.desk.provide_collateral_for_new_loan(b, 10_000).unwrap();
    setup.desk.request_loan_with_collateral(b, 0).unwrap();
    assert_eq!(setup.desk.loan_counter, 4);
    for id in 1..=4u64 {
        assert_eq!(setup.desk.get_loan_details(id).unwrap().borrower, b);
    }
    assert_eq!(setup.desk.get_loan_details(5), None);
    assert_eq!(setup.desk.get_user_loan_history(b), vec![1, 2, 3, 4]);
    assert_eq!(setup.desk.get_user_active_loans(b), vec![1, 2, 3, 4]);
    assert_eq!(setup.desk.mark_expired_loans(100 * DAY), Ok(()));
    assert!(setup.desk.get_user_active_loans(b).is_empty());
    assert_eq!(setup.desk.get_overdue_loans_count(100 * DAY), 4);
}

#[test]
fn test_handle_expired_loans() {
    let mut setup = setup_contract();
    let b = setup.borrower;
    setup.desk.loan_counter = 3;
    store_loan(&mut setup.desk, 1, loan(b, 5000, 5500, 1000, 11000, LoanStatus::Active));
    store_loan(&mut setup.desk, 2, loan(b, 7000, 7700, 5000, 25000, LoanStatus::Active));
    store_loan(&mut setup.desk, 3, loan(b, 3000, 3300, 1000, 11000, LoanStatus::Repaid));
    setup.desk.mark_expired_loans(15000).unwrap();
    assert_eq!(setup.desk.loans.get(&1).unwrap().status, LoanStatus::Defaulted);
    assert_eq!(setup.desk.loans.get(&2).unwrap().status, LoanStatus::Active);
    assert_eq!(setup.desk.loans.get(&3).unwrap().status, LoanStatus::Repaid);
}

#[test]
fn test_mark_expired_loans() {
    let mut setup = setup_contract();
    let b = setup.borrower;
    setup.desk.loan_counter = 1;
    setup.desk.loans.insert(1, loan(b, 5000, 5500, 10000, 20000, LoanStatus::Active));
    setup.desk.mark_expired_loans(25000).unwrap();
    assert_eq!(setup.desk.loans.get(&1).unwrap().status, LoanStatus::Defaulted);
}

#[test]
fn test_overdue_count_accumulates() {
    let mut setup = setup_contract();
    let b = setup.borrower;
    setup.desk.loan_counter = 3;
    store_loan(&mut setup.desk, 1, loan(b, 5000, 5500, 1000, 11000, LoanStatus::Active));
    store_loan(&mut setup.desk, 2, loan(b, 7000, 7700, 5000, 25000, LoanStatus::Active));
    store_loan(&mut setup.desk, 3, loan(b, 3000, 3300, 1000, 11000, LoanStatus::Repaid));
    assert_eq!(setup.desk.get_overdue_loans_count(15000), 1);
    assert_eq!(setup.desk.mark_expired_loans(15000), Ok(()));
    assert_eq!(setup.desk.get_overdue_loans_count(15000), 1);
    assert_eq!(setup.desk.overdue_loans_count, 1);
    assert_eq!(setup.desk.mark_expired_loans(15000), Ok(()));
    assert_eq!(setup.desk.overdue_loans_count, 1);
    assert_eq!(setup.desk.mark_expired_loans(25000), Ok(()));
    assert_eq!(setup.desk.loans.get(&2).unwrap().status, LoanStatus::Defaulted);
    assert_eq!(setup.desk.get_overdue_loans_count(25000), 2);
    assert_eq!(setup.desk.overdue_loans_count, 2);
}

fn extension_setup() -> Setup {
    let mut setup = setup_contract();
    let b = setup.borrower;
    setup.desk.loan_counter = 1;
    store_loan(&mut setup.desk, 1, loan(b, 5000, 5500, 10000, 20000, LoanStatus::Active));
    setup.desk.extension_fee_percent = 1000;
    setup
}

#[test]
fn test_extend_loan_deadline() {
    let mut setup = extension_setup();
    let b = setup.borrower;
    assert_eq!(setup.desk.extend_loan_deadline(b, 18000, 550, 1, 15), Ok(()));
    let l = *setup.desk.loans.get(&1).unwrap();
    assert_eq!(l.due_timestamp, 20000 + 15 * DAY);
    assert_eq!(l.repayment_amount, 6050);
}

#[test]
fn test_extend_loan_deadline_incorrect_fee() {
    let mut setup = extension_setup();
    let b = setup.borrower;
    assert_eq!(setup.desk.extend_loan_deadline(b, 18000, 500, 1, 15), Err(LoanError::IncorrectExtensionFee));
    assert_eq!(setup.desk.loans.get(&1).unwrap().due_timestamp, 20000);
}

#[test]
fn test_extend_loan_deadline_not_borrower() {
    let mut setup = extension_setup();
    assert_eq!(setup.desk.extend_loan_deadline(addr(10), 18000, 550, 1, 15), Err(LoanError::NotBorrower));
}

#[test]
fn test_extend_loan_deadline_already_expired() {
    let mut setup = extension_setup();
    let b = setup.borrower;
    assert_eq!(setup.desk.extend_loan_deadline(b, 21000, 550, 1, 15), Err(LoanError::LoanExpired));
    assert_eq!(setup.desk.extend_loan_deadline(b, 20000, 550, 1, 15), Err(LoanError::LoanExpired));
}

#[test]
fn test_collateral_forfeiture() {
    let mut setup = setup_contract();
    let (owner, b) = (setup.owner, setup.borrower);
    setup.desk.loan_counter = 1;
    store_loan(&mut setup.desk, 1, loan(b, 5000, 5500, 10000, 20000, LoanStatus::Active));
    setup.desk.loan_collateral.set_amount(1, 7000);
    setup.desk.mark_loan_defaulted(owner, 1).unwrap();
    assert_eq!(setup.desk.loans.get(&1).unwrap().status, LoanStatus::Defaulted);
    setup.desk.forfeit_collateral(owner, 1).unwrap();
    assert_eq!(setup.desk.loan_collateral.amount(&1), 0);
    assert_eq!(setup.desk.forfeit_collateral(owner, 1), Err(LoanError::NoCollateral));
}

#[test]
fn test_unauthorized_collateral_forfeiture() {
    let mut setup = setup_contract();
    let b = setup.borrower;
    setup.desk.loan_counter = 1;
    setup.desk.loans.insert(1, loan(b, 5000, 5500, 10000, 20000, LoanStatus::Defaulted));
    setup.desk.loan_collateral.set_amount(1, 7000);
    assert_eq!(setup.desk.forfeit_collateral(addr(10), 1), Err(LoanError::NotOwner));
    assert_eq!(setup.desk.loan_collateral.amount(&1), 7000);
}

#[test]
fn test_mark_loan_defaulted_checks() {
    let mut setup = setup_contract();
    let (owner, b) = (setup.owner, setup.borrower);
    store_loan(&mut setup.desk, 1, loan(b, 5000, 5500, 10000, 20000, LoanStatus::Repaid));
    assert_eq!(setup.desk.mark_loan_defaulted(b, 1), Err(LoanError::NotOwner));
    assert_eq!(setup.desk.mark_loan_defaulted(owner, 2), Err(LoanError::LoanNotFound));
    assert_eq!(setup.desk.mark_loan_defaulted(owner, 1), Err(LoanError::LoanNotActive));
}

#[test]
fn test_provide_collateral() {
    let mut setup = setup_contract();
    let b = setup.borrower;
    setup.desk.loan_counter = 1;
    store_loan(&mut setup.desk, 1, loan(b, 5000, 5500, 10000, 20000, LoanStatus::Active));
    setup.desk.provide_collateral(b, 6000, 1).unwrap();
    assert_eq!(setup.desk.loan_collateral.amount(&1), 6000);
    setup.desk.provide_collateral(b, 1000, 1).unwrap();
    assert_eq!(setup.desk.loan_collateral.amount(&1), 7000);
    assert_eq!(setup.desk.provide_collateral(b, 0, 1), Err(LoanError::ZeroPayment));
    assert_eq!(setup.desk.provide_collateral(addr(10), 5, 1), Err(LoanError::NotBorrower));
}

#[test]
fn test_withdraw_collateral_after_repayment() {
    let mut setup = setup_contract();
    let b = setup.borrower;
    setup.desk.loan_counter = 1;
    store_loan(&mut setup.desk, 1, loan(b, 5000, 5500, 10000, 20000, LoanStatus::Active));
    setup.desk.provide_collateral(b, 6000, 1).unwrap();
    setup.desk.repay_loan(b, 0, 5500, 1).unwrap();
    assert_eq!(setup.desk.loans.get(&1).unwrap().status, LoanStatus::Repaid);
    assert_eq!(setup.desk.withdraw_collateral(b, 1), Ok(Transfer { to: b, token: TokenId::Egld, amount: 6000 }));
    assert_eq!(setup.desk.loan_collateral.amount(&1), 0);
    assert_eq!(setup.desk.withdraw_collateral(b, 1), Err(LoanError::NoCollateral));
}

#[test]
fn test_withdraw_collateral_with_active_loan() {
    let mut setup = setup_contract();
    let b = setup.borrower;
    setup.desk.loan_counter = 1;
    store_loan(&mut setup.desk, 1, loan(b, 5000, 5500, 10000, 20000, LoanStatus::Active));
    setup.desk.loan_collateral.set_amount(1, 6000);
    assert_eq!(setup.desk.withdraw_collateral(b, 1), Err(LoanError::LoanNotRepaid));
    assert_eq!(setup.desk.loan_collateral.amount(&1), 6000);
}

#[test]
fn test_loan_term_settings() {
    let mut setup = setup_contract();
    setup.desk.set_standard_loan_term_days(30);
    setup.desk.set_extended_loan_term_days(90);
    setup.desk.set_max_loan_term_days(180);
    assert_eq!(setup.desk.get_standard_loan_term_days(), 30);
    assert_eq!(setup.desk.get_extended_loan_term_days(), 90);
    assert_eq!(setup.desk.get_max_loan_term_days(), 180);
    assert_eq!(setup.desk.calculate_due_date(10000, LoanTerm::Standard), 10000 + 30 * DAY);
    assert_eq!(setup.desk.calculate_due_date(10000, LoanTerm::Extended), 10000 + 90 * DAY);
    assert_eq!(setup.desk.calculate_due_date(10000, LoanTerm::Maximum), 10000 + 180 * DAY);
    assert_eq!(setup.desk.calculate_due_date(10000, LoanTerm::Short), 10000 + 15 * DAY);
}

#[test]
fn test_set_loan_terms() {
    let mut setup = setup_contract();
    let owner = setup.owner;
    assert_eq!(setup.desk.set_loan_terms(addr(10), 30, 90, 15), Err(LoanError::NotOwner));
    assert_eq!(setup.desk.set_loan_terms(owner, 0, 90, 15), Err(LoanError::TermsNotPositive));
    assert_eq!(setup.desk.set_loan_terms(owner, 30, 20, 15), Err(LoanError::TermsOutOfOrder));
    assert_eq!(setup.desk.set_loan_terms(owner, 30, 90, 30), Err(LoanError::TermsOutOfOrder));
    assert_eq!(setup.desk.set_loan_terms(owner, 45, 120, 10), Ok(()));
    assert_eq!((setup.desk.standard_term_days, setup.desk.extended_term_days, setup.desk.short_term_days), (45, 120, 10));
}

#[test]
fn test_interest_accounting() {
    let mut setup = setup_contract();
    let b = setup.borrower;
    setup.desk.loan_counter = 1;
    store_loan(&mut setup.desk, 1, loan(b, 10_000, 11_000, 10000, 20000, LoanStatus::Active));
    assert_eq!(setup.desk.total_interest_earned, 0);
    setup.desk.repay_loan(b, 15000, 11_000, 1).unwrap();
    assert_eq!(setup.desk.total_interest_earned, 1_000);
}

#[test]
fn test_multiple_loans_accounting() {
    let mut setup = setup_contract();
    let b = setup.borrower;
    let b2 = addr(10);
    setup.desk.loan_counter = 2;
    store_loan(&mut setup.desk, 1, loan(b, 10_000, 11_000, 10000, 20000, LoanStatus::Active));
    store_loan(&mut setup.desk, 2, loan(b2, 5_000, 5_500, 11000, 21000, LoanStatus::Active));
    setup.desk.repay_loan(b, 15000, 11_000, 1).unwrap();
    assert_eq!(setup.desk.total_interest_earned, 1_000);
    setup.desk.repay_loan(b2, 16000, 5_500, 2).unwrap();
    assert_eq!(setup.desk.total_interest_earned, 1_500);
    assert_eq!(setup.desk.get_repaid_loans_count(), 2);
}

#[test]
fn test_distribute_profits() {
    let mut setup = setup_contract();
    let (owner, b) = (setup.owner, setup.borrower);
    let investor1 = addr(20);
    let investor2 = addr(21);
    setup.desk.loan_counter = 1;
    store_loan(&mut setup.desk, 1, loan(b, 10_000, 11_000, 10000, 20000, LoanStatus::Active));
    setup.desk.add_investor(investor1, 6000).unwrap();
    setup.desk.add_investor(investor2, 4000).unwrap();
    setup.desk.repay_loan(b, 0, 11_000, 1).unwrap();
    let transfers = setup.desk.distribute_profits(owner).unwrap();
    assert_eq!(
        transfers,
        vec![
            Transfer { to: investor1, token: TokenId::Egld, amount: 600 },
            Transfer { to: investor2, token: TokenId::Egld, amount: 400 },
        ]
    );
    assert_eq!(setup.desk.total_interest_earned, 0);
    assert_eq!(setup.desk.distribute_profits(owner), Err(LoanError::NoProfits));
}

#[test]
fn test_distribute_profits_checks() {
    let mut setup = setup_contract();
    let owner = setup.owner;
    setup.desk.total_interest_earned = 100;
    assert_eq!(setup.desk.distribute_profits(addr(10)), Err(LoanError::NotOwner));
    assert_eq!(setup.desk.distribute_profits(owner), Err(LoanError::NoInvestors));
    assert_eq!(setup.desk.total_interest_earned, 100);
}

#[test]
fn test_distribute_pays_duplicate_listing_once() {
    let mut setup = setup_contract();
    let owner = setup.owner;
    let investor = addr(20);
    setup.desk.add_investor(investor, 50).unwrap();
    setup.desk.add_investor(investor, 50).unwrap();
    assert_eq!(setup.desk.investors.len(), 2);
    setup.desk.total_interest_earned = 1000;
    let transfers = setup.desk.distribute_profits(owner).unwrap();
    assert_eq!(transfers, vec![Transfer { to: investor, token: TokenId::Egld, amount: 1000 }]);
}

#[test]
fn test_investor_address_validation() {
    let mut setup = setup_contract();
    assert_eq!(setup.desk.add_investor(Address::zero(), 5000), Err(LoanError::InvalidInvestorAddress));
    assert_eq!(setup.desk.total_investor_shares, 0);
    assert!(setup.desk.investors.is_empty());
}

#[test]
fn test_investor_shares_validation() {
    let mut setup = setup_contract();
    let investor1 = addr(20);
    let investor2 = addr(21);
    setup.desk.add_investor(investor1, 8000).unwrap();
    assert_eq!(setup.desk.add_investor(investor2, 3000), Err(LoanError::InvestorSharesAboveWhole));
    assert_eq!(setup.desk.total_investor_shares, 8000);
    assert_eq!(setup.desk.get_investor_shares(investor2), 0);
    setup.desk.add_investor(investor2, 2000).unwrap();
    assert_eq!(setup.desk.total_investor_shares, 10000);
}

#[test]
fn test_remove_investor() {
    let mut setup = setup_contract();
    let owner = setup.owner;
    let investor1 = addr(20);
    let investor2 = addr(21);
    setup.desk.add_investor(investor1, 6000).unwrap();
    setup.desk.add_investor(investor2, 4000).unwrap();
    assert_eq!(setup.desk.get_total_investor_shares(), 10000);
    setup.desk.remove_investor(owner, investor1).unwrap();
    assert_eq!(setup.desk.get_investor_shares(investor1), 0);
    assert_eq!(setup.desk.get_total_investor_shares(), 4000);
    assert_eq!(setup.desk.remove_investor(owner, investor1), Err(LoanError::InvestorNotFound));
    assert_eq!(setup.desk.remove_investor(investor2, investor2), Err(LoanError::NotOwner));
    setup.desk.total_interest_earned = 1000;
    let transfers = setup.desk.distribute_profits(owner).unwrap();
    assert_eq!(transfers, vec![Transfer { to: investor2, token: TokenId::Egld, amount: 1000 }]);
}

#[test]
fn test_loan_amount_based_on_collateral() {
    let mut setup = setup_contract();
    let b = setup.borrower;
    setup.desk.set_collateral_ratio(7000).unwrap();
    setup.desk.provide_collateral_for_new_loan(b, 10_000).unwrap();
    assert_eq!(setup.desk.pending_collateral.amount(&b), 10_000);
    assert_eq!(setup.desk.request_loan_with_collateral(b, 10000), Ok(1));
    let l = *setup.desk.loans.get(&1).unwrap();
    assert_eq!(l.amount, 7_000);
    assert_eq!(l.repayment_amount, 7_700);
    assert_eq!(l.due_timestamp, 10000 + 30 * DAY);
    assert_eq!(setup.desk.pending_collateral.amount(&b), 0);
    assert_eq!(setup.desk.loan_collateral.amount(&1), 10_000);
    assert_eq!(setup.desk.loan_counter, 1);
}

#[test]
fn test_loan_with_insufficient_collateral() {
    let mut setup = setup_contract();
    let (owner, b) = (setup.owner, setup.borrower);
    setup.desk.set_min_collateral_amount(owner, 5_000).unwrap();
    setup.desk.provide_collateral_for_new_loan(b, 4_000).unwrap();
    assert_eq!(setup.desk.request_loan_with_collateral(b, 0), Err(LoanError::InsufficientCollateral));
    assert_eq!(setup.desk.pending_collateral.amount(&b), 4_000);
}

#[test]
fn test_collateral_ratio_zero_lends_nothing() {
    let mut setup = setup_contract();
    let b = setup.borrower;
    setup.desk.provide_collateral_for_new_loan(b, 4_000).unwrap();
    assert_eq!(setup.desk.request_loan_with_collateral(b, 0), Err(LoanError::InsufficientCollateral));
    assert_eq!(setup.desk.request_loan_with_collateral(addr(10), 0), Err(LoanError::InsufficientCollateral));
}

#[test]
fn test_cancel_loan_request_and_return_collateral() {
    let mut setup = setup_contract();
    let b = setup.borrower;
    setup.desk.provide_collateral_for_new_loan(b, 10_000).unwrap();
    assert_eq!(setup.desk.pending_collateral.amount(&b), 10_000);
    assert_eq!(setup.desk.cancel_loan_request(b), Ok(Transfer { to: b, token: TokenId::Egld, amount: 10_000 }));
    assert_eq!(setup.desk.pending_collateral.amount(&b), 0);
    assert_eq!(setup.desk.cancel_loan_request(b), Err(LoanError::NoCollateral));
    assert_eq!(setup.desk.provide_collateral_for_new_loan(b, 0), Err(LoanError::ZeroPayment));
}

#[test]
fn test_liquidate_collateral_via_auction() {
    let mut setup = setup_contract();
    let b = setup.borrower;
    let bidder = addr(30);
    setup.desk.loan_counter = 1;
    store_loan(&mut setup.desk, 1, loan(b, 7_000, 7_700, 10000, 20000, LoanStatus::Defaulted));
    setup.desk.loan_collateral.set_amount(1, 10_000);
    assert_eq!(
        setup.desk.liquidate_collateral_via_auction(bidder, TokenId::Egld, 1),
        Ok(Transfer { to: bidder, token: TokenId::Egld, amount: 10_000 })
    );
    assert_eq!(setup.desk.loan_collateral.amount(&1), 0);
    assert_eq!(setup.desk.loans.get(&1).unwrap().status, LoanStatus::Liquidated);
    assert_eq!(setup.desk.liquidate_collateral_via_auction(bidder, TokenId::Egld, 1), Err(LoanError::LoanNotDefaulted));
}

#[test]
fn test_partial_loan_repayment() {
    let mut setup = setup_contract();
    let b = setup.borrower;
    setup.desk.loan_counter = 1;
    store_loan(&mut setup.desk, 1, loan(b, 10_000, 11_000, 10000, 20000, LoanStatus::Active));
    assert_eq!(setup.desk.partial_repay_loan(b, 5_000, 1), Err(LoanError::PartialRepaymentsDisabled));
    setup.desk.allow_partial_repayments = true;
    setup.desk.partial_repay_loan(b, 5_000, 1).unwrap();
    let l = *setup.desk.loans.get(&1).unwrap();
    assert_eq!(l.repayment_amount, 6_000);
    assert_eq!(l.status, LoanStatus::Active);
    assert_eq!(setup.desk.loan_payments.amount(&1), 5_000);
    assert_eq!(setup.desk.partial_repay_loan(b, 6_001, 1), Err(LoanError::PaymentExceedsDebt));
    assert_eq!(setup.desk.partial_repay_loan(b, 0, 1), Err(LoanError::ZeroPayment));
    setup.desk.partial_repay_loan(b, 6_000, 1).unwrap();
    let l = *setup.desk.loans.get(&1).unwrap();
    assert_eq!(l.status, LoanStatus::Repaid);
    assert_eq!(l.repayment_amount, 0);
    assert_eq!(setup.desk.loan_payments.amount(&1), 11_000);
    assert_eq!(setup.desk.get_repaid_loans_count(), 1);
}

#[test]
fn test_liquidation_discount() {
    let mut setup = setup_contract();
    let b = setup.borrower;
    setup.desk.set_liquidation_discount(2000).unwrap();
    setup.desk.loan_counter = 1;
    store_loan(&mut setup.desk, 1, loan(b, 7_000, 7_700, 10000, 20000, LoanStatus::Defaulted));
    setup.desk.loan_collateral.set_amount(1, 10_000);
    assert_eq!(setup.desk.calculate_liquidation_value(1), 8_000);
    assert_eq!(setup.desk.calculate_liquidation_value(2), 0);
    assert_eq!(setup.desk.set_liquidation_discount(10_001), Err(LoanError::RateTooHigh));
}

#[test]
fn test_emergency_funds_recovery() {
    let mut setup = setup_contract();
    let owner = setup.owner;
    assert_eq!(setup.desk.emergency_withdraw(owner, 10_000), Err(LoanError::EmergencyModeInactive));
    setup.desk.emergency_mode = true;
    assert_eq!(setup.desk.emergency_withdraw(owner, 10_000), Ok(Transfer { to: owner, token: TokenId::Egld, amount: 10_000 }));
    assert_eq!(setup.desk.emergency_withdraw(addr(10), 10_000), Err(LoanError::NotOwner));
}

#[test]
fn test_blacklist_functionality() {
    let mut setup = setup_contract();
    let (owner, rs, b) = (setup.owner, setup.reputation_score_address, setup.borrower);
    assert!(!setup.desk.is_blacklisted(b));
    setup.desk.add_to_blacklist(owner, b).unwrap();
    assert!(setup.desk.is_blacklisted(b));
    setup.desk.reputation_check_callback(rs, b, 800).unwrap();
    assert_eq!(setup.desk.request_loan(b, 10_000, LoanTerm::Standard), Err(LoanError::Blacklisted));
    assert_eq!(setup.desk.remove_from_blacklist(b, b), Err(LoanError::NotOwner));
    setup.desk.remove_from_blacklist(owner, b).unwrap();
    assert!(!setup.desk.is_blacklisted(b));
    assert!(setup.desk.request_loan(b, 10_000, LoanTerm::Standard).is_ok());
}

#[test]
fn test_blacklist_blocks_every_request() {
    let mut setup = setup_contract();
    let (owner, b) = (setup.owner, setup.borrower);
    setup.desk.max_active_loans = 5;
    setup.desk.provide_collateral_for_new_loan(b, 10_000).unwrap();
    setup.desk.add_to_blacklist(owner, b).unwrap();
    assert_eq!(setup.desk.request_loan_sync(b, 100, 1000, 30), Err(LoanError::Blacklisted));
    assert_eq!(setup.desk.request_loan_with_term(b, 100, LoanTerm::Standard), Err(LoanError::Blacklisted));
    assert_eq!(setup.desk.request_loan_with_collateral(b, 100), Err(LoanError::Blacklisted));
    assert_eq!(setup.desk.loan_counter, 0);
    setup.desk.remove_from_blacklist(owner, b).unwrap();
    assert_eq!(setup.desk.request_loan_sync(b, 100, 1000, 30), Ok(1));
}

#[test]
fn test_unauthorized_loan_access() {
    let mut setup = setup_contract();
    let b = setup.borrower;
    let attacker = addr(66);
    setup.desk.loan_counter = 1;
    store_loan(&mut setup.desk, 1, loan(b, 5000, 5500, 12345, 23456, LoanStatus::Active));
    assert!(setup.desk.loans.get(&1).unwrap().borrower != attacker);
}

#[test]
fn test_external_data_manipulation() {
    let setup = setup_contract();
    assert_eq!(setup.desk.calculate_interest_rate(1000), setup.desk.interest_rate_base / 5);
    assert_eq!(setup.desk.calculate_interest_rate(0), setup.desk.interest_rate_base);
}

#[test]
fn test_reentrancy_attack() {
    let mut setup = setup_contract();
    let attacker = addr(66);
    setup.desk.loan_counter = 1;
    store_loan(&mut setup.desk, 1, loan(attacker, 5000, 5500, 12345, 23456, LoanStatus::Active));
    let l = *setup.desk.loans.get(&1).unwrap();
    assert_eq!(l.status, LoanStatus::Active);
    assert_eq!(l.repayment_amount, 5500);
    let mut updated = l;
    updated.status = LoanStatus::Repaid;
    setup.desk.loans.insert(1, updated);
    assert_eq!(setup.desk.loans.get(&1).unwrap().status, LoanStatus::Repaid);
    assert_eq!(setup.desk.repay_loan(attacker, 0, 5500, 1), Err(LoanError::LoanNotActive));
}

#[test]
fn test_contract_upgrade_integrity() {
    let mut setup = setup_contract();
    let b = setup.borrower;
    setup.desk.min_required_score = 600;
    setup.desk.interest_rate_base = 1200;
    setup.desk.loan_counter = 1;
    store_loan(&mut setup.desk, 1, loan(b, 5000, 5500, 10000, 20000, LoanStatus::Active));
    assert_eq!(setup.desk.min_required_score, 600);
    assert_eq!(setup.desk.interest_rate_base, 1200);
    assert_eq!(setup.desk.loan_counter, 1);
    let l = *setup.desk.loans.get(&1).unwrap();
    assert_eq!(l.amount, 5000);
    assert_eq!(l.status, LoanStatus::Active);
    assert_eq!(setup.desk.get_user_loan_history(b), vec![1]);
}

#[test]
fn test_input_validation() {
    let mut setup = setup_contract();
    let b = setup.borrower;
    setup.desk.loan_counter = 1;
    store_loan(&mut setup.desk, 1, loan(b, 5000, 5500, 10000, 20000, LoanStatus::Active));
    assert!(!setup.desk.loans.contains(&999));
    assert_eq!(setup.desk.repay_loan(b, 0, 5500, 999), Err(LoanError::LoanNotFound));
}

#[test]
fn test_parameter_change_storage() {
    let mut setup = setup_contract();
    setup.desk.set_operation_timelock(300);
    assert_eq!(setup.desk.get_operation_timelock(), 300);
    let change = ParameterChange { value: 600, timestamp: 10000 };
    setup.desk.pending_parameter_changes_by_key.insert(1, change);
    assert_eq!(setup.desk.pending_parameter_changes_by_key.get(&1), Some(&change));
    setup.desk.pending_parameter_changes.insert(ParamType::MinScore, change);
    assert_eq!(setup.desk.pending_parameter_changes.get(&ParamType::MinScore), Some(&change));
    assert_eq!(setup.desk.pending_parameter_changes.get(&ParamType::MaxScore), None);
}

#[test]
fn test_destruction_flow() {
    let mut setup = setup_contract();
    let owner = setup.owner;
    let attacker = addr(66);
    assert_eq!(setup.desk.initiate_contract_destruction(attacker, 1000), Err(LoanError::NotOwner));
    setup.desk.initiate_contract_destruction(owner, 1000).unwrap();
    assert_eq!(setup.desk.destruction_timelock, 1000 + DAY);
    assert_eq!(setup.desk.execute_contract_destruction(owner, 1000 + DAY - 1, 5), Err(LoanError::TimelockActive));
    assert_eq!(
        setup.desk.execute_contract_destruction(owner, 1000 + DAY, 5),
        Ok(Transfer { to: owner, token: TokenId::Egld, amount: 5 })
    );
    assert_eq!(setup.desk.execute_contract_destruction(attacker, 1000 + DAY, 5), Err(LoanError::NotOwner));
}

#[test]
fn test_destruction_v2_flow() {
    let mut setup = setup_contract();
    let owner = setup.owner;
    let attacker = addr(66);
    assert_eq!(setup.desk.initiate_contract_destruction_v2(attacker), Err(LoanError::NotOwner));
    setup.desk.initiate_contract_destruction_v2(owner).unwrap();
    assert!(setup.desk.destruction_pending_v2);
    assert_eq!(setup.desk.destruction_confirmation_count, 1);
    setup.desk.confirm_contract_destruction_v2(owner).unwrap();
    assert_eq!(setup.desk.destruction_confirmation_count, 2);
    setup.desk.initiate_contract_destruction(owner, 50).unwrap();
    setup.desk.cancel_contract_destruction_v2(owner).unwrap();
    assert!(!setup.desk.destruction_pending_v2);
    assert_eq!(setup.desk.destruction_timelock, 0);
    assert_eq!(setup.desk.destruction_confirmation_count, 0);
}

#[test]
fn test_request_loan_sync() {
    let mut setup = setup_contract();
    let b = setup.borrower;
    assert_eq!(setup.desk.request_loan_sync(b, 12345, 5000, 30), Err(LoanError::ActiveLoanLimitReached));
    setup.desk.set_max_active_loans(2);
    assert_eq!(setup.desk.request_loan_sync(b, 12345, 5000, 30), Ok(1));
    assert_eq!(setup.desk.request_loan_sync(b, 12345, 3000, 10), Ok(2));
    assert_eq!(setup.desk.request_loan_sync(b, 12345, 3000, 10), Err(LoanError::ActiveLoanLimitReached));
    let l = *setup.desk.loans.get(&1).unwrap();
    assert_eq!(l.repayment_amount, 5500);
    assert_eq!(l.interest_rate, 1000);
    assert_eq!(l.due_timestamp, 12345 + 30 * DAY);
    assert_eq!(setup.desk.loan_counter, 2);
    assert_eq!(setup.desk.get_user_loan_history(b), vec![1, 2]);
}

#[test]
fn test_request_loan_with_term() {
    let mut setup = setup_contract();
    let b = setup.borrower;
    assert_eq!(setup.desk.request_loan_with_term(b, 10000, LoanTerm::Extended), Ok(1));
    let l = *setup.desk.loans.get(&1).unwrap();
    assert_eq!(l.due_timestamp, 10000 + 90 * DAY);
    assert_eq!(l.interest_rate, 540);
    assert_eq!(l.amount, 10_000);
    assert_eq!(l.repayment_amount, 10_540);
    assert_eq!(setup.desk.request_loan_with_term(b, 20000, LoanTerm::Maximum), Ok(2));
    assert_eq!(setup.desk.loans.get(&2).unwrap().due_timestamp, 20000 + 180 * DAY);
    assert_eq!(setup.desk.loans.get(&2).unwrap().interest_rate, 720);
    assert_eq!(setup.desk.request_loan_with_term(b, 20000, LoanTerm::Short), Ok(3));
    assert_eq!(setup.desk.loans.get(&3).unwrap().interest_rate, 360);
    assert_eq!(setup.desk.get_user_loan_history(b), vec![1, 2, 3]);
}

#[test]
fn test_mixed_requests_never_overwrite() {
    let mut setup = setup_contract();
    let b = setup.borrower;
    setup.desk.set_max_active_loans(10);
    assert_eq!(setup.desk.request_loan_with_term(b, 0, LoanTerm::Standard), Ok(1));
    assert_eq!(setup.desk.request_loan_sync(b, 0, 777, 1), Ok(2));
    assert_eq!(setup.desk.loans.get(&1).unwrap().amount, 10_000);
    assert_eq!(setup.desk.loans.get(&2).unwrap().amount, 777);
    assert_eq!(setup.desk.get_user_loan_history(b), vec![1, 2]);
}

#[test]
fn test_views_and_limits() {
    let mut setup = setup_contract();
    setup.desk.max_loan_amount = 100_000;
    assert_eq!(setup.desk.calculate_loan_amount_with_limits(500), 10_000);
    assert_eq!(setup.desk.calculate_loan_amount_with_limits(50_000), 10_000);
    assert_eq!(setup.desk.calculate_loan_amount_with_limits(200_000), 10_000);
    assert_eq!(setup.desk.get_loan_term_days(LoanTerm::Short), 15);
    assert_eq!(LoanTerm::Maximum.get_days(), 180);
    assert_eq!(setup.desk.get_interest_rate_for_term(1000, LoanTerm::Extended), 1200);
    assert_eq!(setup.desk.calculate_interest_rate_for_term(1000, LoanTerm::Short), 800);
    assert_eq!(setup.desk.calculate_interest_rate_for_term(1000, LoanTerm::Maximum), 1500);
    assert_eq!(setup.desk.calculate_interest_rate_for_term(1000, LoanTerm::Standard), 1000);
    setup.desk.set_mock_timestamp(777);
    assert_eq!(setup.desk.get_block_timestamp(), 777);
    setup.desk.set_min_interest_rate(200);
    setup.desk.set_max_interest_rate(3000);
    assert_eq!((setup.desk.get_min_interest_rate(), setup.desk.get_max_interest_rate()), (200, 3000));
}

/// An address made of 32 random bytes, read as four big-endian words.
fn random_address(rng: &mut StdRng) -> Address {
    let mut bytes = [0u8; 32];
    rng.fill(&mut bytes);
    let word = |i: usize| u64::from_be_bytes(bytes[i * 8..i * 8 + 8].try_into().unwrap());
    Address { w0: word(0), w1: word(1), w2: word(2), w3: word(3) }
}

#[test]
fn test_interest_rate_calculation_fuzzy() {
    let setup = setup_contract();
    let mut rng = StdRng::seed_from_u64(42);
    for _ in 0..100 {
        let score = rng.gen_range(0..1200u64);
        let expected = if score >= 1000 {
            setup.desk.interest_rate_base / 5
        } else {
            let score_factor = (score * 80) / 1000;
            setup.desk.interest_rate_base * (100 - score_factor) / 100
        };
        assert_eq!(setup.desk.calculate_interest_rate(score), expected);
    }
}

#[test]
fn test_collateral_fuzzy() {
    let mut setup = setup_contract();
    setup.desk.set_collateral_ratio(7000).unwrap();
    setup.desk.set_liquidation_discount(2000).unwrap();
    let mut rng = StdRng::seed_from_u64(42);
    for i in 0..50u64 {
        let collateral_amount = rng.gen_range(5000..100000u64);
        let user = addr(1000 + i);
        setup.desk.provide_collateral_for_new_loan(user, collateral_amount as u128).unwrap();
        let id = setup.desk.request_loan_with_collateral(user, 0).unwrap();
        let max_loan = setup.desk.loans.get(&id).unwrap().amount;
        let liquidation_value = setup.desk.calculate_liquidation_value(id);
        assert!(max_loan < collateral_amount as u128);
        assert!(liquidation_value < collateral_amount as u128);
        assert!(liquidation_value > 0);
        assert_eq!(max_loan, (collateral_amount * 70 / 100) as u128);
        assert_eq!(liquidation_value, (collateral_amount * 80 / 100) as u128);
    }
}

#[test]
fn test_profit_distribution_fuzzy() {
    let mut setup = setup_contract();
    let owner = setup.owner;
    let mut rng = StdRng::seed_from_u64(42);
    let num_investors = rng.gen_range(2..10u32);
    let investors: Vec<Address> = (0..num_investors).map(|_| random_address(&mut rng)).collect();
    let total_shares = 10000u64;
    let mut remaining_shares = total_shares;
    for i in 0..investors.len() {
        let is_last = i == investors.len() - 1;
        let share = if is_last {
            remaining_shares
        } else {
            let max_share = remaining_shares * 80 / 100;
            rng.gen_range(100..max_share.max(101))
        };
        setup.desk.add_investor(investors[i], share).unwrap();
        remaining_shares -= share;
    }
    assert_eq!(setup.desk.get_total_investor_shares(), total_shares);
    for _ in 0..20 {
        let profit = rng.gen_range(1000..50000u64) as u128;
        setup.desk.total_interest_earned = profit;
        let transfers = setup.desk.distribute_profits(owner).unwrap();
        let total_distributed: u128 = transfers.iter().map(|t| t.amount).sum();
        assert!(total_distributed <= profit);
        assert!(profit - total_distributed <= num_investors as u128);
    }
}

#[test]
fn test_term_based_interest_rate_fuzzy() {
    let mut setup = setup_contract();
    setup.desk.set_standard_loan_term_days(30);
    setup.desk.set_extended_loan_term_days(90);
    setup.desk.set_max_loan_term_days(180);
    setup.desk.set_interest_rate_base(1000);
    setup.desk.set_extended_term_rate_multiplier(150);
    setup.desk.set_max_term_rate_multiplier(200);
    let mut rng = StdRng::seed_from_u64(42);
    for _ in 0..50 {
        let score = rng.gen_range(500..1000u64);
        let term_type = rng.gen_range(0..3u32);
        let base_rate = setup.desk.calculate_interest_rate(score);
        let term_rate = match term_type {
            0 => base_rate,
            1 => base_rate * setup.desk.get_extended_term_rate_multiplier() / 100,
            _ => base_rate * setup.desk.get_max_term_rate_multiplier() / 100,
        };
        match term_type {
            0 => assert_eq!(term_rate, base_rate),
            1 => assert_eq!(term_rate, base_rate * 150 / 100),
            _ => assert_eq!(term_rate, base_rate * 200 / 100),
        }
        if term_type > 0 {
            assert!(term_rate > base_rate);
        }
        if term_type == 2 {
            assert!(term_rate > base_rate * setup.desk.get_extended_term_rate_multiplier() / 100);
        }
    }
}

#[test]
fn test_malicious_inputs_fuzzy() {
    let setup = setup_contract();
    let current_timestamp = 12345u64;
    for &test_value in &[0u64, 1, u64::MAX, u64::MAX - 1] {
        let interest_rate = setup.desk.calculate_interest_rate(test_value);
        assert!(interest_rate <= setup.desk.interest_rate_base);
        let due_timestamp = setup.desk.calculate_due_date_safely(current_timestamp, test_value);
        assert!(due_timestamp >= current_timestamp);
        let max_seconds = 3650u64 * 24 * 60 * 60;
        assert!(due_timestamp <= current_timestamp + max_seconds);
    }
}
