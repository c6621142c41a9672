//! Verified logic of a reputation-based credit platform: a social reputation
//! registry, a fee-charging liquidity-provider token and a loan desk that lends
//! against reputation and, optionally, collateral.

pub mod address;
pub mod storage;
pub mod math;
pub mod reputation_score;
pub mod lp_token;
pub mod loan_controller;
pub mod loan_requests;
pub mod loan_repayment;
pub mod loan_collateral;
pub mod loan_investors;
pub mod loan_admin;
pub mod loan_views;
pub mod basic_reputation_score;
pub mod basic_loan_controller;
