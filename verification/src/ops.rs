//! The operations of the ledger, each with the records it works on.

pub mod accure_interest;
pub mod borrow;
pub mod deposit_collateral;
pub mod initialize_pool;
pub mod liquidate;
pub mod repay;
pub mod request_credit_score;
pub mod update_credit_score;
pub mod withdraw_collateral;
