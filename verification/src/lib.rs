//! A collateralized lending ledger: pool accounting, per-user collateral and
//! debt, loans with linear interest, borrowing limits and liquidation.
//!
//! Every operation is a transition on plain records. The caller supplies the
//! records an operation touches, the current time and the amounts; moving
//! value and storing the records is the caller's part.
//!
//! An operation comes with the records it works on, a struct of its own, and
//! with up to three descriptions of what it does to them: `refusal` says why
//! it is refused, if it is; `fits` says that what it books fits the widths of
//! the fields; and a third, named after the operation, gives the records as
//! they are afterwards. An operation that is refused changes nothing. One
//! that does not fit must not be called: `check_fits` tells beforehand.

pub mod constants;
pub mod error;
pub mod identity;
pub mod loan;
pub mod math;
pub mod ops;
pub mod pool;
pub mod user;

pub use constants::{
    BASIS_POINTS, LIQUIDATION_BONUS, MAX_COLLATERAL_RATIO, MAX_LTV, MIN_COLLATERAL_RATIO, MIN_LTV,
};
pub use error::ArciLendError;
pub use identity::Identity;
pub use loan::Loan;
pub use ops::accure_interest::{accure_interest, AccrueInterest};
pub use ops::borrow::{borrow, Borrow};
pub use ops::deposit_collateral::{deposit_collateral, DepositCollateral};
pub use ops::initialize_pool::{initialize_pool, InitializePool};
pub use ops::liquidate::{liquidate, Liquidate, Settlement};
pub use ops::repay::{repay, Repay};
pub use ops::request_credit_score::{request_credit_score, CreditScoreRequested, RequestCreditScore};
pub use ops::update_credit_score::{update_credit_score, UpdateCreditScore};
pub use ops::withdraw_collateral::{withdraw_collateral, WithdrawCollateral};
pub use pool::LendingPool;
pub use user::UserAccount;
