//! What holds of the library across its functions.

pub mod basket;
pub mod deposits;
pub mod fees;
pub mod merkle;
pub mod oracle;
pub mod pricing;
pub mod rebalance;
pub mod rewards;
pub mod transaction;
pub mod vault;
pub mod withdrawals;
