//! Rules of the xVault programs: NAV oracle, staking rewards and the index vault.

pub mod laws;
pub mod oracle;
pub mod pubkey;
pub mod rewards;
pub mod vault;

pub use pubkey::Pubkey;
