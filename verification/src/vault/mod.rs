//! The index vault: a basket of Token-2022 assets and a USDC buffer, owned through shares.
//!
//! All balances and amounts are raw token amounts. What a holder sees is the raw amount times
//! the mint's multiplier, so a raw amount is scaled by the multiplier before it is priced.

pub mod accounts;
pub mod errors;
pub mod instructions;
pub mod introspection;
pub mod nav;
pub mod state;

pub use accounts::{RawAccount, TokenAccount};
pub use errors::{InstructionError, VaultError};
pub use state::{Holding, PauseFlags, Vault};
