//! What the vault program does on each request.

pub mod collect_mgmt_fee;
pub mod collect_perf_fee;
pub mod deposit;
pub mod init_share_mint;
pub mod init_vault;
pub mod rebalance_leg;
pub mod set_paused;
pub mod update_weights;
pub mod withdraw_in_kind;
pub mod withdraw_usdc;
