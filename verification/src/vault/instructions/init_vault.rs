//! Creation of a vault.

use vstd::prelude::*;

use crate::pubkey::Pubkey;
use crate::vault::errors::VaultError;
use crate::vault::instructions::update_weights::sums_to_whole;
use crate::vault::state::{Holding, PauseFlags, Vault, VaultView, BPS_DENOMINATOR, MAX_ASSETS};

verus! {

/// What the admin chooses for a vault.
#[derive(Clone, Debug)]
pub struct InitVaultArgs {
    pub sku: [u8; 16],
    pub mints: Vec<Pubkey>,
    pub weights_bps: Vec<u16>,
    pub decimals: Vec<u8>,
    pub management_fee_bps: u16,
    pub performance_fee_bps: u16,
    pub rebalance_slippage_bps: u16,
    pub keeper: Pubkey,
    pub nav_snapshot: Pubkey,
    pub treasury: Pubkey,
}

/// Who creates the vault, the address of its share mint, the bumps of both addresses, and the time.
pub struct InitVault {
    pub admin: Pubkey,
    pub share_mint: Pubkey,
    pub bump: u8,
    pub share_mint_bump: u8,
    pub now: i64,
}

/// Why a vault is not created, if it is not.
pub open spec fn init_error(args: InitVaultArgs) -> Option<VaultError> {
    if !(1 <= args.mints@.len() <= MAX_ASSETS) {
        Some(VaultError::BasketSizeInvalid)
    } else if args.weights_bps@.len() != args.mints@.len() || args.decimals@.len()
        != args.mints@.len() {
        Some(VaultError::WeightsLengthMismatch)
    } else if crate::vault::state::weight_sum(args.weights_bps@) != BPS_DENOMINATOR {
        Some(VaultError::WeightsSumInvalid)
    } else {
        None
    }
}

/// The `i`-th holding of a fresh vault.
pub open spec fn fresh_holding(args: InitVaultArgs, i: int) -> Holding {
    Holding {
        mint: args.mints@[i],
        target_weight_bps: args.weights_bps@[i],
        raw_balance: 0,
        decimals: args.decimals@[i],
        _padding: [0u8, 0u8, 0u8, 0u8, 0u8],
    }
}

/// A vault with an empty basket, no cash and nothing paused.
pub open spec fn fresh_vault(ctx: InitVault, args: InitVaultArgs) -> VaultView {
    VaultView {
        admin: ctx.admin,
        keeper: args.keeper,
        nav_snapshot: args.nav_snapshot,
        share_mint: ctx.share_mint,
        treasury: args.treasury,
        sku: args.sku,
        holdings: Seq::new(args.mints@.len(), |i: int| fresh_holding(args, i)),
        cash_raw: 0,
        management_fee_bps: args.management_fee_bps,
        performance_fee_bps: args.performance_fee_bps,
        rebalance_slippage_bps: args.rebalance_slippage_bps,
        last_fee_collection_ts: ctx.now,
        hwm_nav_per_share_1e8: 0,
        accrued_protocol_fees_raw: 0,
        pause_flags: PauseFlags { halted: false, granular: 0 },
        bump: ctx.bump,
        share_mint_bump: ctx.share_mint_bump,
        _padding: [0u8, 0u8],
    }
}

/// Creates a vault with the chosen basket. There are between 1 and 20 assets, each with a weight
/// and its decimals, and the weights sum to 10_000 bps.
pub fn handler(ctx: &InitVault, args: &InitVaultArgs) -> (res: Result<Vault, VaultError>)
    ensures
        match init_error(*args) {
            Some(e) => res == Err::<Vault, VaultError>(e),
            None => res matches Ok(vault) && {
                &&& vault@ == fresh_vault(*ctx, *args)
                &&& vault@.well_formed()
            },
        },
{
    if args.mints.len() == 0 || args.mints.len() > MAX_ASSETS {
        return Err(VaultError::BasketSizeInvalid);
    }
    if args.mints.len() != args.weights_bps.len() || args.mints.len() != args.decimals.len() {
        return Err(VaultError::WeightsLengthMismatch);
    }
    if !sums_to_whole(&args.weights_bps) {
        return Err(VaultError::WeightsSumInvalid);
    }
    let mut holdings: Vec<Holding> = Vec::new();
    let mut i: usize = 0;
    while i < args.mints.len()
        invariant
            i <= args.mints@.len(),
            args.mints@.len() == args.weights_bps@.len() == args.decimals@.len(),
            holdings@.len() == i,
            forall|j: int| 0 <= j < i ==> holdings@[j] == fresh_holding(*args, j),
        decreases args.mints.len() - i,
    {
        holdings.push(
            Holding {
                mint: args.mints[i],
                target_weight_bps: args.weights_bps[i],
                raw_balance: 0,
                decimals: args.decimals[i],
                _padding: [0u8, 0u8, 0u8, 0u8, 0u8],
            },
        );
        i = i + 1;
    }
    let vault = Vault {
        admin: ctx.admin,
        keeper: args.keeper,
        nav_snapshot: args.nav_snapshot,
        share_mint: ctx.share_mint,
        treasury: args.treasury,
        sku: args.sku,
        holdings,
        cash_raw: 0,
        management_fee_bps: args.management_fee_bps,
        performance_fee_bps: args.performance_fee_bps,
        rebalance_slippage_bps: args.rebalance_slippage_bps,
        last_fee_collection_ts: ctx.now,
        hwm_nav_per_share_1e8: 0,
        accrued_protocol_fees_raw: 0,
        pause_flags: PauseFlags::default(),
        bump: ctx.bump,
        share_mint_bump: ctx.share_mint_bump,
        _padding: [0u8, 0u8],
    };
    proof {
        assert(vault@.holdings =~= fresh_vault(*ctx, *args).holdings);
        assert(crate::vault::state::target_weights(vault@.holdings) =~= args.weights_bps@);
    }
    Ok(vault)
}

} // verus!
