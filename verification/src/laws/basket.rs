//! The basket: its assets and their weights.

use vstd::prelude::*;

use crate::pubkey::Pubkey;
use crate::vault::errors::VaultError;
use crate::vault::instructions::init_vault::{InitVault, InitVaultArgs};
use crate::vault::instructions::update_weights::UpdateWeights;
use crate::vault::state::{Holding, Vault, VaultView};

verus! {

/// An asset is found where the basket first holds it.
pub proof fn law_holding_is_found(holdings: Seq<Holding>, mint: Pubkey, i: int)
    requires
        0 <= i < holdings.len(),
        holdings[i].mint == mint,
        forall|k: int| 0 <= k < i ==> (#[trigger] holdings[k]).mint != mint,
    ensures
        crate::vault::state::holding_index(holdings, mint) == i,
{
    crate::vault::state::lemma_holding_index(holdings, mint);
    let found = crate::vault::state::holding_index(holdings, mint);
    assert(!(found < i)) by {
        if found < i {
            assert(holdings[found].mint == mint);
        }
    }
    assert(!(i < found));
}

/// An asset that the basket does not hold is not found.
pub proof fn law_missing_holding_is_not_found(holdings: Seq<Holding>, mint: Pubkey)
    requires
        forall|k: int| 0 <= k < holdings.len() ==> (#[trigger] holdings[k]).mint != mint,
    ensures
        crate::vault::state::holding_index(holdings, mint) == holdings.len(),
{
    crate::vault::state::lemma_holding_index(holdings, mint);
}

/// Weights add up: no weights sum to nothing, and a further weight adds itself.
pub proof fn law_weights_add_up(weights: Seq<u16>, last: u16)
    ensures
        crate::vault::state::weight_sum(Seq::empty()) == 0,
        crate::vault::state::weight_sum(weights.push(last)) == crate::vault::state::weight_sum(
            weights,
        ) + last,
{
    assert(weights.push(last).drop_last() =~= weights);
}

/// A vault is well-formed exactly where it holds between 1 and 20 assets and their target weights,
/// taken in order, sum to 10_000.
pub proof fn law_vault_is_well_formed(vault: VaultView, weights: Seq<u16>)
    requires
        weights.len() == vault.holdings.len(),
        forall|i: int|
            0 <= i < weights.len() ==> #[trigger] weights[i] == vault.holdings[i].target_weight_bps,
    ensures
        vault.well_formed() <==> 1 <= vault.holdings.len() <= 20
            && crate::vault::state::weight_sum(weights) == 10_000,
{
    assert(crate::vault::state::target_weights(vault.holdings) =~= weights);
}

/// The view of a vault carries every field.
pub proof fn law_vault_view_carries_every_field(vault: Vault)
    ensures
        vault@.admin == vault.admin,
        vault@.keeper == vault.keeper,
        vault@.nav_snapshot == vault.nav_snapshot,
        vault@.share_mint == vault.share_mint,
        vault@.treasury == vault.treasury,
        vault@.sku == vault.sku,
        vault@.holdings == vault.holdings@,
        vault@.cash_raw == vault.cash_raw,
        vault@.management_fee_bps == vault.management_fee_bps,
        vault@.performance_fee_bps == vault.performance_fee_bps,
        vault@.rebalance_slippage_bps == vault.rebalance_slippage_bps,
        vault@.last_fee_collection_ts == vault.last_fee_collection_ts,
        vault@.hwm_nav_per_share_1e8 == vault.hwm_nav_per_share_1e8,
        vault@.accrued_protocol_fees_raw == vault.accrued_protocol_fees_raw,
        vault@.pause_flags == vault.pause_flags,
        vault@.bump == vault.bump,
        vault@.share_mint_bump == vault.share_mint_bump,
        vault@._padding == vault._padding,
{
}

/// Which baskets a vault can be created with, and why not with others.
pub proof fn law_vault_is_created(args: InitVaultArgs)
    ensures
        ({
            let error = crate::vault::instructions::init_vault::init_error(args);
            let sized = 1 <= args.mints@.len() <= 20;
            let even = args.weights_bps@.len() == args.mints@.len() && args.decimals@.len()
                == args.mints@.len();
            let whole = crate::vault::state::weight_sum(args.weights_bps@) == 10_000;
            &&& error is None <==> sized && even && whole
            &&& error == Some(VaultError::BasketSizeInvalid) <==> !sized
            &&& error == Some(VaultError::WeightsLengthMismatch) <==> sized && !even
            &&& error == Some(VaultError::WeightsSumInvalid) <==> sized && even && !whole
        }),
{
}

/// A new vault is what its admin chose: at each index the asset, weight and decimals that were
/// given there, and nothing held, earned, owed or paused yet.
pub proof fn law_new_vault_is_as_chosen(ctx: InitVault, args: InitVaultArgs, i: int)
    ensures
        ({
            let vault = crate::vault::instructions::init_vault::fresh_vault(ctx, args);
            &&& vault.admin == ctx.admin
            &&& vault.share_mint == ctx.share_mint
            &&& vault.bump == ctx.bump
            &&& vault.share_mint_bump == ctx.share_mint_bump
            &&& vault.last_fee_collection_ts == ctx.now
            &&& vault.sku == args.sku
            &&& vault.keeper == args.keeper
            &&& vault.nav_snapshot == args.nav_snapshot
            &&& vault.treasury == args.treasury
            &&& vault.management_fee_bps == args.management_fee_bps
            &&& vault.performance_fee_bps == args.performance_fee_bps
            &&& vault.rebalance_slippage_bps == args.rebalance_slippage_bps
            &&& vault.cash_raw == 0
            &&& vault.hwm_nav_per_share_1e8 == 0
            &&& vault.accrued_protocol_fees_raw == 0
            &&& !vault.pause_flags.halted
            &&& vault.pause_flags.granular == 0
            &&& vault._padding@ == seq![0u8, 0u8]
            &&& vault.holdings.len() == args.mints@.len()
            &&& 0 <= i < args.mints@.len() ==> {
                &&& vault.holdings[i].mint == args.mints@[i]
                &&& vault.holdings[i].target_weight_bps == args.weights_bps@[i]
                &&& vault.holdings[i].decimals == args.decimals@[i]
                &&& vault.holdings[i].raw_balance == 0
                &&& vault.holdings[i]._padding@ == seq![0u8, 0u8, 0u8, 0u8, 0u8]
            }
        }),
{
    let padding = [0u8, 0u8];
    assert(padding@ =~= seq![0u8, 0u8]);
    let long = [0u8, 0u8, 0u8, 0u8, 0u8];
    assert(long@ =~= seq![0u8, 0u8, 0u8, 0u8, 0u8]);
}

/// Which weights are taken over, and why others are not.
pub proof fn law_weights_are_taken_over(
    vault: VaultView,
    ctx: UpdateWeights,
    weights: Seq<u16>,
)
    ensures
        ({
            let error = crate::vault::instructions::update_weights::update_error(
                vault,
                ctx,
                weights,
            );
            let admin = ctx.admin == vault.admin;
            let even = weights.len() == vault.holdings.len();
            let whole = crate::vault::state::weight_sum(weights) == 10_000;
            &&& error is None <==> admin && even && whole
            &&& error == Some(VaultError::Unauthorized) <==> !admin
            &&& error == Some(VaultError::WeightsLengthMismatch) <==> admin && !even
            &&& error == Some(VaultError::WeightsSumInvalid) <==> admin && even && !whole
        }),
{
}

/// New weights change the target weight at every index, and nothing else of any holding.
pub proof fn law_every_weight_is_set(holdings: Seq<Holding>, weights: Seq<u16>, i: int)
    requires
        0 <= i < holdings.len(),
    ensures
        ({
            let after = crate::vault::instructions::update_weights::reweighted(holdings, weights);
            &&& after.len() == holdings.len()
            &&& after[i].target_weight_bps == weights[i]
            &&& after[i].mint == holdings[i].mint
            &&& after[i].raw_balance == holdings[i].raw_balance
            &&& after[i].decimals == holdings[i].decimals
            &&& after[i]._padding == holdings[i]._padding
        }),
{
}

} // verus!
