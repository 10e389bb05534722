//! Change of the target weights.

use vstd::prelude::*;

use crate::pubkey::Pubkey;
use crate::vault::errors::VaultError;
use crate::vault::state::{Holding, Vault, VaultView, BPS_DENOMINATOR};

verus! {

/// Who changes the weights.
pub struct UpdateWeights {
    pub admin: Pubkey,
}

/// Whether `weights` sum to 10_000 bps.
pub fn sums_to_whole(weights: &Vec<u16>) -> (whole: bool)
    ensures
        whole == (crate::vault::state::weight_sum(weights@) == BPS_DENOMINATOR),
{
    let mut sum: u32 = 0;
    let mut i: usize = 0;
    while i < weights.len()
        invariant
            i <= weights.len(),
            sum == crate::vault::state::weight_sum(weights@.take(i as int)),
            sum <= BPS_DENOMINATOR,
        decreases weights.len() - i,
    {
        proof {
            assert(weights@.take(i + 1).drop_last() =~= weights@.take(i as int));
            lemma_weight_sum_grows(weights@, i + 1);
        }
        sum = sum + weights[i] as u32;
        if sum > BPS_DENOMINATOR as u32 {
            return false;
        }
        i = i + 1;
    }
    assert(weights@.take(i as int) =~= weights@);
    sum == BPS_DENOMINATOR as u32
}

/// Why `weights` are refused, if they are.
pub open spec fn update_error(
    vault: VaultView,
    ctx: UpdateWeights,
    weights: Seq<u16>,
) -> Option<VaultError> {
    if vault.admin != ctx.admin {
        Some(VaultError::Unauthorized)
    } else if weights.len() != vault.holdings.len() {
        Some(VaultError::WeightsLengthMismatch)
    } else if crate::vault::state::weight_sum(weights) != BPS_DENOMINATOR {
        Some(VaultError::WeightsSumInvalid)
    } else {
        None
    }
}

/// `holdings` with the target weights `weights`.
pub open spec fn reweighted(holdings: Seq<Holding>, weights: Seq<u16>) -> Seq<Holding> {
    Seq::new(
        holdings.len(),
        |i: int| Holding { target_weight_bps: weights[i], ..holdings[i] },
    )
}

/// Sets the target weight of every holding. Only the vault's admin may, with one weight per
/// holding, and the weights must sum to 10_000 bps.
pub fn handler(vault: &mut Vault, ctx: &UpdateWeights, weights_bps: &Vec<u16>) -> (res: Result<
    (),
    VaultError,
>)
    ensures
        match update_error(old(vault)@, *ctx, weights_bps@) {
            Some(e) => res == Err::<(), VaultError>(e) && final(vault)@ == old(vault)@,
            None => res == Ok::<(), VaultError>(()) && final(vault)@ == (VaultView {
                holdings: reweighted(old(vault)@.holdings, weights_bps@),
                ..old(vault)@
            }),
        },
        old(vault)@.well_formed() ==> final(vault)@.well_formed(),
{
    if vault.admin != ctx.admin {
        return Err(VaultError::Unauthorized);
    }
    if weights_bps.len() != vault.holdings.len() {
        return Err(VaultError::WeightsLengthMismatch);
    }
    if !sums_to_whole(weights_bps) {
        return Err(VaultError::WeightsSumInvalid);
    }
    let ghost before = vault@;
    let mut i: usize = 0;
    while i < vault.holdings.len()
        invariant
            i <= vault.holdings@.len(),
            before.holdings.len() == vault.holdings@.len() == weights_bps@.len(),
            vault@ == (VaultView { holdings: vault.holdings@, ..before }),
            forall|j: int|
                0 <= j < i ==> vault.holdings@[j] == (Holding {
                    target_weight_bps: weights_bps@[j],
                    ..before.holdings[j]
                }),
            forall|j: int| i <= j < vault.holdings@.len() ==> vault.holdings@[j] == before.holdings[j],
        decreases vault.holdings.len() - i,
    {
        vault.holdings[i].target_weight_bps = weights_bps[i];
        i = i + 1;
    }
    proof {
        assert(vault.holdings@ =~= reweighted(before.holdings, weights_bps@));
        assert(crate::vault::state::target_weights(vault.holdings@) =~= weights_bps@);
    }
    Ok(())
}

/// The first `n` weights sum to no more than all of them.
proof fn lemma_weight_sum_grows(weights: Seq<u16>, n: int)
    requires
        0 <= n <= weights.len(),
    ensures
        0 <= crate::vault::state::weight_sum(weights.take(n)) <= crate::vault::state::weight_sum(
            weights,
        ),
    decreases weights.len(),
{
    if n == weights.len() {
        assert(weights.take(n) =~= weights);
        if n > 0 {
            lemma_weight_sum_grows(weights.drop_last(), n - 1);
            assert(weights.drop_last().take(n - 1) =~= weights.drop_last());
        }
    } else {
        lemma_weight_sum_grows(weights.drop_last(), n);
        assert(weights.drop_last().take(n) =~= weights.take(n));
    }
}

} // verus!
