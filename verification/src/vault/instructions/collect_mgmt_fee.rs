//! Collection of the management fee.

use vstd::prelude::*;

use crate::pubkey::Pubkey;
use crate::vault::errors::VaultError;
use crate::vault::state::{Vault, VaultView, BPS_DENOM, SECS_PER_YEAR};

verus! {

/// Basis points in a whole times seconds in a year: what supply × rate × time is divided by.
pub const MGMT_FEE_DENOM: u128 = 315_360_000_000;

/// The vault's address, the supply of shares, and the time. Anyone may collect.
pub struct CollectMgmtFee {
    pub vault_key: Pubkey,
    pub share_supply: u64,
    pub now: i64,
}

/// The management fee was collected.
#[derive(Clone, Copy, Debug)]
pub struct MgmtFeeCollectedEvent {
    pub vault: Pubkey,
    pub fee_shares: u64,
    pub elapsed_secs: i64,
}

/// Shares that the treasury gets for `elapsed` seconds: supply × fee rate × time, rounded down.
pub open spec fn mgmt_fee_shares(share_supply: int, fee_bps: int, elapsed: int) -> int {
    share_supply * fee_bps * elapsed / (MGMT_FEE_DENOM as int)
}

/// Whether the fee can be computed and held.
pub open spec fn mgmt_fee_fits(share_supply: int, fee_bps: int, elapsed: int) -> bool {
    &&& share_supply * fee_bps * elapsed <= u128::MAX
    &&& mgmt_fee_shares(share_supply, fee_bps, elapsed) <= u64::MAX
}

/// Why the fee is not collected, if it is not.
pub open spec fn collect_error(vault: VaultView, ctx: CollectMgmtFee) -> Option<VaultError> {
    let elapsed = ctx.now - vault.last_fee_collection_ts;
    if vault.pause_flags.halted {
        Some(VaultError::Paused)
    } else if !(i64::MIN <= elapsed <= i64::MAX) {
        Some(VaultError::MathOverflow)
    } else if elapsed <= 0 {
        Some(VaultError::NoFeeAccrued)
    } else if ctx.share_supply > 0 && !mgmt_fee_fits(
        ctx.share_supply as int,
        vault.management_fee_bps as int,
        elapsed,
    ) {
        Some(VaultError::MathOverflow)
    } else {
        None
    }
}

/// Collects the fee for the time since the last collection. The event's `fee_shares` are then
/// minted to the treasury. Where there are no shares only the time is noted, and there is no
/// event. A refused collection changes nothing.
pub fn handler(vault: &mut Vault, ctx: &CollectMgmtFee) -> (res: Result<
    Option<MgmtFeeCollectedEvent>,
    VaultError,
>)
    ensures
        match collect_error(old(vault)@, *ctx) {
            Some(e) => {
                &&& res == Err::<Option<MgmtFeeCollectedEvent>, VaultError>(e)
                &&& final(vault)@ == old(vault)@
            },
            None => {
                let elapsed = ctx.now - old(vault)@.last_fee_collection_ts;
                &&& final(vault)@ == (VaultView { last_fee_collection_ts: ctx.now, ..old(vault)@ })
                &&& res == Ok::<Option<MgmtFeeCollectedEvent>, VaultError>(
                    if ctx.share_supply == 0 {
                        None
                    } else {
                        Some(
                            MgmtFeeCollectedEvent {
                                vault: ctx.vault_key,
                                fee_shares: mgmt_fee_shares(
                                    ctx.share_supply as int,
                                    old(vault)@.management_fee_bps as int,
                                    elapsed,
                                ) as u64,
                                elapsed_secs: elapsed as i64,
                            },
                        )
                    },
                )
            },
        },
        old(vault)@.well_formed() ==> final(vault)@.well_formed(),
{
    if vault.pause_flags.halted {
        return Err(VaultError::Paused);
    }
    let elapsed: i64 = ctx.now.checked_sub(vault.last_fee_collection_ts).ok_or(
        VaultError::MathOverflow,
    )?;
    if elapsed <= 0 {
        return Err(VaultError::NoFeeAccrued);
    }
    if ctx.share_supply == 0 {
        vault.last_fee_collection_ts = ctx.now;
        return Ok(None);
    }
    proof {
        let s = ctx.share_supply as int;
        let f = vault.management_fee_bps as int;
        assert(0 <= s * f <= u64::MAX * u16::MAX) by (nonlinear_arith)
            requires
                0 <= s <= u64::MAX,
                0 <= f <= u16::MAX,
        ;
    }
    let fee_shares: u128 = (ctx.share_supply as u128).checked_mul(
        vault.management_fee_bps as u128,
    ).ok_or(VaultError::MathOverflow)?.checked_mul(elapsed as u128).ok_or(
        VaultError::MathOverflow,
    )?.checked_div(BPS_DENOM * SECS_PER_YEAR).ok_or(VaultError::MathOverflow)?;
    assert(BPS_DENOM * SECS_PER_YEAR == MGMT_FEE_DENOM);
    if fee_shares > u64::MAX as u128 {
        return Err(VaultError::MathOverflow);
    }
    vault.last_fee_collection_ts = ctx.now;
    Ok(
        Some(
            MgmtFeeCollectedEvent {
                vault: ctx.vault_key,
                fee_shares: fee_shares as u64,
                elapsed_secs: elapsed,
            },
        ),
    )
}

} // verus!
