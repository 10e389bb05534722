//! Pausing.

use vstd::prelude::*;

use crate::pubkey::Pubkey;
use crate::vault::errors::VaultError;
use crate::vault::state::{PauseFlags, Vault, VaultView};

verus! {

/// Who pauses or resumes.
pub struct SetPaused {
    pub admin: Pubkey,
}

/// Emergency circuit breaker: `paused` halts deposits, rebalances and fee collection, `!paused`
/// ends the halt. The finer-grained flags stay as they are. Only the vault's admin may.
pub fn handler(vault: &mut Vault, ctx: &SetPaused, paused: bool) -> (res: Result<(), VaultError>)
    ensures
        old(vault)@.admin != ctx.admin ==> {
            &&& res == Err::<(), VaultError>(VaultError::Unauthorized)
            &&& final(vault)@ == old(vault)@
        },
        old(vault)@.admin == ctx.admin ==> {
            &&& res == Ok::<(), VaultError>(())
            &&& final(vault)@ == (VaultView {
                pause_flags: PauseFlags { halted: paused, ..old(vault)@.pause_flags },
                ..old(vault)@
            })
        },
        old(vault)@.well_formed() ==> final(vault)@.well_formed(),
{
    if vault.admin != ctx.admin {
        return Err(VaultError::Unauthorized);
    }
    vault.pause_flags.halted = paused;
    Ok(())
}

/// Overwrites all pause flags. Only the vault's admin may.
pub fn set_pause_flags_handler(vault: &mut Vault, ctx: &SetPaused, flags: PauseFlags) -> (res:
    Result<(), VaultError>)
    ensures
        old(vault)@.admin != ctx.admin ==> {
            &&& res == Err::<(), VaultError>(VaultError::Unauthorized)
            &&& final(vault)@ == old(vault)@
        },
        old(vault)@.admin == ctx.admin ==> {
            &&& res == Ok::<(), VaultError>(())
            &&& final(vault)@ == (VaultView { pause_flags: flags, ..old(vault)@ })
        },
        old(vault)@.well_formed() ==> final(vault)@.well_formed(),
{
    if vault.admin != ctx.admin {
        return Err(VaultError::Unauthorized);
    }
    vault.pause_flags = flags;
    Ok(())
}

} // verus!
