//! Creation of the share mint.

use vstd::prelude::*;

use crate::pubkey::Pubkey;
use crate::vault::errors::VaultError;
use crate::vault::state::Vault;

verus! {

/// Who creates the share mint, the vault's address, and the address of the mint that was created.
pub struct InitShareMint {
    pub admin: Pubkey,
    pub vault_key: Pubkey,
    pub share_mint: Pubkey,
}

/// The share mint was created.
#[derive(Clone, Copy, Debug)]
pub struct ShareMintInitializedEvent {
    pub vault: Pubkey,
    pub share_mint: Pubkey,
}

/// Accepts the share mint if it is the one that the vault recorded. Only the vault's admin may
/// create it.
pub fn handler(vault: &Vault, ctx: &InitShareMint) -> (res: Result<
    ShareMintInitializedEvent,
    VaultError,
>)
    ensures
        res == if vault@.admin != ctx.admin {
            Err::<ShareMintInitializedEvent, VaultError>(VaultError::Unauthorized)
        } else if ctx.share_mint != vault@.share_mint {
            Err(VaultError::ShareMintAlreadyInitialized)
        } else {
            Ok(ShareMintInitializedEvent { vault: ctx.vault_key, share_mint: ctx.share_mint })
        },
{
    if vault.admin != ctx.admin {
        return Err(VaultError::Unauthorized);
    }
    if ctx.share_mint != vault.share_mint {
        return Err(VaultError::ShareMintAlreadyInitialized);
    }
    Ok(ShareMintInitializedEvent { vault: ctx.vault_key, share_mint: ctx.share_mint })
}

} // verus!
