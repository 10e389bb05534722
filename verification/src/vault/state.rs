//! The vault account.

use vstd::prelude::*;

use crate::pubkey::Pubkey;

verus! {

/// Most assets in a basket.
pub const MAX_ASSETS: usize = 20;

/// Basis points in a whole.
pub const BPS_DENOMINATOR: u16 = 10_000;

/// Seconds in a year of 365 days.
pub const SECS_PER_YEAR: u128 = 365 * 24 * 3600;

/// Protocol fee on USDC withdrawals: 0.05%.
pub const WITHDRAW_FEE_BPS: u128 = 5;

/// Basis points in a whole.
pub const BPS_DENOM: u128 = 10_000;

/// One asset of the basket.
#[derive(Clone, Copy, Debug, PartialEq, Eq)]
pub struct Holding {
    /// Mint of the asset.
    pub mint: Pubkey,
    /// Target weight in bps. The weights of a basket sum to 10_000.
    pub target_weight_bps: u16,
    /// Raw balance, updated on every withdrawal in kind and every rebalance.
    pub raw_balance: u64,
    /// Decimals of the mint.
    pub decimals: u8,
    pub _padding: [u8; 5],
}

impl Holding {
    /// Bytes that one holding takes in an account.
    pub const SIZE: usize = 32 + 2 + 8 + 1 + 5;
}

/// What is paused.
#[derive(Clone, Copy, Debug, PartialEq, Eq, Structural)]
pub struct PauseFlags {
    /// Blocks deposits, rebalances and fee collection. Withdrawals stay open.
    pub halted: bool,
    /// Finer-grained flags, kept as the admin wrote them.
    pub granular: u8,
}

impl Default for PauseFlags {
    /// Nothing is paused.
    fn default() -> (flags: PauseFlags)
        ensures
            flags == (PauseFlags { halted: false, granular: 0 }),
    {
        PauseFlags { halted: false, granular: 0 }
    }
}

/// A vault.
#[derive(Debug)]
pub struct Vault {
    /// Who may update the weights and pause.
    pub admin: Pubkey,
    /// Who may rebalance.
    pub keeper: Pubkey,
    /// The NAV snapshot that prices the basket.
    pub nav_snapshot: Pubkey,
    /// Mint of the shares.
    pub share_mint: Pubkey,
    /// Who receives fee shares.
    pub treasury: Pubkey,
    /// Human-readable name, which the vault's address is derived from.
    pub sku: [u8; 16],
    /// The basket.
    pub holdings: Vec<Holding>,
    /// USDC buffer (raw, 6 decimals).
    pub cash_raw: u64,
    /// Management fee, bps per year.
    pub management_fee_bps: u16,
    /// Performance fee, bps of the gain over the high-water mark.
    pub performance_fee_bps: u16,
    /// NAV drift allowed for one leg of a rebalance, bps: what is bought is worth at least what is
    /// sold less this part of it.
    pub rebalance_slippage_bps: u16,
    /// When the management fee was last collected.
    pub last_fee_collection_ts: i64,
    /// Highest NAV per share, × 1e8, that a performance fee was taken at; zero before the first
    /// collection.
    pub hwm_nav_per_share_1e8: u128,
    /// USDC fees (raw, 6 decimals) kept from withdrawals.
    pub accrued_protocol_fees_raw: u64,
    pub pause_flags: PauseFlags,
    /// Bump of the vault's address.
    pub bump: u8,
    /// Bump of the share mint's address.
    pub share_mint_bump: u8,
    pub _padding: [u8; 2],
}

/// What a [`Vault`] holds, with a sequence for its basket.
#[verifier::ext_equal]
pub struct VaultView {
    pub admin: Pubkey,
    pub keeper: Pubkey,
    pub nav_snapshot: Pubkey,
    pub share_mint: Pubkey,
    pub treasury: Pubkey,
    pub sku: [u8; 16],
    pub holdings: Seq<Holding>,
    pub cash_raw: u64,
    pub management_fee_bps: u16,
    pub performance_fee_bps: u16,
    pub rebalance_slippage_bps: u16,
    pub last_fee_collection_ts: i64,
    pub hwm_nav_per_share_1e8: u128,
    pub accrued_protocol_fees_raw: u64,
    pub pause_flags: PauseFlags,
    pub bump: u8,
    pub share_mint_bump: u8,
    pub _padding: [u8; 2],
}

impl View for Vault {
    type V = VaultView;

    open spec fn view(&self) -> VaultView {
        VaultView {
            admin: self.admin,
            keeper: self.keeper,
            nav_snapshot: self.nav_snapshot,
            share_mint: self.share_mint,
            treasury: self.treasury,
            sku: self.sku,
            holdings: self.holdings@,
            cash_raw: self.cash_raw,
            management_fee_bps: self.management_fee_bps,
            performance_fee_bps: self.performance_fee_bps,
            rebalance_slippage_bps: self.rebalance_slippage_bps,
            last_fee_collection_ts: self.last_fee_collection_ts,
            hwm_nav_per_share_1e8: self.hwm_nav_per_share_1e8,
            accrued_protocol_fees_raw: self.accrued_protocol_fees_raw,
            pause_flags: self.pause_flags,
            bump: self.bump,
            share_mint_bump: self.share_mint_bump,
            _padding: self._padding,
        }
    }
}

/// Sum of `weights`.
pub open spec fn weight_sum(weights: Seq<u16>) -> int
    decreases weights.len(),
{
    if weights.len() == 0 {
        0
    } else {
        weight_sum(weights.drop_last()) + weights.last()
    }
}

/// The target weights of `holdings`, in order.
pub open spec fn target_weights(holdings: Seq<Holding>) -> Seq<u16> {
    Seq::new(holdings.len(), |i: int| holdings[i].target_weight_bps)
}

/// Index of the first holding of `mint`, or the number of holdings where there is none.
pub open spec fn holding_index(holdings: Seq<Holding>, mint: Pubkey) -> int
    decreases holdings.len(),
{
    if holdings.len() == 0 || holdings[0].mint == mint {
        0
    } else {
        1 + holding_index(holdings.skip(1), mint)
    }
}

/// `holdings` with the raw balance of the first holding of `mint` set to `raw_balance`.
pub open spec fn with_balance(holdings: Seq<Holding>, mint: Pubkey, raw_balance: u64) -> Seq<
    Holding,
> {
    let i = holding_index(holdings, mint);
    holdings.update(i, Holding { raw_balance, ..holdings[i] })
}

impl VaultView {
    /// The basket holds between 1 and `MAX_ASSETS` assets, whose weights sum to 10_000 bps.
    pub open spec fn well_formed(self) -> bool {
        &&& 1 <= self.holdings.len() <= MAX_ASSETS
        &&& weight_sum(target_weights(self.holdings)) == BPS_DENOMINATOR
    }
}

impl Vault {
    /// Bytes of a vault account without its discriminator and its holdings.
    pub const BASE_SIZE: usize = 32 + 32 + 32 + 32 + 32 + 16 + 4 + 8 + 2 + 2 + 2 + 8 + 16 + 8 + 2 + 1
        + 1 + 2;

    /// Bytes of the account of a vault with `basket_len` assets.
    pub fn size(basket_len: usize) -> (bytes: usize)
        requires
            240 + 48 * basket_len <= usize::MAX,
        ensures
            bytes == 240 + 48 * basket_len,
    {
        8 + Self::BASE_SIZE + basket_len * Holding::SIZE
    }

    /// Index of the first holding of `mint`, if there is one.
    fn position(&self, mint: &Pubkey) -> (found: Option<usize>)
        ensures
            match found {
                Some(i) => i < self.holdings@.len() && i == holding_index(self.holdings@, *mint),
                None => holding_index(self.holdings@, *mint) == self.holdings@.len(),
            },
    {
        let mut i: usize = 0;
        assert(self.holdings@.skip(0) =~= self.holdings@);
        while i < self.holdings.len()
            invariant
                i <= self.holdings.len(),
                holding_index(self.holdings@, *mint) == i + holding_index(
                    self.holdings@.skip(i as int),
                    *mint,
                ),
            decreases self.holdings.len() - i,
        {
            assert(self.holdings@.skip(i as int).skip(1) =~= self.holdings@.skip(i + 1));
            if self.holdings[i].mint == *mint {
                return Some(i);
            }
            i = i + 1;
        }
        None
    }

    /// The first holding of `mint`, if there is one.
    pub fn holding(&self, mint: &Pubkey) -> (found: Option<&Holding>)
        ensures
            ({
                let i = holding_index(self.holdings@, *mint);
                match found {
                    Some(h) => i < self.holdings@.len() && *h == self.holdings@[i],
                    None => i == self.holdings@.len(),
                }
            }),
    {
        match self.position(mint) {
            Some(i) => Some(&self.holdings[i]),
            None => None,
        }
    }

    /// The first holding of `mint`, if there is one, for change. Nothing else changes.
    pub fn holding_mut(&mut self, mint: &Pubkey) -> (found: Option<&mut Holding>)
        ensures
            ({
                let i = holding_index(old(self).holdings@, *mint);
                match found {
                    Some(h) => {
                        &&& i < old(self).holdings@.len()
                        &&& *h == old(self).holdings@[i]
                        &&& final(self)@ == (VaultView {
                            holdings: old(self).holdings@.update(i, *final(h)),
                            ..old(self)@
                        })
                    },
                    None => i == old(self).holdings@.len() && final(self)@ == old(self)@,
                }
            }),
    {
        match self.position(mint) {
            Some(i) => Some(&mut self.holdings[i]),
            None => None,
        }
    }
}

/// A holding is found where there is one, and none before it is of the same mint.
pub proof fn lemma_holding_index(holdings: Seq<Holding>, mint: Pubkey)
    ensures
        0 <= holding_index(holdings, mint) <= holdings.len(),
        forall|j: int|
            0 <= j < holding_index(holdings, mint) ==> (#[trigger] holdings[j]).mint != mint,
        holding_index(holdings, mint) < holdings.len() ==> holdings[holding_index(
            holdings,
            mint,
        )].mint == mint,
    decreases holdings.len(),
{
    if holdings.len() > 0 && holdings[0].mint != mint {
        let rest = holdings.skip(1);
        lemma_holding_index(rest, mint);
        assert forall|j: int| 0 <= j < holding_index(holdings, mint) implies (
        #[trigger] holdings[j]).mint != mint by {
            if j > 0 {
                assert(rest[j - 1] == holdings[j]);
            }
        }
    }
}

} // verus!
