//! The oracle: keeper-pushed NAV snapshots (price × multiplier per asset).

use vstd::prelude::*;

use crate::pubkey::Pubkey;

verus! {

/// Most entries that a snapshot holds.
pub const MAX_NAV_ENTRIES: usize = 20;

/// Staleness bound, in slots, of a fresh snapshot.
pub const DEFAULT_MAX_STALE_SLOTS: u64 = 150;

/// Why the oracle refuses a request.
#[derive(Clone, Copy, Debug, PartialEq, Eq, Structural)]
pub enum OracleError {
    /// The signer may not do this.
    Unauthorized,
    /// More than `MAX_NAV_ENTRIES` entries.
    TooManyEntries,
    /// A staleness bound of zero slots.
    InvalidConfig,
}

/// Price and multiplier of one asset.
#[derive(Clone, Copy, Debug, PartialEq, Eq)]
pub struct NavEntry {
    pub mint: Pubkey,
    /// Price × 1e8, USD.
    pub price_usd_1e8: u64,
    /// Multiplier numerator; the denominator is fixed at 1e18.
    pub multiplier_num: u128,
    /// Asset status bits: bit 0 = halted, bit 1 = corporate action pending.
    pub flags: u8,
    pub _padding: [u8; 7],
}

impl NavEntry {
    /// Bytes that one entry takes in an account.
    pub const SIZE: usize = 32 + 8 + 16 + 1 + 7;
}

/// The NAV snapshot of one SKU.
pub struct NavSnapshot {
    /// Who may change the keepers and the staleness bound.
    pub authority: Pubkey,
    /// Who may push entries.
    pub authorized_keepers: Vec<Pubkey>,
    /// How many slots after `last_update_slot` the entries stay usable.
    pub max_stale_slots: u64,
    pub sku: [u8; 16],
    pub last_update_slot: u64,
    pub entries: Vec<NavEntry>,
    pub bump: u8,
}

/// What a [`NavSnapshot`] holds, with sequences for its vectors.
#[verifier::ext_equal]
pub struct NavSnapshotView {
    pub authority: Pubkey,
    pub authorized_keepers: Seq<Pubkey>,
    pub max_stale_slots: u64,
    pub sku: [u8; 16],
    pub last_update_slot: u64,
    pub entries: Seq<NavEntry>,
    pub bump: u8,
}

impl View for NavSnapshot {
    type V = NavSnapshotView;

    open spec fn view(&self) -> NavSnapshotView {
        NavSnapshotView {
            authority: self.authority,
            authorized_keepers: self.authorized_keepers@,
            max_stale_slots: self.max_stale_slots,
            sku: self.sku,
            last_update_slot: self.last_update_slot,
            entries: self.entries@,
            bump: self.bump,
        }
    }
}

impl NavSnapshotView {
    /// No keeper is listed twice, the entries fit, and the staleness bound is not zero.
    pub open spec fn well_formed(self) -> bool {
        &&& self.authorized_keepers.no_duplicates()
        &&& self.entries.len() <= MAX_NAV_ENTRIES
        &&& self.max_stale_slots > 0
    }

    /// Whether the entries may still be used at `slot`.
    pub open spec fn fresh_at(self, slot: u64) -> bool {
        slot - self.last_update_slot <= self.max_stale_slots
    }
}

/// The keepers that are left of `keepers` without `keeper`, in their order.
pub open spec fn without_keeper(keepers: Seq<Pubkey>, keeper: Pubkey) -> Seq<Pubkey> {
    keepers.filter(|k: Pubkey| k != keeper)
}

/// The keepers after `keeper` is enabled or disabled: an enabled keeper that is not listed
/// joins at the end, a disabled one leaves.
pub open spec fn keepers_after(keepers: Seq<Pubkey>, keeper: Pubkey, enabled: bool) -> Seq<Pubkey> {
    if !enabled {
        without_keeper(keepers, keeper)
    } else if keepers.contains(keeper) {
        keepers
    } else {
        keepers.push(keeper)
    }
}

/// The first entry for `mint`, if there is one.
pub open spec fn entry_for(entries: Seq<NavEntry>, mint: Pubkey) -> Option<NavEntry>
    decreases entries.len(),
{
    if entries.len() == 0 {
        None
    } else if entries[0].mint == mint {
        Some(entries[0])
    } else {
        entry_for(entries.skip(1), mint)
    }
}

impl NavSnapshot {
    /// Bytes of the account that holds a snapshot with room for `n` entries.
    pub fn size(n: usize) -> (bytes: usize)
        requires
            337 + 64 * n <= usize::MAX,
        ensures
            bytes == 337 + 64 * n,
    {
        8 + 32 + 4 + 32 * 8 + 8 + 16 + 8 + 4 + n * NavEntry::SIZE + 1
    }

    /// Whether the entries may still be used at `slot`: at most `max_stale_slots` slots have
    /// gone by since the last update.
    pub fn is_fresh(&self, slot: u64) -> (fresh: bool)
        ensures
            fresh == self@.fresh_at(slot),
    {
        slot.saturating_sub(self.last_update_slot) <= self.max_stale_slots
    }

    /// The first entry for `mint`, if there is one.
    pub fn entry(&self, mint: &Pubkey) -> (found: Option<NavEntry>)
        ensures
            found == entry_for(self@.entries, *mint),
    {
        let mut i: usize = 0;
        assert(self.entries@.skip(0) =~= self.entries@);
        while i < self.entries.len()
            invariant
                i <= self.entries.len(),
                entry_for(self.entries@, *mint) == entry_for(self.entries@.skip(i as int), *mint),
            decreases self.entries.len() - i,
        {
            assert(self.entries@.skip(i as int).skip(1) =~= self.entries@.skip(i + 1));
            if self.entries[i].mint == *mint {
                return Some(self.entries[i]);
            }
            i = i + 1;
        }
        None
    }

    /// Whether `key` may push entries.
    fn has_keeper(&self, key: &Pubkey) -> (found: bool)
        ensures
            found == self.authorized_keepers@.contains(*key),
    {
        let mut i: usize = 0;
        while i < self.authorized_keepers.len()
            invariant
                i <= self.authorized_keepers.len(),
                forall|j: int| 0 <= j < i ==> self.authorized_keepers@[j] != *key,
            decreases self.authorized_keepers.len() - i,
        {
            if self.authorized_keepers[i] == *key {
                return true;
            }
            i = i + 1;
        }
        false
    }
}

/// Who creates a snapshot, and the bump of its address.
pub struct InitSnapshot {
    pub authority: Pubkey,
    pub bump: u8,
}

/// Who pushes entries, and in which slot.
pub struct PushNav {
    pub authority: Pubkey,
    pub slot: u64,
}

/// Who changes the configuration of a snapshot.
pub struct UpdateSnapshotConfig {
    pub authority: Pubkey,
}

/// A fresh snapshot for `sku`: no entries, and its creator as authority and only keeper.
pub fn init_snapshot(ctx: &InitSnapshot, sku: [u8; 16]) -> (snapshot: NavSnapshot)
    ensures
        snapshot@ == (NavSnapshotView {
            authority: ctx.authority,
            authorized_keepers: seq![ctx.authority],
            max_stale_slots: DEFAULT_MAX_STALE_SLOTS,
            sku,
            last_update_slot: 0,
            entries: Seq::empty(),
            bump: ctx.bump,
        }),
        snapshot@.well_formed(),
{
    let mut authorized_keepers: Vec<Pubkey> = Vec::new();
    authorized_keepers.push(ctx.authority);
    NavSnapshot {
        authority: ctx.authority,
        authorized_keepers,
        max_stale_slots: DEFAULT_MAX_STALE_SLOTS,
        sku,
        last_update_slot: 0,
        entries: Vec::new(),
        bump: ctx.bump,
    }
}

/// Why a push of `len` entries by `authority` is refused, if it is.
pub open spec fn push_nav_error(
    snapshot: NavSnapshotView,
    authority: Pubkey,
    len: nat,
) -> Option<OracleError> {
    if len > MAX_NAV_ENTRIES {
        Some(OracleError::TooManyEntries)
    } else if !snapshot.authorized_keepers.contains(authority) {
        Some(OracleError::Unauthorized)
    } else {
        None
    }
}

/// Replaces the entries of a snapshot and notes the slot. Only a listed keeper may.
pub fn push_nav(snapshot: &mut NavSnapshot, ctx: &PushNav, entries: Vec<NavEntry>) -> (res: Result<
    (),
    OracleError,
>)
    ensures
        match push_nav_error(old(snapshot)@, ctx.authority, entries@.len()) {
            Some(e) => res == Err::<(), OracleError>(e) && final(snapshot)@ == old(snapshot)@,
            None => res == Ok::<(), OracleError>(()) && final(snapshot)@ == (NavSnapshotView {
                entries: entries@,
                last_update_slot: ctx.slot,
                ..old(snapshot)@
            }),
        },
        old(snapshot)@.well_formed() ==> final(snapshot)@.well_formed(),
{
    if entries.len() > MAX_NAV_ENTRIES {
        return Err(OracleError::TooManyEntries);
    }
    if !snapshot.has_keeper(&ctx.authority) {
        return Err(OracleError::Unauthorized);
    }
    snapshot.entries = entries;
    snapshot.last_update_slot = ctx.slot;
    Ok(())
}

/// The keepers other than `keeper`, in their order.
fn retain_others(keepers: &Vec<Pubkey>, keeper: &Pubkey) -> (kept: Vec<Pubkey>)
    ensures
        kept@ == without_keeper(keepers@, *keeper),
{
    let mut kept: Vec<Pubkey> = Vec::new();
    let mut i: usize = 0;
    assert(without_keeper(keepers@.take(0), *keeper) =~= Seq::<Pubkey>::empty()) by {
        reveal(Seq::filter);
    }
    while i < keepers.len()
        invariant
            i <= keepers.len(),
            kept@ == without_keeper(keepers@.take(i as int), *keeper),
        decreases keepers.len() - i,
    {
        let k: Pubkey = keepers[i];
        proof {
            reveal(Seq::filter);
            assert(keepers@.take(i + 1).drop_last() =~= keepers@.take(i as int));
        }
        if k != *keeper {
            kept.push(k);
        }
        i = i + 1;
    }
    assert(keepers@.take(i as int) =~= keepers@);
    kept
}

/// Enables or disables `keeper`. Only the snapshot's authority may.
pub fn set_keeper_authorization(
    snapshot: &mut NavSnapshot,
    ctx: &UpdateSnapshotConfig,
    keeper: Pubkey,
    enabled: bool,
) -> (res: Result<(), OracleError>)
    ensures
        old(snapshot)@.authority != ctx.authority ==> {
            &&& res == Err::<(), OracleError>(OracleError::Unauthorized)
            &&& final(snapshot)@ == old(snapshot)@
        },
        old(snapshot)@.authority == ctx.authority ==> {
            &&& res == Ok::<(), OracleError>(())
            &&& final(snapshot)@ == (NavSnapshotView {
                authorized_keepers: keepers_after(
                    old(snapshot)@.authorized_keepers,
                    keeper,
                    enabled,
                ),
                ..old(snapshot)@
            })
        },
        old(snapshot)@.well_formed() ==> final(snapshot)@.well_formed(),
{
    if snapshot.authority != ctx.authority {
        return Err(OracleError::Unauthorized);
    }
    proof {
        lemma_keepers_stay_distinct(snapshot@.authorized_keepers, keeper, enabled);
    }
    if enabled {
        if !snapshot.has_keeper(&keeper) {
            snapshot.authorized_keepers.push(keeper);
        }
    } else {
        snapshot.authorized_keepers = retain_others(&snapshot.authorized_keepers, &keeper);
    }
    Ok(())
}

/// Sets the staleness bound. Only the snapshot's authority may, and not to zero.
pub fn set_max_stale_slots(
    snapshot: &mut NavSnapshot,
    ctx: &UpdateSnapshotConfig,
    max_stale_slots: u64,
) -> (res: Result<(), OracleError>)
    ensures
        res == if old(snapshot)@.authority != ctx.authority {
            Err::<(), OracleError>(OracleError::Unauthorized)
        } else if max_stale_slots == 0 {
            Err(OracleError::InvalidConfig)
        } else {
            Ok(())
        },
        res is Err ==> final(snapshot)@ == old(snapshot)@,
        res is Ok ==> final(snapshot)@ == (NavSnapshotView { max_stale_slots, ..old(snapshot)@ }),
        old(snapshot)@.well_formed() ==> final(snapshot)@.well_formed(),
{
    if snapshot.authority != ctx.authority {
        return Err(OracleError::Unauthorized);
    }
    if max_stale_slots == 0 {
        return Err(OracleError::InvalidConfig);
    }
    snapshot.max_stale_slots = max_stale_slots;
    Ok(())
}

/// Exactly the other keepers are left once a keeper is taken out, and none of them twice if
/// none was listed twice.
pub proof fn lemma_without_keeper(keepers: Seq<Pubkey>, keeper: Pubkey)
    ensures
        forall|k: Pubkey|
            without_keeper(keepers, keeper).contains(k) <==> keepers.contains(k) && k != keeper,
        keepers.no_duplicates() ==> without_keeper(keepers, keeper).no_duplicates(),
    decreases keepers.len(),
{
    reveal(Seq::filter);
    if keepers.len() > 0 {
        let init = keepers.drop_last();
        let last = keepers.last();
        lemma_without_keeper(init, keeper);
        let rest = without_keeper(init, keeper);
        let whole = without_keeper(keepers, keeper);
        assert(keepers =~= init.push(last));
        assert(whole == if last != keeper { rest.push(last) } else { rest });
        assert forall|k: Pubkey| whole.contains(k) <==> keepers.contains(k) && k != keeper by {
            if whole.contains(k) {
                let i = choose|i: int| 0 <= i < whole.len() && whole[i] == k;
                if i < rest.len() {
                    assert(rest.contains(k));
                    assert(init.contains(k));
                }
                assert(keepers.contains(k));
            }
            if keepers.contains(k) && k != keeper {
                let i = choose|i: int| 0 <= i < keepers.len() && keepers[i] == k;
                if i < init.len() {
                    assert(init[i] == k);
                    assert(rest.contains(k));
                    let j = choose|j: int| 0 <= j < rest.len() && rest[j] == k;
                    assert(whole[j] == k);
                } else {
                    assert(whole[rest.len() as int] == k);
                }
            }
        }
        if keepers.no_duplicates() {
            assert(init.no_duplicates());
            if last != keeper {
                assert(!init.contains(last)) by {
                    if init.contains(last) {
                        let i = choose|i: int| 0 <= i < init.len() && init[i] == last;
                        assert(keepers[i] == keepers[keepers.len() - 1]);
                    }
                }
                assert(!rest.contains(last));
                assert(whole.no_duplicates());
            }
        }
    }
}

proof fn lemma_keepers_stay_distinct(keepers: Seq<Pubkey>, keeper: Pubkey, enabled: bool)
    ensures
        keepers.no_duplicates() ==> keepers_after(keepers, keeper, enabled).no_duplicates(),
{
    lemma_without_keeper(keepers, keeper);
}

} // verus!
