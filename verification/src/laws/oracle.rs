//! Keepers and freshness of a snapshot.

use vstd::prelude::*;

use crate::oracle::{lemma_without_keeper, NavEntry, NavSnapshot, NavSnapshotView, OracleError};
use crate::pubkey::Pubkey;

verus! {

/// A keeper is listed after it was enabled and not listed after it was disabled; no other keeper
/// is affected.
pub proof fn law_keeper_listing(
    keepers: Seq<Pubkey>,
    keeper: Pubkey,
    enabled: bool,
    other: Pubkey,
)
    ensures
        crate::oracle::keepers_after(keepers, keeper, enabled).contains(keeper) == enabled,
        other != keeper ==> crate::oracle::keepers_after(keepers, keeper, enabled).contains(other)
            == keepers.contains(other),
{
    lemma_without_keeper(keepers, keeper);
    let after = crate::oracle::keepers_after(keepers, keeper, enabled);
    if enabled && !keepers.contains(keeper) {
        assert(after[keepers.len() as int] == keeper);
        if keepers.contains(other) {
            let i = choose|i: int| 0 <= i < keepers.len() && keepers[i] == other;
            assert(after[i] == other);
        }
    }
}

/// Enabling or disabling a keeper a second time changes nothing.
pub proof fn law_keeper_change_is_idempotent(keepers: Seq<Pubkey>, keeper: Pubkey, enabled: bool)
    ensures
        ({
            let once = crate::oracle::keepers_after(keepers, keeper, enabled);
            crate::oracle::keepers_after(once, keeper, enabled) == once
        }),
{
    let once = crate::oracle::keepers_after(keepers, keeper, enabled);
    law_keeper_listing(keepers, keeper, enabled, keeper);
    if !enabled {
        lemma_unlisted_keeper(once, keeper);
    }
}

/// Disabling a keeper that was just enabled for the first time restores the list.
pub proof fn law_disabling_undoes_enabling(keepers: Seq<Pubkey>, keeper: Pubkey)
    requires
        !keepers.contains(keeper),
    ensures
        crate::oracle::keepers_after(
            crate::oracle::keepers_after(keepers, keeper, true),
            keeper,
            false,
        ) == keepers,
{
    reveal(Seq::filter);
    let enabled = keepers.push(keeper);
    assert(enabled.drop_last() =~= keepers);
    lemma_unlisted_keeper(keepers, keeper);
}

/// Taking out a keeper that is not listed changes nothing.
proof fn lemma_unlisted_keeper(keepers: Seq<Pubkey>, keeper: Pubkey)
    requires
        !keepers.contains(keeper),
    ensures
        crate::oracle::without_keeper(keepers, keeper) == keepers,
    decreases keepers.len(),
{
    reveal(Seq::filter);
    if keepers.len() > 0 {
        let init = keepers.drop_last();
        assert(!init.contains(keeper)) by {
            if init.contains(keeper) {
                let i = choose|i: int| 0 <= i < init.len() && init[i] == keeper;
                assert(keepers[i] == keeper);
            }
        }
        lemma_unlisted_keeper(init, keeper);
        assert(keepers.last() == keepers[keepers.len() - 1]);
        assert(keepers =~= init.push(keepers.last()));
    } else {
        assert(crate::oracle::without_keeper(keepers, keeper) =~= keepers);
    }
}

/// A keeper that was enabled may push; one that was disabled is refused.
pub proof fn law_only_enabled_keepers_push(
    snapshot: NavSnapshotView,
    keeper: Pubkey,
    enabled: bool,
    len: nat,
)
    requires
        len <= crate::oracle::MAX_NAV_ENTRIES,
    ensures
        ({
            let after = NavSnapshotView {
                authorized_keepers: crate::oracle::keepers_after(
                    snapshot.authorized_keepers,
                    keeper,
                    enabled,
                ),
                ..snapshot
            };
            crate::oracle::push_nav_error(after, keeper, len) == if enabled {
                None::<OracleError>
            } else {
                Some(OracleError::Unauthorized)
            }
        }),
{
    law_keeper_listing(snapshot.authorized_keepers, keeper, enabled, keeper);
}

/// An asset is priced by the first entry of its mint, and by none where no entry is of its mint.
pub proof fn law_first_entry_counts(entries: Seq<NavEntry>, mint: Pubkey)
    ensures
        match crate::oracle::entry_for(entries, mint) {
            Some(e) => exists|i: int|
                #![trigger entries[i]]
                0 <= i < entries.len() && entries[i] == e && e.mint == mint && forall|j: int|
                    0 <= j < i ==> (#[trigger] entries[j]).mint != mint,
            None => forall|j: int|
                0 <= j < entries.len() ==> (#[trigger] entries[j]).mint != mint,
        },
    decreases entries.len(),
{
    if entries.len() > 0 {
        if entries[0].mint == mint {
            assert(entries[0].mint == mint);
        } else {
            let rest = entries.skip(1);
            law_first_entry_counts(rest, mint);
            match crate::oracle::entry_for(entries, mint) {
                Some(e) => {
                    let i = choose|i: int|
                        #![trigger rest[i]]
                        0 <= i < rest.len() && rest[i] == e && e.mint == mint && forall|j: int|
                            0 <= j < i ==> (#[trigger] rest[j]).mint != mint;
                    assert(entries[i + 1] == e);
                    assert forall|j: int| 0 <= j < i + 1 implies (#[trigger] entries[j]).mint
                        != mint by {
                        if j > 0 {
                            assert(rest[j - 1] == entries[j]);
                        }
                    }
                },
                None => {
                    assert forall|j: int| 0 <= j < entries.len() implies (
                    #[trigger] entries[j]).mint != mint by {
                        if j > 0 {
                            assert(rest[j - 1] == entries[j]);
                        }
                    }
                },
            }
        }
    }
}

/// The first entry of a mint is the one that prices it.
pub proof fn law_entry_at(entries: Seq<NavEntry>, mint: Pubkey, k: int)
    requires
        0 <= k < entries.len(),
        entries[k].mint == mint,
        forall|j: int| 0 <= j < k ==> (#[trigger] entries[j]).mint != mint,
    ensures
        crate::oracle::entry_for(entries, mint) == Some(entries[k]),
{
    law_first_entry_counts(entries, mint);
    match crate::oracle::entry_for(entries, mint) {
        Some(e) => {
            let i = choose|i: int|
                #![trigger entries[i]]
                0 <= i < entries.len() && entries[i] == e && e.mint == mint && forall|j: int|
                    0 <= j < i ==> (#[trigger] entries[j]).mint != mint;
            assert(!(k < i));
            assert(!(i < k));
        },
        None => {
            assert(entries[k].mint != mint);
        },
    }
}

/// The keepers keep their order: whoever is newly enabled comes last, and disabling leaves every
/// other entry of the list where it stood among the others.
pub proof fn law_keepers_keep_their_order(keepers: Seq<Pubkey>, last: Pubkey, keeper: Pubkey)
    ensures
        crate::oracle::keepers_after(keepers, keeper, true) == if keepers.contains(keeper) {
            keepers
        } else {
            keepers.push(keeper)
        },
        crate::oracle::keepers_after(Seq::empty(), keeper, false) == Seq::<Pubkey>::empty(),
        crate::oracle::keepers_after(keepers.push(last), keeper, false) == if last == keeper {
            crate::oracle::keepers_after(keepers, keeper, false)
        } else {
            crate::oracle::keepers_after(keepers, keeper, false).push(last)
        },
{
    reveal(Seq::filter);
    assert(keepers.push(last).drop_last() =~= keepers);
    assert(Seq::<Pubkey>::empty().filter(|k: Pubkey| k != keeper) =~= Seq::<Pubkey>::empty());
}

/// A push goes through exactly where it holds at most 20 entries and comes from a listed keeper;
/// too many entries are refused first.
pub proof fn law_push_goes_through(snapshot: NavSnapshotView, authority: Pubkey, len: nat)
    ensures
        ({
            let error = crate::oracle::push_nav_error(snapshot, authority, len);
            let listed = exists|i: int|
                0 <= i < snapshot.authorized_keepers.len() && #[trigger] snapshot.authorized_keepers[i]
                    == authority;
            &&& error is None <==> len <= 20 && listed
            &&& error == Some(OracleError::TooManyEntries) <==> len > 20
            &&& error == Some(OracleError::Unauthorized) <==> len <= 20 && !listed
        }),
{
}

/// In a well-formed snapshot no keeper is listed twice, there are at most 20 entries, and the
/// staleness bound is positive; every snapshot for which this holds is well-formed.
pub proof fn law_snapshot_is_well_formed(snapshot: NavSnapshotView)
    ensures
        snapshot.well_formed() <==> {
            &&& forall|i: int, j: int|
                0 <= i < j < snapshot.authorized_keepers.len()
                    ==> #[trigger] snapshot.authorized_keepers[i]
                    != #[trigger] snapshot.authorized_keepers[j]
            &&& snapshot.entries.len() <= 20
            &&& snapshot.max_stale_slots >= 1
        },
{
}

/// The view of a snapshot carries every field.
pub proof fn law_snapshot_view_carries_every_field(snapshot: NavSnapshot)
    ensures
        snapshot@.authority == snapshot.authority,
        snapshot@.authorized_keepers == snapshot.authorized_keepers@,
        snapshot@.max_stale_slots == snapshot.max_stale_slots,
        snapshot@.sku == snapshot.sku,
        snapshot@.last_update_slot == snapshot.last_update_slot,
        snapshot@.entries == snapshot.entries@,
        snapshot@.bump == snapshot.bump,
{
}

/// What was pushed in a slot may be used from then on for `max_stale_slots` slots, and no longer.
pub proof fn law_fresh_until_stale(snapshot: NavSnapshotView, pushed: u64, slot: u64)
    ensures
        (NavSnapshotView { last_update_slot: pushed, ..snapshot }).fresh_at(slot) <==> slot
            <= pushed + snapshot.max_stale_slots,
{
}

} // verus!
