use xvault::oracle::{
    init_snapshot, push_nav, set_keeper_authorization, set_max_stale_slots, InitSnapshot, NavEntry,
    NavSnapshot, OracleError, PushNav, UpdateSnapshotConfig, DEFAULT_MAX_STALE_SLOTS,
    MAX_NAV_ENTRIES,
};
use xvault::Pubkey;

fn key(n: u8) -> Pubkey {
    Pubkey::new([n; 32])
}

fn entry(mint: u8, price_usd_1e8: u64) -> NavEntry {
    NavEntry {
        mint: key(mint),
        price_usd_1e8,
        multiplier_num: 1_000_000_000_000_000_000,
        flags: 0,
        _padding: [0; 7],
    }
}

fn snapshot() -> NavSnapshot {
    init_snapshot(&InitSnapshot { authority: key(1), bump: 254 }, *b"MAG7_V1\0\0\0\0\0\0\0\0\0")
}

fn by(authority: u8) -> UpdateSnapshotConfig {
    UpdateSnapshotConfig { authority: key(authority) }
}

fn push(s: &mut NavSnapshot, who: u8, slot: u64, n: usize) -> Result<(), OracleError> {
    push_nav(s, &PushNav { authority: key(who), slot }, vec![entry(9, 100); n])
}

#[test]
fn fresh_snapshot_lists_its_creator() {
    let s = snapshot();
    assert_eq!(s.authority, key(1));
    assert_eq!(s.authorized_keepers, vec![key(1)]);
    assert_eq!(s.max_stale_slots, 150);
    assert_eq!(s.max_stale_slots, DEFAULT_MAX_STALE_SLOTS);
    assert_eq!(s.sku, *b"MAG7_V1\0\0\0\0\0\0\0\0\0");
    assert_eq!(s.last_update_slot, 0);
    assert!(s.entries.is_empty());
    assert_eq!(s.bump, 254);
}

#[test]
fn snapshot_sizes() {
    assert_eq!(NavEntry::SIZE, 64);
    assert_eq!(NavSnapshot::size(0), 337);
    assert_eq!(NavSnapshot::size(MAX_NAV_ENTRIES), 1617);
}

#[test]
fn push_replaces_entries_and_slot() {
    let mut s = snapshot();
    assert_eq!(push(&mut s, 1, 1_000, 3), Ok(()));
    assert_eq!(s.entries.len(), 3);
    assert_eq!(s.last_update_slot, 1_000);
    assert_eq!(push(&mut s, 1, 1_001, 1), Ok(()));
    assert_eq!(s.entries, vec![entry(9, 100)]);
    assert_eq!(s.last_update_slot, 1_001);
}

#[test]
fn push_holds_at_most_twenty_entries() {
    let mut s = snapshot();
    assert_eq!(push(&mut s, 1, 5, 20), Ok(()));
    assert_eq!(push(&mut s, 1, 6, 21), Err(OracleError::TooManyEntries));
    // The length is looked at before the keeper.
    assert_eq!(push(&mut s, 2, 6, 21), Err(OracleError::TooManyEntries));
    assert_eq!(s.entries.len(), 20);
    assert_eq!(s.last_update_slot, 5);
}

#[test]
fn only_listed_keepers_push() {
    let mut s = snapshot();
    assert_eq!(push(&mut s, 2, 5, 1), Err(OracleError::Unauthorized));
    assert!(s.entries.is_empty());
    assert_eq!(set_keeper_authorization(&mut s, &by(1), key(2), true), Ok(()));
    assert_eq!(push(&mut s, 2, 5, 1), Ok(()));
    assert_eq!(set_keeper_authorization(&mut s, &by(1), key(2), false), Ok(()));
    assert_eq!(push(&mut s, 2, 6, 1), Err(OracleError::Unauthorized));
}

#[test]
fn keeper_changes_are_idempotent_and_undo_each_other() {
    let mut s = snapshot();
    assert_eq!(set_keeper_authorization(&mut s, &by(1), key(2), true), Ok(()));
    assert_eq!(set_keeper_authorization(&mut s, &by(1), key(2), true), Ok(()));
    assert_eq!(set_keeper_authorization(&mut s, &by(1), key(3), true), Ok(()));
    assert_eq!(s.authorized_keepers, vec![key(1), key(2), key(3)]);
    assert_eq!(set_keeper_authorization(&mut s, &by(1), key(2), false), Ok(()));
    assert_eq!(set_keeper_authorization(&mut s, &by(1), key(2), false), Ok(()));
    assert_eq!(s.authorized_keepers, vec![key(1), key(3)]);
    assert_eq!(set_keeper_authorization(&mut s, &by(1), key(3), false), Ok(()));
    assert_eq!(s.authorized_keepers, vec![key(1)]);
}

#[test]
fn only_the_authority_configures() {
    let mut s = snapshot();
    assert_eq!(set_keeper_authorization(&mut s, &by(1), key(2), true), Ok(()));
    // A keeper is not the authority.
    assert_eq!(
        set_keeper_authorization(&mut s, &by(2), key(3), true),
        Err(OracleError::Unauthorized)
    );
    assert_eq!(set_max_stale_slots(&mut s, &by(2), 10), Err(OracleError::Unauthorized));
    assert_eq!(s.authorized_keepers, vec![key(1), key(2)]);
    assert_eq!(s.max_stale_slots, 150);
}

#[test]
fn staleness_bound_is_positive() {
    let mut s = snapshot();
    assert_eq!(set_max_stale_slots(&mut s, &by(1), 0), Err(OracleError::InvalidConfig));
    assert_eq!(s.max_stale_slots, 150);
    assert_eq!(set_max_stale_slots(&mut s, &by(1), 1), Ok(()));
    assert_eq!(s.max_stale_slots, 1);
}

#[test]
fn fresh_until_the_bound_has_passed() {
    let mut s = snapshot();
    assert_eq!(push(&mut s, 1, 1_000, 1), Ok(()));
    assert!(s.is_fresh(1_000));
    assert!(s.is_fresh(1_150));
    assert!(!s.is_fresh(1_151));
    // A slot before the update counts as no time gone by.
    assert!(s.is_fresh(10));
}

#[test]
fn first_entry_of_a_mint_counts() {
    let mut s = snapshot();
    let entries = vec![entry(7, 1), entry(8, 2), entry(7, 3)];
    assert_eq!(push_nav(&mut s, &PushNav { authority: key(1), slot: 1 }, entries), Ok(()));
    assert_eq!(s.entry(&key(7)), Some(entry(7, 1)));
    assert_eq!(s.entry(&key(8)), Some(entry(8, 2)));
    assert_eq!(s.entry(&key(6)), None);
}
