use bevy_mod_index::refresh_policy::IndexRefreshPolicy;
use bevy_mod_index::storage::{ComponentRecord, HashmapStorage, HashmapStorageRefreshData, NoStorage};

fn record(entity: u64, value: u64, last_changed: u32) -> ComponentRecord {
    ComponentRecord { entity, value, last_changed }
}

fn feed(components: Vec<ComponentRecord>, removed: Vec<u64>, this_run: u32) -> HashmapStorageRefreshData {
    HashmapStorageRefreshData::new(components, removed, this_run)
}

fn lookup_stale(storage: &mut HashmapStorage, val: u64) -> Vec<u64> {
    let mut nothing = feed(Vec::new(), Vec::new(), 0);
    let mut found = storage.lookup(&val, &mut nothing, IndexRefreshPolicy::Manual);
    found.sort();
    found
}

#[test]
fn a_new_storage_needs_a_refresh_at_every_tick_but_zero() {
    let storage = HashmapStorage::new();
    assert!(!storage.needs_refresh(0));
    assert!(storage.needs_refresh(1));
    assert!(storage.needs_refresh(u32::MAX));
}

#[test]
fn a_refresh_stamps_the_storage() {
    let mut storage = HashmapStorage::default();
    storage.refresh(&mut feed(Vec::new(), Vec::new(), 9));
    assert!(!storage.needs_refresh(9));
    assert!(storage.needs_refresh(10));
    storage.force_refresh(&mut feed(Vec::new(), Vec::new(), 12));
    assert!(!storage.needs_refresh(12));
    assert!(storage.needs_refresh(9));
}

#[test]
fn force_refresh_files_changed_records_only() {
    let mut storage = HashmapStorage::new();
    storage.force_refresh(&mut feed(vec![record(1, 10, 1), record(2, 10, 1)], Vec::new(), 3));
    assert_eq!(lookup_stale(&mut storage, 10), vec![1, 2]);

    // Entity 1 is reported with a new value but an old tick: it is not read
    // again. Entity 2 was written after the last refresh.
    storage.force_refresh(&mut feed(vec![record(1, 11, 1), record(2, 12, 4)], Vec::new(), 5));
    assert_eq!(lookup_stale(&mut storage, 10), vec![1]);
    assert_eq!(lookup_stale(&mut storage, 11), Vec::<u64>::new());
    assert_eq!(lookup_stale(&mut storage, 12), vec![2]);
}

#[test]
fn the_later_record_of_an_entity_wins() {
    let mut storage = HashmapStorage::new();
    storage.force_refresh(&mut feed(vec![record(1, 10, 1), record(1, 20, 1)], Vec::new(), 2));
    assert_eq!(lookup_stale(&mut storage, 10), Vec::<u64>::new());
    assert_eq!(lookup_stale(&mut storage, 20), vec![1]);
}

#[test]
fn removals_are_processed_before_changes() {
    let mut storage = HashmapStorage::new();
    storage.force_refresh(&mut feed(vec![record(1, 10, 1), record(2, 10, 1)], Vec::new(), 2));
    // Entity 1 lost the attribute and got it back with another value;
    // entity 2 lost it for good.
    let mut data = feed(vec![record(1, 30, 3)], vec![1, 2], 4);
    storage.force_refresh(&mut data);
    assert_eq!(data.removed, Vec::<u64>::new());
    assert_eq!(lookup_stale(&mut storage, 10), Vec::<u64>::new());
    assert_eq!(lookup_stale(&mut storage, 30), vec![1]);
}

#[test]
fn a_buffered_removal_waits_for_the_refresh() {
    let mut storage = HashmapStorage::new();
    storage.force_refresh(&mut feed(vec![record(1, 10, 1), record(2, 10, 1)], Vec::new(), 2));
    storage.removal_observer(1, false);
    assert_eq!(lookup_stale(&mut storage, 10), vec![1, 2]);
    storage.refresh(&mut feed(vec![record(2, 10, 1)], Vec::new(), 3));
    assert_eq!(lookup_stale(&mut storage, 10), vec![2]);
    // The buffer was emptied: a later write files the entity again and a
    // further refresh keeps it.
    storage.force_refresh(&mut feed(vec![record(1, 10, 4), record(2, 10, 1)], Vec::new(), 5));
    storage.force_refresh(&mut feed(vec![record(1, 10, 4), record(2, 10, 1)], Vec::new(), 7));
    assert_eq!(lookup_stale(&mut storage, 10), vec![1, 2]);
}

#[test]
fn an_eager_removal_is_processed_at_once() {
    let mut storage = HashmapStorage::new();
    storage.force_refresh(&mut feed(vec![record(1, 10, 1), record(2, 10, 1)], Vec::new(), 2));
    storage.removal_observer(1, true);
    assert_eq!(lookup_stale(&mut storage, 10), vec![2]);
}

#[test]
fn an_observed_insertion_is_filed_at_once() {
    let mut storage = HashmapStorage::new();
    storage.insertion_observer(&10, 1);
    storage.insertion_observer(&10, 2);
    assert_eq!(lookup_stale(&mut storage, 10), vec![1, 2]);
    storage.insertion_observer(&11, 1);
    assert_eq!(lookup_stale(&mut storage, 10), vec![2]);
    assert_eq!(lookup_stale(&mut storage, 11), vec![1]);
}

#[test]
fn lookup_refreshes_where_the_policy_says_so() {
    for (policy, refreshes) in [
        (IndexRefreshPolicy::OnAccess, true),
        (IndexRefreshPolicy::Conservative, true),
        (IndexRefreshPolicy::NoDespawnOptimized, true),
        (IndexRefreshPolicy::Snapshot, false),
        (IndexRefreshPolicy::Manual, false),
    ] {
        let mut storage = HashmapStorage::new();
        let mut data = feed(vec![record(1, 10, 1)], vec![8], 2);
        let found = storage.lookup(&10, &mut data, policy);
        if refreshes {
            assert_eq!(found, vec![1]);
            assert!(!storage.needs_refresh(2));
            assert_eq!(data.removed, Vec::<u64>::new());
        } else {
            assert_eq!(found, Vec::<u64>::new());
            assert!(storage.needs_refresh(2));
            assert_eq!(data.removed, vec![8]);
        }
    }
}

#[test]
fn lookup_refreshes_once_per_tick() {
    let mut storage = HashmapStorage::new();
    let found = storage.lookup(&10, &mut feed(vec![record(1, 10, 1)], Vec::new(), 2), IndexRefreshPolicy::OnAccess);
    assert_eq!(found, vec![1]);
    // Same tick, the value was written in between: the lookup does not look.
    let found = storage.lookup(&11, &mut feed(vec![record(1, 11, 2)], Vec::new(), 2), IndexRefreshPolicy::OnAccess);
    assert_eq!(found, Vec::<u64>::new());
    // Next tick: it does, and picks the write of the previous tick up.
    let found = storage.lookup(&11, &mut feed(vec![record(1, 11, 2)], Vec::new(), 3), IndexRefreshPolicy::OnAccess);
    assert_eq!(found, vec![1]);
}

#[test]
fn no_storage_scans_the_records() {
    let mut storage = NoStorage::default();
    let records = vec![record(4, 10, 0), record(2, 20, 0), record(9, 10, 0), record(1, 30, 0)];
    assert_eq!(storage.lookup(&10, &records), vec![4, 9]);
    assert_eq!(storage.lookup(&20, &records), vec![2]);
    assert_eq!(storage.lookup(&40, &records), Vec::<u64>::new());
    storage.refresh(&records);
    storage.force_refresh(&records);
    assert_eq!(storage.lookup(&30, &records), vec![1]);
    assert_eq!(NoStorage::new().lookup(&30, &Vec::new()), Vec::<u64>::new());
}
