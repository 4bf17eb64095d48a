use bevy_mod_index::unique_multimap::UniqueMultiMap;

fn sorted(mut v: Vec<u64>) -> Vec<u64> {
    v.sort();
    v
}

#[test]
fn a_new_multimap_holds_nothing() {
    let m = UniqueMultiMap::new();
    assert_eq!(m.get(&0), Vec::<u64>::new());
    assert_eq!(m.get(&7), Vec::<u64>::new());
    let d = UniqueMultiMap::default();
    assert_eq!(d.get(&7), Vec::<u64>::new());
}

#[test]
fn insert_reports_the_previous_key() {
    let mut m = UniqueMultiMap::new();
    assert_eq!(m.insert(&1, 10), None);
    assert_eq!(m.insert(&1, 11), None);
    assert_eq!(m.insert(&2, 10), Some(1));
    assert_eq!(sorted(m.get(&1)), vec![11]);
    assert_eq!(sorted(m.get(&2)), vec![10]);
}

#[test]
fn a_key_holds_all_its_values_each_once() {
    let mut m = UniqueMultiMap::new();
    for v in [5u64, 3, 9, 3, 5, 1] {
        m.insert(&4, v);
    }
    assert_eq!(sorted(m.get(&4)), vec![1, 3, 5, 9]);
}

#[test]
fn inserting_the_same_pair_twice_changes_nothing() {
    let mut m = UniqueMultiMap::new();
    m.insert(&3, 30);
    assert_eq!(m.insert(&1, 10), None);
    assert_eq!(m.insert(&1, 10), Some(1));
    assert_eq!(m.insert(&1, 10), Some(1));
    assert_eq!(m.get(&1), vec![10]);
    assert_eq!(m.get(&3), vec![30]);
}

#[test]
fn a_value_moves_from_one_key_to_another() {
    let mut m = UniqueMultiMap::new();
    m.insert(&1, 10);
    m.insert(&1, 11);
    m.insert(&2, 20);
    assert_eq!(m.insert(&2, 10), Some(1));
    assert_eq!(m.get(&1), vec![11]);
    assert_eq!(sorted(m.get(&2)), vec![10, 20]);
}

#[test]
fn a_key_disappears_with_its_last_value() {
    let mut m = UniqueMultiMap::new();
    m.insert(&1, 10);
    assert_eq!(m.insert(&2, 10), Some(1));
    assert_eq!(m.get(&1), Vec::<u64>::new());
    assert_eq!(m.get(&2), vec![10]);
    // The key can be used again afterwards.
    assert_eq!(m.insert(&1, 12), None);
    assert_eq!(m.get(&1), vec![12]);
}

#[test]
fn remove_reports_the_key_and_takes_the_value_out() {
    let mut m = UniqueMultiMap::new();
    m.insert(&1, 10);
    m.insert(&1, 11);
    assert_eq!(m.remove(&10), Some(1));
    assert_eq!(m.get(&1), vec![11]);
    assert_eq!(m.remove(&11), Some(1));
    assert_eq!(m.get(&1), Vec::<u64>::new());
}

#[test]
fn removing_an_absent_value_does_nothing() {
    let mut m = UniqueMultiMap::new();
    assert_eq!(m.remove(&10), None);
    m.insert(&1, 10);
    assert_eq!(m.remove(&11), None);
    assert_eq!(m.remove(&1), None);
    assert_eq!(m.get(&1), vec![10]);
    assert_eq!(m.remove(&10), Some(1));
    assert_eq!(m.remove(&10), None);
}

#[test]
fn keys_and_values_are_told_apart() {
    let mut m = UniqueMultiMap::new();
    m.insert(&10, 10);
    m.insert(&10, 20);
    m.insert(&20, 10);
    assert_eq!(m.get(&10), vec![20]);
    assert_eq!(m.get(&20), vec![10]);
}

/// Every value is under exactly the key of its last insertion, as a plain
/// list of pairs would have it.
#[test]
fn a_long_run_of_insertions_and_removals_stays_consistent() {
    let mut m = UniqueMultiMap::new();
    let mut expected: Vec<Option<u64>> = vec![None; 40];
    let mut x: u64 = 12345;
    for _ in 0..2000 {
        x = x.wrapping_mul(6364136223846793005).wrapping_add(1442695040888963407);
        let v = (x >> 33) % 40;
        let k = (x >> 20) % 7;
        if (x >> 10) % 3 == 0 {
            assert_eq!(m.remove(&v), expected[v as usize]);
            expected[v as usize] = None;
        } else {
            assert_eq!(m.insert(&k, v), expected[v as usize]);
            expected[v as usize] = Some(k);
        }
        for key in 0..7u64 {
            let want: Vec<u64> =
                (0..40u64).filter(|v| expected[*v as usize] == Some(key)).collect();
            assert_eq!(sorted(m.get(&key)), want);
        }
    }
}
