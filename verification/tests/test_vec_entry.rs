use vec_entry::vec_entry::{Entry, VecEntry};

#[test]
fn test_simple() {
    let mut m = vec![20u8];

    // No growth yet.
    let v0e = m.entry(0);
    assert!(matches!(v0e, Entry::Occupied(_)));
    let v0 = v0e.or_default();
    assert_eq!(v0, &20u8);
    *v0 = 0;
    assert_eq!(m[0], 0);
    assert_eq!(m.len(), 1);

    let z = m.entry(1);
    assert_eq!(z.key(), &1);
    assert!(matches!(z, Entry::Vacant(_)));
    let v1 = z.or_default();
    *v1 = 1;
    assert_eq!(m[1], 1);
}

#[test]
fn test_with_example() {
    let mut m: Vec<u32> = vec![];
    let a = m.entry(1).or_default();
    assert_eq!(a, &0);
    *a = 1;
    let b = m.entry(3).or_insert(5);
    assert_eq!(b, &5);
    assert_eq!(m, vec![0, 1, 0, 5]);
    assert!(matches!(m.entry(2), Entry::Occupied(_)));
    assert!(matches!(m.entry(8), Entry::Vacant(_)));
}

#[test]
fn test_with_optionals() {
    let mut m: Vec<Option<u32>> = vec![Some(3)];
    let r = m.entry(2).or_insert(Some(5));
    assert_eq!(r, &Some(5));
    assert_eq!(m, vec![Some(3), None, Some(5)]);
}

#[test]
fn entry_is_occupied_exactly_below_the_length() {
    let mut m: Vec<u16> = vec![7, 8, 9];
    assert!(matches!(m.entry(0), Entry::Occupied(_)));
    assert!(matches!(m.entry(2), Entry::Occupied(_)));
    assert!(matches!(m.entry(3), Entry::Vacant(_)));
    assert!(matches!(m.entry(4), Entry::Vacant(_)));
    assert!(matches!(m.entry(1_000_000), Entry::Vacant(_)));
    assert!(matches!(m.entry(usize::MAX), Entry::Vacant(_)));
    assert_eq!(m, vec![7, 8, 9]);
}

#[test]
fn entry_into_an_empty_vec_is_vacant() {
    let mut m: Vec<u16> = Vec::new();
    assert!(matches!(m.entry(0), Entry::Vacant(_)));
    assert!(matches!(m.entry(5), Entry::Vacant(_)));
    assert!(m.is_empty());
}

#[test]
fn key_is_the_requested_key() {
    let mut m: Vec<u8> = vec![1, 2];
    assert_eq!(m.entry(1).key(), &1);
    assert_eq!(m.entry(2).key(), &2);
    assert_eq!(m.entry(usize::MAX).key(), &usize::MAX);
    match m.entry(0) {
        Entry::Occupied(entry) => assert_eq!(entry.key(), &0),
        Entry::Vacant(_) => panic!("slot 0 is in bounds"),
    }
    match m.entry(9) {
        Entry::Occupied(_) => panic!("slot 9 is out of bounds"),
        Entry::Vacant(entry) => assert_eq!(entry.key(), &9),
    }
}

#[test]
fn key_leaves_the_vec_untouched() {
    let mut m: Vec<u32> = vec![4, 5, 6];
    let before = m.clone();
    for k in [0usize, 2, 3, 40] {
        let e = m.entry(k);
        assert_eq!(*e.key(), k);
        assert_eq!(*e.key(), k);
        assert_eq!(m, before);
    }
}

#[test]
fn or_default_on_an_empty_vec_gives_key_plus_one_defaults() {
    for k in [0usize, 1, 2, 9, 64] {
        let mut m: Vec<i64> = Vec::new();
        let slot = m.entry(k).or_default();
        assert_eq!(*slot, 0);
        assert_eq!(m.len(), k + 1);
        assert!(m.iter().all(|x| *x == 0));
    }
}

#[test]
fn or_default_leaves_what_the_caller_writes() {
    let mut m: Vec<String> = Vec::new();
    let slot = m.entry(2).or_default();
    assert_eq!(slot, "");
    slot.push_str("two");
    assert_eq!(m, vec![String::new(), String::new(), String::from("two")]);
}

#[test]
fn or_insert_on_an_occupied_entry_drops_the_value() {
    let mut m: Vec<u32> = vec![10, 11, 12];
    let slot = m.entry(1).or_insert(99);
    assert_eq!(*slot, 11);
    *slot += 1;
    assert_eq!(m, vec![10, 12, 12]);
}

#[test]
fn or_insert_on_a_vacant_entry_fills_the_gap_with_defaults() {
    let mut m: Vec<u32> = vec![9];
    let slot = m.entry(4).or_insert(7);
    assert_eq!(*slot, 7);
    assert_eq!(m, vec![9, 0, 0, 0, 7]);
}

#[test]
fn or_insert_at_the_length_appends() {
    let mut m: Vec<u32> = vec![1, 2];
    let slot = m.entry(2).or_insert(3);
    assert_eq!(*slot, 3);
    assert_eq!(m, vec![1, 2, 3]);
}

#[test]
fn or_default_on_an_occupied_entry_keeps_the_length() {
    let mut m: Vec<u32> = vec![1, 2, 3];
    let slot = m.entry(2).or_default();
    assert_eq!(*slot, 3);
    assert_eq!(m, vec![1, 2, 3]);
}

#[test]
fn key_far_beyond_the_length_grows_the_vec() {
    let mut m: Vec<u8> = vec![1];
    let slot = m.entry(10_000).or_insert(2);
    assert_eq!(*slot, 2);
    assert_eq!(m.len(), 10_001);
    assert_eq!(m[0], 1);
    assert!(m[1..10_000].iter().all(|x| *x == 0));
    assert_eq!(m[10_000], 2);
}

#[test]
fn the_same_vacant_key_twice_is_vacant_twice() {
    let mut m: Vec<u8> = vec![1];
    assert!(matches!(m.entry(3), Entry::Vacant(_)));
    assert!(matches!(m.entry(3), Entry::Vacant(_)));
    assert_eq!(m, vec![1]);
    m.entry(3).or_insert(4);
    assert!(matches!(m.entry(3), Entry::Occupied(_)));
    assert!(matches!(m.entry(2), Entry::Occupied(_)));
}

#[test]
fn occupied_into_mut_hands_out_the_slot() {
    let mut m: Vec<u32> = vec![5, 6];
    match m.entry(1) {
        Entry::Occupied(entry) => {
            let slot = entry.into_mut();
            assert_eq!(*slot, 6);
            *slot = 60;
        }
        Entry::Vacant(_) => panic!("slot 1 is in bounds"),
    }
    assert_eq!(m, vec![5, 60]);
}

#[test]
fn vacant_insert_grows_and_stores() {
    let mut m: Vec<u32> = vec![5, 6];
    match m.entry(3) {
        Entry::Occupied(_) => panic!("slot 3 is out of bounds"),
        Entry::Vacant(entry) => {
            let slot = entry.insert(8);
            assert_eq!(*slot, 8);
            *slot = 80;
        }
    }
    assert_eq!(m, vec![5, 6, 0, 80]);
}

#[test]
fn or_default_past_the_end_appends_a_default() {
    let mut m: Vec<u8> = vec![20];
    let slot = m.entry(0).or_default();
    assert_eq!(*slot, 20);
    *slot = 0;
    assert_eq!(m, vec![0]);
    let slot = m.entry(1).or_default();
    assert_eq!(*slot, 0);
    assert_eq!(m, vec![0, 0]);
}
