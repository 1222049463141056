use vec_entry::{ElementOfOptionalVec, OptionInterface, VecInterface};

type V = ElementOfOptionalVec<Vec<Option<u32>>>;

#[test]
fn test_type_alias() {
    let x: V = 3;
    let y: u32 = x;
    let _ = y;
}

#[test]
fn resize_with_fills_new_slots_in_ascending_order() {
    let mut next: u32 = 0;
    let mut v: Vec<u32> = vec![10, 20];
    VecInterface::resize_with(&mut v, 5, || {
        next += 1;
        next
    });
    assert_eq!(v, vec![10, 20, 1, 2, 3]);
    assert_eq!(next, 3);
}

#[test]
fn resize_with_truncates_without_calling_the_generator() {
    let mut calls: u32 = 0;
    let mut v: Vec<u32> = vec![10, 20, 30];
    VecInterface::resize_with(&mut v, 1, || {
        calls += 1;
        0
    });
    assert_eq!(v, vec![10]);
    VecInterface::resize_with(&mut v, 0, || {
        calls += 1;
        0
    });
    assert_eq!(v, Vec::<u32>::new());
    assert_eq!(calls, 0);
}

#[test]
fn resize_with_to_the_same_length_changes_nothing() {
    let mut calls: u32 = 0;
    let mut v: Vec<u32> = vec![10, 20, 30];
    VecInterface::resize_with(&mut v, 3, || {
        calls += 1;
        0
    });
    assert_eq!(v, vec![10, 20, 30]);
    assert_eq!(calls, 0);
}

#[test]
fn resize_with_default_fills_with_defaults() {
    let mut v: Vec<Option<u8>> = vec![Some(1)];
    VecInterface::resize_with(&mut v, 3, Default::default);
    assert_eq!(v, vec![Some(1), None, None]);
}

#[test]
fn len_is_the_number_of_slots() {
    let v: Vec<u8> = vec![1, 2, 3];
    assert_eq!(VecInterface::len(&v), 3);
    let empty: Vec<u8> = Vec::new();
    assert_eq!(VecInterface::len(&empty), 0);
}

#[test]
fn slot_mut_reaches_one_slot() {
    let mut v: Vec<u8> = vec![1, 2, 3];
    let slot = v.slot_mut(1);
    assert_eq!(*slot, 2);
    *slot = 20;
    assert_eq!(v, vec![1, 20, 3]);
}

#[test]
fn option_is_some_tells_whether_a_value_is_held() {
    let full: Option<u8> = Some(1);
    let empty: Option<u8> = None;
    assert!(OptionInterface::is_some(&full));
    assert!(!OptionInterface::is_some(&empty));
}

#[test]
fn option_as_mut_reaches_the_occupant() {
    let mut full: Option<u8> = Some(1);
    match OptionInterface::as_mut(&mut full) {
        Some(occupant) => {
            assert_eq!(*occupant, 1);
            *occupant = 2;
        }
        None => panic!("the slot holds a value"),
    }
    assert_eq!(full, Some(2));
    let mut empty: Option<u8> = None;
    assert!(OptionInterface::as_mut(&mut empty).is_none());
    assert_eq!(empty, None);
}

#[test]
fn option_insert_replaces_the_occupant() {
    let mut slot: Option<u8> = None;
    let occupant = OptionInterface::insert(&mut slot, 5);
    assert_eq!(*occupant, 5);
    *occupant = 6;
    assert_eq!(slot, Some(6));
    let occupant = OptionInterface::insert(&mut slot, 7);
    assert_eq!(*occupant, 7);
    assert_eq!(slot, Some(7));
}
