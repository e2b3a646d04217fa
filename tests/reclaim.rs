use static_cell::{Phase, ReclaimCell, ReclaimError};

#[test]
fn return_and_reclaim_sees_write() {
    let mut cell = ReclaimCell::with_value(1u32);
    let h = cell.checkout();
    assert_eq!(*h, 1);
    *h = 2;
    cell.give_back();
    let h = cell.checkout();
    assert_eq!(*h, 2);
}

#[test]
fn return_on_other_cell_is_refused() {
    let mut a = ReclaimCell::with_value(1u32);
    let mut b = ReclaimCell::with_value(5u32);
    let h = a.checkout();
    *h = 3;
    assert_eq!(b.try_give_back(), Err(ReclaimError::NotCheckedOut));
    assert_eq!(a.try_checkout().err(), Some(ReclaimError::AlreadyCheckedOut));
    assert_eq!(*b.checkout(), 5);
    a.give_back();
    assert_eq!(*a.checkout(), 3);
}

#[test]
fn checkout_and_return_leave_cell_ready() {
    let mut cell = ReclaimCell::with_value(String::from("kept"));
    let h = cell.checkout();
    assert_eq!(h.as_str(), "kept");
    assert_eq!(cell.try_give_back(), Ok(()));
    assert_eq!(cell.try_give_back(), Err(ReclaimError::NotCheckedOut));
    let h = cell.try_checkout().ok().unwrap();
    assert_eq!(h.as_str(), "kept");
}

#[test]
fn init_checks_out_at_once() {
    let mut cell: ReclaimCell<u8> = ReclaimCell::new();
    assert_eq!(cell.try_checkout().err(), Some(ReclaimError::NotInitialized));
    assert_eq!(cell.try_give_back(), Err(ReclaimError::NotInitialized));
    let h = cell.init(9);
    assert_eq!(*h, 9);
    assert_eq!(cell.try_checkout().err(), Some(ReclaimError::AlreadyCheckedOut));
    assert!(cell.try_init(1).is_none());
    cell.give_back();
    assert!(cell.try_init(1).is_none());
    assert_eq!(*cell.checkout(), 9);
}

#[test]
fn reclaim_init_with_builds_after_claim() {
    let mut cell: ReclaimCell<Vec<u8>> = ReclaimCell::new();
    let h = cell.init_with(|| vec![4, 5]);
    h.push(6);
    cell.give_back();
    let mut built = false;
    assert!(cell
        .try_init_with(|| {
            built = true;
            Vec::new()
        })
        .is_none());
    assert!(!built);
    assert_eq!(cell.checkout(), &vec![4, 5, 6]);
}

#[test]
fn reclaim_try_init_with_builds_once() {
    let mut cell: ReclaimCell<u64> = ReclaimCell::new();
    assert_eq!(cell.try_init_with(|| 40 + 2).copied(), Some(42));
    assert!(cell.try_init_with(|| 0).is_none());
    cell.give_back();
    assert_eq!(*cell.checkout(), 42);
}

#[test]
fn one_holder_between_returns() {
    let mut cell = ReclaimCell::with_value(0u32);
    for round in 1..=5u32 {
        let h = cell.try_checkout().ok().unwrap();
        *h += round;
        for _ in 0..3 {
            assert_eq!(cell.try_checkout().err(), Some(ReclaimError::AlreadyCheckedOut));
        }
        cell.give_back();
    }
    assert_eq!(*cell.checkout(), 15);
}

#[test]
fn zero_sized_reclaim_still_discriminates() {
    let mut cell = ReclaimCell::with_value(());
    cell.checkout();
    assert_eq!(cell.try_checkout().err(), Some(ReclaimError::AlreadyCheckedOut));
    cell.give_back();
    assert!(cell.try_checkout().is_ok());
}

#[test]
fn phases_compare() {
    assert_ne!(Phase::Empty, Phase::Held);
    assert_eq!(Phase::Ready, Phase::Ready);
}
