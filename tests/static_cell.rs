use static_cell::StaticCell;

fn leaked<T>() -> &'static mut StaticCell<T> {
    Box::leak(Box::new(StaticCell::new()))
}

#[test]
fn test_static_cell() {
    let cell: &'static mut StaticCell<u32> = leaked();
    let val: &'static u32 = cell.init(42u32);
    assert_eq!(*val, 42);
}

#[test]
fn test_make_static() {
    let cell: &'static mut StaticCell<(u32,)> = leaked();
    let (x,) = cell.uninit().write((42u32,));
    let val: &'static u32 = x;
    assert_eq!(*val, 42);
}

#[test]
fn late_init_then_try_init_is_refused() {
    let mut cell: StaticCell<u32> = StaticCell::new();
    let val = cell.try_init(42).unwrap();
    assert_eq!(*val, 42);
    *val = 43;
    assert!(cell.try_init(7).is_none());
}

#[test]
fn late_init_reads_value_through_handle() {
    let cell: &'static mut StaticCell<u64> = leaked();
    let val: &'static mut u64 = cell.init(0x1234_5678_9abc_def0);
    assert_eq!(*val, 0x1234_5678_9abc_def0);
    *val += 1;
    assert_eq!(*val, 0x1234_5678_9abc_def1);
}

#[test]
fn second_claim_fails_now_and_later() {
    let mut cell: StaticCell<u32> = StaticCell::new();
    assert!(cell.try_init(1).is_some());
    assert!(cell.try_init(2).is_none());
    assert!(cell.try_uninit().is_none());
    let mut built = false;
    assert!(cell.try_init_with(|| {
        built = true;
        3
    })
    .is_none());
    assert!(!built);
    for i in 0..100u32 {
        assert!(cell.try_init(i).is_none());
    }
    assert!(cell.try_init(4).is_none());
}

#[test]
fn sixteen_claims_in_turn_one_wins() {
    let mut cell: StaticCell<u32> = StaticCell::new();
    let mut winners: Vec<u32> = Vec::new();
    for tid in 0..16u32 {
        if let Some(v) = cell.try_init(tid) {
            winners.push(*v);
        }
    }
    assert_eq!(winners.len(), 1);
    assert!(winners[0] < 16);
    assert_eq!(winners[0], 0);
}

#[test]
fn init_with_builds_after_claim() {
    let mut cell: StaticCell<Vec<u8>> = StaticCell::new();
    let v = cell.init_with(|| vec![1, 2, 3]);
    assert_eq!(v, &vec![1, 2, 3]);
}

#[test]
fn try_init_with_builds_once() {
    let mut cell: StaticCell<String> = StaticCell::new();
    let s = cell.try_init_with(|| String::from("first")).unwrap();
    assert_eq!(s.as_str(), "first");
    assert!(cell.try_init_with(|| String::from("second")).is_none());
}

#[test]
fn large_buffer_built_in_place() {
    let cell: &'static mut StaticCell<[u8; 65536]> = leaked();
    let buf = cell.init_with(|| [0u8; 65536]);
    assert_eq!(buf.len(), 65536);
    assert!(buf.iter().all(|b| *b == 0));
    buf[65535] = 9;
    assert_eq!(buf[65535], 9);
}

#[test]
fn uninit_storage_written_by_caller() {
    let mut cell: StaticCell<u16> = StaticCell::new();
    let slot = cell.uninit();
    let v = slot.write(500);
    assert_eq!(*v, 500);
    assert!(cell.try_uninit().is_none());
}

#[test]
fn zero_sized_late_cell_still_discriminates() {
    let mut cell: StaticCell<()> = StaticCell::new();
    assert!(cell.try_init(()).is_some());
    assert!(cell.try_init(()).is_none());
}
