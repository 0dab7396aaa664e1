use ibc_monitor::height::Height;
use ibc_monitor::height::RawHeight;

#[test]
fn heights_compare_by_revision_first() {
    assert!(Height::new(1, 900) < Height::new(2, 1));
    assert!(Height::new(2, 1) > Height::new(1, 900));
    assert!(!(Height::new(2, 1) < Height::new(1, 900)));
}

#[test]
fn heights_of_one_revision_compare_by_block_height() {
    assert!(Height::new(3, 4) < Height::new(3, 5));
    assert!(Height::new(3, 5) > Height::new(3, 4));
    assert!(Height::new(3, 5) >= Height::new(3, 5));
    assert!(Height::new(3, 5) <= Height::new(3, 5));
    assert!(!(Height::new(3, 5) < Height::new(3, 5)));
}

#[test]
fn height_order_is_reflexive_antisymmetric_and_transitive() {
    let a = Height::new(0, 7);
    let b = Height::new(1, 2);
    let c = Height::new(1, 3);
    assert!(a <= a && b <= b && c <= c);
    assert!(a <= b && !(b <= a));
    assert!(a < b && b < c && a < c);
    assert_eq!(a.partial_cmp(&a), Some(std::cmp::Ordering::Equal));
    assert_eq!(a.partial_cmp(&b), Some(std::cmp::Ordering::Less));
    assert_eq!(c.partial_cmp(&b), Some(std::cmp::Ordering::Greater));
}

#[test]
fn derived_and_written_orders_of_heights_agree() {
    let heights = [
        Height::new(0, 0),
        Height::new(0, 1),
        Height::new(0, u64::MAX),
        Height::new(1, 0),
        Height::new(1, 1),
        Height::new(u64::MAX, 0),
        Height::new(u64::MAX, u64::MAX),
    ];
    for a in heights.iter() {
        for b in heights.iter() {
            assert_eq!(a.partial_cmp(b), Some(a.cmp(b)));
        }
    }
}

#[test]
fn zero_height_stands_for_latest() {
    assert!(Height::zero().is_zero());
    assert_eq!(Height::zero(), Height::new(0, 0));
    assert_eq!(Height::default(), Height::zero());
    assert!(Height::new(4, 0).is_zero());
    assert!(!Height::new(0, 1).is_zero());
}

#[test]
fn raw_height_roundtrip() {
    let h = Height::new(7, 11);
    let raw = RawHeight::from(h);
    assert_eq!(raw, RawHeight { revision_number: 7, revision_height: 11 });
    assert_eq!(Height::from(raw), h);
    let back: Height = raw.into();
    assert_eq!(back, h);
}
