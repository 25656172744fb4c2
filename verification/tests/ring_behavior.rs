use hvac_core::ring::Ring;

#[test]
fn empty_ring_has_no_entries() {
    let r: Ring<u32> = Ring::new(3, 0);
    assert_eq!(r.len(), 0);
}

#[test]
fn pushes_below_capacity_keep_everything_in_order() {
    let mut r: Ring<u32> = Ring::new(3, 0);
    r.push(10);
    r.push(20);
    assert_eq!(r.len(), 2);
    assert_eq!(r.get(0), 10);
    assert_eq!(r.get(1), 20);
}

#[test]
fn push_past_capacity_overwrites_oldest() {
    let mut r: Ring<u32> = Ring::new(3, 0);
    r.push(1);
    r.push(2);
    r.push(3);
    r.push(4);
    assert_eq!(r.len(), 3);
    assert_eq!(r.get(0), 2);
    assert_eq!(r.get(1), 3);
    assert_eq!(r.get(2), 4);
}

#[test]
fn long_push_sequence_retains_exactly_last_capacity_values() {
    let mut r: Ring<u64> = Ring::new(5, 0);
    for k in 0..137u64 {
        r.push(k);
    }
    assert_eq!(r.len(), 5);
    for i in 0..5usize {
        assert_eq!(r.get(i), 132 + i as u64);
    }
}
