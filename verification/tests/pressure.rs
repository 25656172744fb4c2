use hvac_core::pressure_history::CAPACITY;
use hvac_core::pressure_history::PressureHistory;

// Pressures are thousandths of a hectopascal.

#[test]
fn empty_history_yields_no_data() {
    let h = PressureHistory::new();
    assert_eq!(h.len(), 0);
    assert!(h.bme_series().is_empty());
    assert!(h.owm_series().is_empty());
    assert_eq!(h.bme_min_max(), None);
    assert_eq!(h.owm_min_max(), None);
    assert_eq!(h.latest_bme(), None);
    assert_eq!(h.latest_owm(), None);
    assert_eq!(h.delta_owm_bme_recent(12), None);
}

#[test]
fn push_always_advances_even_when_fields_are_absent() {
    let mut h = PressureHistory::new();
    h.push(None, None);
    h.push(None, None);
    assert_eq!(h.len(), 2);
    assert!(h.bme_series().is_empty());
    assert_eq!(h.latest_bme(), None);
}

#[test]
fn series_skips_absent_slots_and_keeps_logical_indices() {
    let mut h = PressureHistory::new();
    h.push(Some(1_000_000), None);
    h.push(None, Some(1_013_000));
    h.push(Some(999_000), Some(1_010_000));
    h.push(None, None);
    assert_eq!(h.bme_series(), vec![(0, 1_000_000), (2, 999_000)]);
    assert_eq!(h.owm_series(), vec![(1, 1_013_000), (2, 1_010_000)]);
}

#[test]
fn min_max_scans_only_present_values() {
    let mut h = PressureHistory::new();
    h.push(Some(1_000_000), None);
    h.push(None, Some(1_013_000));
    h.push(Some(999_000), Some(1_010_000));
    assert_eq!(h.bme_min_max(), Some((999_000, 1_000_000)));
    assert_eq!(h.owm_min_max(), Some((1_010_000, 1_013_000)));
}

#[test]
fn latest_walks_back_over_absent_slots() {
    let mut h = PressureHistory::new();
    h.push(Some(1_000_000), Some(1_013_000));
    h.push(Some(999_000), None);
    h.push(None, None);
    assert_eq!(h.latest_bme(), Some(999_000));
    assert_eq!(h.latest_owm(), Some(1_013_000));
}

#[test]
fn constant_thirteen_hpa_gap_over_twelve_slots_is_exact() {
    // channel_a = 1000.0 hPa, channel_b = 1013.0 hPa in every slot: the
    // trailing delta over 12 slots is exactly 13.0 hPa.
    let mut h = PressureHistory::new();
    for _ in 0..12 {
        h.push(Some(1_000_000), Some(1_013_000));
    }
    assert_eq!(h.delta_owm_bme_recent(12), Some(13_000));
}

#[test]
fn delta_counts_only_slots_where_both_are_present() {
    let mut h = PressureHistory::new();
    h.push(Some(1_000_000), None);
    h.push(None, Some(1_013_000));
    h.push(Some(999_000), Some(1_010_000));
    assert_eq!(h.delta_owm_bme_recent(10), Some(11_000));
}

#[test]
fn delta_window_is_limited_to_the_newest_n_slots() {
    let mut h = PressureHistory::new();
    h.push(Some(0), Some(100_000)); // outside the window below
    h.push(Some(0), Some(1_000));
    h.push(Some(0), Some(3_000));
    assert_eq!(h.delta_owm_bme_recent(2), Some(2_000));
}

#[test]
fn delta_mean_truncates_toward_zero() {
    let mut h = PressureHistory::new();
    h.push(Some(1_000), Some(999)); // -1
    h.push(Some(1_000), Some(998)); // -2
    assert_eq!(h.delta_owm_bme_recent(2), Some(-1));
    let mut g = PressureHistory::new();
    g.push(Some(1_000), Some(1_001)); // +1
    g.push(Some(1_000), Some(1_002)); // +2
    assert_eq!(g.delta_owm_bme_recent(2), Some(1));
}

#[test]
fn three_hundred_pushes_leave_exactly_capacity_newest() {
    let mut h = PressureHistory::new();
    for k in 0..300i32 {
        h.push(Some(k), None);
    }
    assert_eq!(h.len(), CAPACITY);
    let series = h.bme_series();
    assert_eq!(series.len(), CAPACITY);
    // The oldest 12 pushed values are gone; logical index 0 now holds the
    // 13th value pushed.
    assert_eq!(series[0], (0, 12));
    for (i, point) in series.iter().enumerate() {
        assert_eq!(*point, (i, i as i32 + 12));
    }
    assert_eq!(h.latest_bme(), Some(299));
    assert_eq!(h.bme_min_max(), Some((12, 299)));
}
