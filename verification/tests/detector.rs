use hvac_core::hvac::HvacDetector;
use hvac_core::hvac::HvacState;

// Temperatures are thousandths of a degree; timestamps are milliseconds.

#[test]
fn no_classification_until_window_full() {
    let mut d = HvacDetector::new(5, 30);
    d.detect(20_000, 0);
    d.detect(30_000, 5_000);
    d.detect(40_000, 10_000);
    // Three samples: the four-slot window is not yet full.
    assert_eq!(d.state(), HvacState::Idle);
}

#[test]
fn rising_sequence_flips_idle_to_heating_when_window_fills() {
    // 20.0, 20.0, 20.0, 20.6 degrees at 5-second spacing: slope
    // 0.6 / 0.25 min = 2.4 degrees per minute, far above the 0.03 threshold.
    let mut d = HvacDetector::new(5, 30);
    d.detect(20_000, 0);
    d.detect(20_000, 5_000);
    d.detect(20_000, 10_000);
    assert_eq!(d.state(), HvacState::Idle);
    d.detect(20_600, 15_000);
    assert_eq!(d.state(), HvacState::Heating);
}

#[test]
fn falling_sequence_flips_idle_to_cooling() {
    let mut d = HvacDetector::new(5, 30);
    d.detect(20_000, 0);
    d.detect(20_000, 5_000);
    d.detect(20_000, 10_000);
    d.detect(19_400, 15_000);
    assert_eq!(d.state(), HvacState::Cooling);
}

#[test]
fn slope_below_on_threshold_stays_idle() {
    // 0.005 degrees over 0.25 minutes: 0.02 degrees per minute < 0.03.
    let mut d = HvacDetector::new(5, 30);
    d.detect(20_000, 0);
    d.detect(20_000, 5_000);
    d.detect(20_000, 10_000);
    d.detect(20_005, 15_000);
    assert_eq!(d.state(), HvacState::Idle);
}

#[test]
fn threshold_boundary_slope_commits() {
    // Exactly 0.03 degrees per minute: 7.5 thousandths over 0.25 minutes.
    // The comparison is >=, so the boundary qualifies; one thousandth less
    // does not. 7.5 is not representable, so test 8 (qualifies) and 7 (not).
    let mut d = HvacDetector::new(5, 30);
    d.detect(20_000, 0);
    d.detect(20_000, 5_000);
    d.detect(20_000, 10_000);
    d.detect(20_007, 15_000);
    assert_eq!(d.state(), HvacState::Idle);

    let mut d = HvacDetector::new(5, 30);
    d.detect(20_000, 0);
    d.detect(20_000, 5_000);
    d.detect(20_000, 10_000);
    d.detect(20_008, 15_000);
    assert_eq!(d.state(), HvacState::Heating);
}

#[test]
fn confirmation_threshold_three_commits_on_third_proposal() {
    let mut d = HvacDetector::with_settings(5, 30, 3, 4);
    d.detect(20_000, 0);
    d.detect(20_000, 5_000);
    d.detect(20_000, 10_000);
    // First qualifying proposal.
    d.detect(20_600, 15_000);
    assert_eq!(d.state(), HvacState::Idle);
    // Second qualifying proposal.
    d.detect(21_200, 20_000);
    assert_eq!(d.state(), HvacState::Idle);
    // Third qualifying proposal commits.
    d.detect(21_800, 25_000);
    assert_eq!(d.state(), HvacState::Heating);
    assert_eq!(d.state_duration_secs(25_000), 0);
}

#[test]
fn interrupted_candidate_run_restarts_confirmation() {
    // With threshold 3, two qualifying proposals followed by a flat cycle
    // lose all partial credit; three fresh qualifying proposals are needed.
    let mut d = HvacDetector::with_settings(5, 30, 3, 4);
    d.detect(20_000, 0);
    d.detect(20_000, 5_000);
    d.detect(20_000, 10_000);
    d.detect(20_600, 15_000); // qualifying, count 1
    d.detect(21_200, 20_000); // qualifying, count 2
    // Window 20000, 20600, 21200, 20005: slope 0.005 / 0.25 = 0.02 per
    // minute, under the on threshold: the proposal is idle and credit is
    // lost.
    d.detect(20_005, 25_000);
    assert_eq!(d.state(), HvacState::Idle);
    d.detect(21_300, 30_000); // qualifying again: count restarts at 1
    assert_eq!(d.state(), HvacState::Idle);
    d.detect(21_300, 35_000); // delta over 21200 still qualifies: count 2
    assert_eq!(d.state(), HvacState::Idle);
    d.detect(21_300, 40_000); // count 3: commits
    assert_eq!(d.state(), HvacState::Heating);
}

#[test]
fn heating_is_sticky_until_slope_falls_below_off_threshold() {
    let mut d = HvacDetector::new(5, 30);
    d.detect(20_000, 0);
    d.detect(20_000, 5_000);
    d.detect(20_000, 10_000);
    d.detect(20_600, 15_000);
    assert_eq!(d.state(), HvacState::Heating);
    // Window 20000,20000,20600,20700: slope still well above 0.01/min.
    d.detect(20_700, 20_000);
    assert_eq!(d.state(), HvacState::Heating);
    // Hold flat: once the window is flat the slope is 0 < 0.01 -> idle.
    d.detect(20_700, 25_000);
    d.detect(20_700, 30_000);
    d.detect(20_700, 35_000);
    assert_eq!(d.state(), HvacState::Idle);
}

#[test]
fn state_duration_counts_from_last_transition() {
    let mut d = HvacDetector::new(5, 30);
    d.detect(20_000, 1_000);
    // First sample anchors the start time.
    assert_eq!(d.state_duration_secs(6_000), 5);
    d.detect(20_000, 6_000);
    d.detect(20_000, 11_000);
    d.detect(20_600, 16_000);
    assert_eq!(d.state(), HvacState::Heating);
    assert_eq!(d.state_duration_secs(16_000), 0);
    assert_eq!(d.state_duration_secs(19_500), 3);
}

#[test]
fn state_duration_survives_clock_wraparound() {
    let mut d = HvacDetector::new(5, 30);
    d.detect(20_000, 0xFFFF_F000);
    // 0x1000 + 0x2000 milliseconds after the anchor, the 32-bit clock has
    // wrapped; unsigned wraparound subtraction still reports 12 seconds.
    assert_eq!(d.state_duration_secs(0x0000_2000), 12);
}

#[test]
fn record_appends_current_state() {
    let mut d = HvacDetector::new(5, 30);
    assert_eq!(d.history_count(), 0);
    d.record();
    d.record();
    assert_eq!(d.history_count(), 2);
}

#[test]
fn stats_over_all_idle_history_reports_no_cycles() {
    let mut d = HvacDetector::new(5, 30);
    for _ in 0..5 {
        d.record();
    }
    let s = d.stats();
    assert_eq!(s.heat.cycles, 0);
    assert_eq!(s.cool.cycles, 0);
    assert_eq!(s.heat.avg_cycle_mins, 0);
    assert_eq!(s.cool.avg_cycle_mins, 0);
    assert_eq!(s.heat.total_minutes, 0);
    assert_eq!(s.cool.total_minutes, 0);
    // 5 samples at 30 seconds: 2.5 minutes, rounded to 3.
    assert_eq!(s.history_minutes, 3);
}

#[test]
fn stats_on_empty_history_is_all_zero() {
    let d = HvacDetector::new(5, 30);
    let s = d.stats();
    assert_eq!(s.heat.cycles, 0);
    assert_eq!(s.cool.cycles, 0);
    assert_eq!(s.history_minutes, 0);
}

fn drive_to_heating(d: &mut HvacDetector, t0: u32) {
    d.detect(20_000, t0);
    d.detect(20_000, t0 + 5_000);
    d.detect(20_000, t0 + 10_000);
    d.detect(20_600, t0 + 15_000);
    assert_eq!(d.state(), HvacState::Heating);
}

#[test]
fn six_sample_run_is_a_short_cycle() {
    // 6 recorded samples at 30-second cadence are 3.0 minutes: shorter
    // than the 4-minute bound, so one short cycle.
    let mut d = HvacDetector::new(5, 30);
    drive_to_heating(&mut d, 0);
    for _ in 0..6 {
        d.record();
    }
    let s = d.stats();
    assert_eq!(s.heat.cycles, 1);
    assert_eq!(s.heat.total_minutes, 3);
    assert_eq!(s.heat.short_cycles, 1);
    assert_eq!(s.heat.avg_cycle_mins, 3);
    assert_eq!(s.heat.longest_cycle_mins, 3);
}

#[test]
fn ten_sample_run_is_not_a_short_cycle() {
    // 10 recorded samples at 30-second cadence are 5.0 minutes.
    let mut d = HvacDetector::new(5, 30);
    drive_to_heating(&mut d, 0);
    for _ in 0..10 {
        d.record();
    }
    let s = d.stats();
    assert_eq!(s.heat.cycles, 1);
    assert_eq!(s.heat.total_minutes, 5);
    assert_eq!(s.heat.short_cycles, 0);
    assert_eq!(s.heat.avg_cycle_mins, 5);
}

#[test]
fn stats_aggregates_runs_per_mode() {
    let mut d = HvacDetector::new(5, 30);
    // idle, idle, then a heating run of 2, then a cooling run of 3.
    d.record();
    d.record();
    drive_to_heating(&mut d, 0);
    d.record();
    d.record();
    // Flatten back to idle, then dive to cooling.
    d.detect(20_600, 20_000);
    d.detect(20_600, 25_000);
    d.detect(20_600, 30_000);
    d.detect(20_600, 35_000);
    assert_eq!(d.state(), HvacState::Idle);
    d.detect(20_000, 40_000);
    assert_eq!(d.state(), HvacState::Cooling);
    d.record();
    d.record();
    d.record();
    let s = d.stats();
    // Heating: one run of 2 samples = 60 s -> (60+30)/60 = 1 minute.
    assert_eq!(s.heat.cycles, 1);
    assert_eq!(s.heat.total_minutes, 1);
    assert_eq!(s.heat.short_cycles, 1);
    // Cooling: one run of 3 samples = 90 s -> 2 minutes.
    assert_eq!(s.cool.cycles, 1);
    assert_eq!(s.cool.total_minutes, 2);
    assert_eq!(s.cool.short_cycles, 1);
    // 7 samples at 30 s = 3.5 minutes, rounded to 4.
    assert_eq!(s.history_minutes, 4);
}

#[test]
fn two_heating_cycles_average_their_lengths() {
    let mut d = HvacDetector::new(5, 30);
    drive_to_heating(&mut d, 0);
    for _ in 0..6 {
        d.record();
    }
    // Flatten back to idle for one recorded sample.
    d.detect(20_600, 20_000);
    d.detect(20_600, 25_000);
    d.detect(20_600, 30_000);
    assert_eq!(d.state(), HvacState::Idle);
    d.record();
    // Heat again for ten samples.
    d.detect(21_200, 35_000);
    assert_eq!(d.state(), HvacState::Heating);
    for _ in 0..10 {
        d.record();
    }
    let s = d.stats();
    // Runs of 6 and 10 samples at 30 s: 3 and 5 minutes.
    assert_eq!(s.heat.cycles, 2);
    assert_eq!(s.heat.total_minutes, 8);
    assert_eq!(s.heat.avg_cycle_mins, 4);
    assert_eq!(s.heat.longest_cycle_mins, 5);
    assert_eq!(s.heat.short_cycles, 1);
    // 17 samples at 30 s = 8.5 minutes, rounded to 9.
    assert_eq!(s.history_minutes, 9);
}

#[test]
fn history_saturates_at_twenty_four_hours() {
    let mut d = HvacDetector::new(5, 30);
    for _ in 0..2_900 {
        d.record();
    }
    // 24 h at 30 s per sample is 2880 slots.
    assert_eq!(d.history_count(), 2_880);
    let s = d.stats();
    assert_eq!(s.history_minutes, 1_440);
}

#[test]
fn state_names_match_display_labels() {
    assert_eq!(HvacState::Idle.name(), "IDLE");
    assert_eq!(HvacState::Heating.name(), "HEATING");
    assert_eq!(HvacState::Cooling.name(), "COOLING");
}
