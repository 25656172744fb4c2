use hvac_core::debug_flags::DebugFlag;
use hvac_core::debug_flags::DebugFlags;
use hvac_core::debug_flags::OrientationMode;
use hvac_core::http_client::body_is_json_object;
use hvac_core::tones::AlertTone;

#[test]
fn flags_start_clear_and_toggle_flips() {
    let mut f = DebugFlags::new();
    assert!(!f.is_on(DebugFlag::Touch));
    assert!(f.toggle(DebugFlag::Touch));
    assert!(f.is_on(DebugFlag::Touch));
    assert!(!f.is_on(DebugFlag::Wifi));
    assert!(!f.toggle(DebugFlag::Touch));
    assert!(!f.is_on(DebugFlag::Touch));
}

#[test]
fn set_changes_only_the_addressed_flag() {
    let mut f = DebugFlags::new();
    f.set(DebugFlag::Weather, true);
    assert!(f.is_on(DebugFlag::Weather));
    assert!(!f.is_on(DebugFlag::Touch));
    assert!(!f.is_on(DebugFlag::Bme280));
    assert!(!f.is_on(DebugFlag::Wifi));
    assert!(!f.is_on(DebugFlag::Imu));
}

#[test]
fn status_line_reports_each_switch() {
    let mut f = DebugFlags::new();
    assert_eq!(
        f.status_line(),
        "touch=off bme280=off wifi=off weather=off imu=off"
    );
    f.set(DebugFlag::Touch, true);
    f.set(DebugFlag::Imu, true);
    assert_eq!(
        f.status_line(),
        "touch=ON bme280=off wifi=off weather=off imu=ON"
    );
}

#[test]
fn orientation_request_is_taken_once() {
    let mut f = DebugFlags::new();
    assert_eq!(f.take_orientation_mode_request(), None);
    f.request_orientation_mode(OrientationMode::Landscape);
    assert_eq!(
        f.take_orientation_mode_request(),
        Some(OrientationMode::Landscape)
    );
    assert_eq!(f.take_orientation_mode_request(), None);
    f.request_orientation_mode(OrientationMode::Auto);
    assert_eq!(f.take_orientation_mode_request(), Some(OrientationMode::Auto));
    f.request_orientation_mode(OrientationMode::Portrait);
    assert_eq!(
        f.take_orientation_mode_request(),
        Some(OrientationMode::Portrait)
    );
}

#[test]
fn orientation_flip_request_round_trips() {
    let mut f = DebugFlags::new();
    assert_eq!(f.take_orientation_flip_request(), None);
    f.request_orientation_flip(true);
    assert_eq!(f.take_orientation_flip_request(), Some(true));
    assert_eq!(f.take_orientation_flip_request(), None);
    f.request_orientation_flip(false);
    assert_eq!(f.take_orientation_flip_request(), Some(false));
}

#[test]
fn beep_requests_follow_the_console_protocol() {
    let mut f = DebugFlags::new();
    assert_eq!(f.take_beep_tone_request(), None);
    f.request_beep_tone(2);
    assert_eq!(f.take_beep_tone_request(), Some(2));
    assert_eq!(f.take_beep_tone_request(), None);
    // A code outside the known range is swallowed.
    f.request_beep_tone(7);
    assert_eq!(f.take_beep_tone_request(), None);
    // Requesting a tone cancels a pending stop.
    f.request_beep_stop();
    f.request_beep_tone(0);
    assert!(!f.take_beep_stop_request());
    f.request_beep_stop();
    assert!(f.take_beep_stop_request());
    assert!(!f.take_beep_stop_request());
}

#[test]
fn alert_tones_decode_known_codes_only() {
    assert_eq!(AlertTone::from_request(0), Some(AlertTone::Advisory));
    assert_eq!(AlertTone::from_request(1), Some(AlertTone::Watch));
    assert_eq!(AlertTone::from_request(2), Some(AlertTone::Warning));
    assert_eq!(AlertTone::from_request(3), None);
    assert_eq!(AlertTone::from_request(-1), None);
}

#[test]
fn alert_tone_labels() {
    assert_eq!(AlertTone::Advisory.as_str(), "advisory");
    assert_eq!(AlertTone::Watch.as_str(), "watch");
    assert_eq!(AlertTone::Warning.as_str(), "warning");
}

#[test]
fn json_object_bodies_are_recognised() {
    assert!(body_is_json_object(b"{\"a\":1}"));
    assert!(body_is_json_object(b"  \t\r\n{\"a\":1}"));
    assert!(!body_is_json_object(b"[1,2,3]"));
    assert!(!body_is_json_object(b""));
    assert!(!body_is_json_object(b"   "));
    assert!(!body_is_json_object(b"x{"));
}
