use openauto_bridge::hardware::{decode_levels, DriveMode, GpioLevels, PinConfig, SignalStatus};

fn all_high() -> GpioLevels {
    GpioLevels {
        headlight: true,
        drive_first: true,
        drive_second: true,
        left_turn: true,
        right_turn: true,
        brake: true,
    }
}

#[test]
fn default_pins_match_the_wiring() {
    let p = PinConfig::default();
    assert_eq!(p.headlight_pin, 18);
    assert_eq!(p.drive_mode_pins, (23, 24));
    assert_eq!(p.battery_adc_channel, 0);
    assert_eq!(p.left_turn_pin, 25);
    assert_eq!(p.right_turn_pin, 8);
    assert_eq!(p.brake_pin, 7);
}

#[test]
fn released_switches_read_high() {
    let r = decode_levels(&all_high());
    assert!(!r.headlights_on);
    assert_eq!(r.drive_mode, DriveMode::Park);
    assert_eq!(
        r.signals,
        SignalStatus { left_turn: false, right_turn: false, hazard: false, brake: false }
    );
}

#[test]
fn drive_selector_encodes_four_modes() {
    assert_eq!(DriveMode::from_switches(false, false), DriveMode::Park);
    assert_eq!(DriveMode::from_switches(false, true), DriveMode::Reverse);
    assert_eq!(DriveMode::from_switches(true, false), DriveMode::Neutral);
    assert_eq!(DriveMode::from_switches(true, true), DriveMode::Forward);
    let mut l = all_high();
    l.drive_first = false;
    assert_eq!(decode_levels(&l).drive_mode, DriveMode::Neutral);
    l.drive_second = false;
    assert_eq!(decode_levels(&l).drive_mode, DriveMode::Forward);
}

#[test]
fn both_turn_signals_mean_hazard() {
    let mut l = all_high();
    l.left_turn = false;
    let one = decode_levels(&l);
    assert!(one.signals.left_turn && !one.signals.hazard);
    l.right_turn = false;
    l.brake = false;
    l.headlight = false;
    let both = decode_levels(&l);
    assert_eq!(
        both.signals,
        SignalStatus { left_turn: true, right_turn: true, hazard: true, brake: true }
    );
    assert!(both.headlights_on);
    assert_eq!(
        SignalStatus::from_switches(true, false, true),
        SignalStatus { left_turn: true, right_turn: false, hazard: false, brake: true }
    );
}
