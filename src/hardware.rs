use vstd::prelude::*;

verus! {

/// The position of the drive selector.
#[derive(Clone, Copy, Debug, PartialEq, Eq, Structural)]
pub enum DriveMode {
    Park,
    Reverse,
    Neutral,
    Forward,
    Unknown,
}

/// The turn signals, the hazard lights and the brake.
#[derive(Clone, Copy, Debug, PartialEq, Eq, Structural)]
pub struct SignalStatus {
    pub left_turn: bool,
    pub right_turn: bool,
    pub hazard: bool,
    pub brake: bool,
}

/// Which GPIO lines the inputs are wired to.
#[derive(Clone, Copy, Debug)]
pub struct PinConfig {
    pub headlight_pin: u8,
    /// Two lines that together encode four drive modes.
    pub drive_mode_pins: (u8, u8),
    /// The ADC channel of the battery voltage.
    pub battery_adc_channel: u8,
    pub left_turn_pin: u8,
    pub right_turn_pin: u8,
    pub brake_pin: u8,
}

impl Default for PinConfig {
    fn default() -> (r: PinConfig)
        ensures
            r.headlight_pin == 18,
            r.drive_mode_pins == (23u8, 24u8),
            r.battery_adc_channel == 0,
            r.left_turn_pin == 25,
            r.right_turn_pin == 8,
            r.brake_pin == 7,
    {
        PinConfig {
            headlight_pin: 18,
            drive_mode_pins: (23, 24),
            battery_adc_channel: 0,
            left_turn_pin: 25,
            right_turn_pin: 8,
            brake_pin: 7,
        }
    }
}

/// The levels read on the input lines, `true` for high.
///
/// Every input is pulled up, so a switch that is on pulls its line low.
#[derive(Clone, Copy, Debug, PartialEq, Eq, Structural)]
pub struct GpioLevels {
    pub headlight: bool,
    /// The two drive selector lines.
    pub drive_first: bool,
    pub drive_second: bool,
    pub left_turn: bool,
    pub right_turn: bool,
    pub brake: bool,
}

/// What the input lines say.
#[derive(Clone, Copy, Debug, PartialEq, Eq, Structural)]
pub struct InputReading {
    pub headlights_on: bool,
    pub drive_mode: DriveMode,
    pub signals: SignalStatus,
}

impl DriveMode {
    pub open spec fn spec_from_switches(first: bool, second: bool) -> DriveMode {
        match (first, second) {
            (false, false) => DriveMode::Park,
            (false, true) => DriveMode::Reverse,
            (true, false) => DriveMode::Neutral,
            (true, true) => DriveMode::Forward,
        }
    }

    /// The drive mode that the two selector switches encode.
    pub fn from_switches(first: bool, second: bool) -> (r: DriveMode)
        ensures
            r == DriveMode::spec_from_switches(first, second),
    {
        match (first, second) {
            (false, false) => DriveMode::Park,
            (false, true) => DriveMode::Reverse,
            (true, false) => DriveMode::Neutral,
            (true, true) => DriveMode::Forward,
        }
    }
}

impl SignalStatus {
    /// The signals for these switches: the hazard lights are on exactly when
    /// both turn signals are.
    pub fn from_switches(left_turn: bool, right_turn: bool, brake: bool) -> (r: SignalStatus)
        ensures
            r == (SignalStatus { left_turn, right_turn, hazard: left_turn && right_turn, brake }),
    {
        SignalStatus { left_turn, right_turn, hazard: left_turn && right_turn, brake }
    }
}

/// Decodes the levels of the (active-low) input lines.
pub fn decode_levels(levels: &GpioLevels) -> (r: InputReading)
    ensures
        r.headlights_on == !levels.headlight,
        r.drive_mode == DriveMode::spec_from_switches(!levels.drive_first, !levels.drive_second),
        r.signals == (SignalStatus {
            left_turn: !levels.left_turn,
            right_turn: !levels.right_turn,
            hazard: !levels.left_turn && !levels.right_turn,
            brake: !levels.brake,
        }),
{
    InputReading {
        headlights_on: !levels.headlight,
        drive_mode: DriveMode::from_switches(!levels.drive_first, !levels.drive_second),
        signals: SignalStatus::from_switches(!levels.left_turn, !levels.right_turn, !levels.brake),
    }
}

} // verus!
