//! The library's own model of the watched configuration domains.
//!
//! Snapshots of these types are diffed field by field; fractional settings
//! (acceleration speed, scroll factor, calibration entries) are carried in
//! thousandths, so that every field is a plain, exactly comparable value.

use vstd::prelude::*;

verus! {

/// Whether an input device is active.
#[derive(Clone, Copy, Debug, PartialEq, Eq, Structural)]
pub enum DeviceState {
    Enabled,
    Disabled,
    DisabledOnExternalMouse,
}

/// Pointer acceleration profile.
#[derive(Clone, Copy, Debug, PartialEq, Eq, Structural)]
pub enum AccelProfile {
    Flat,
    Adaptive,
}

/// How physical clicks are generated on a touchpad.
#[derive(Clone, Copy, Debug, PartialEq, Eq, Structural)]
pub enum ClickMethod {
    ButtonAreas,
    Clickfinger,
}

/// How scrolling is triggered.
#[derive(Clone, Copy, Debug, PartialEq, Eq, Structural)]
pub enum ScrollMethod {
    NoScroll,
    TwoFinger,
    Edge,
    OnButtonDown,
}

/// Which buttons multi-finger taps map to.
#[derive(Clone, Copy, Debug, PartialEq, Eq, Structural)]
pub enum TapButtonMap {
    LeftRightMiddle,
    LeftMiddleRight,
}

/// Numlock behaviour at boot.
#[derive(Clone, Copy, Debug, PartialEq, Eq, Structural)]
pub enum NumlockState {
    BootOn,
    BootOff,
    LastBoot,
}

/// Pointer acceleration settings. `speed` is in thousandths; the accepted
/// range of the compositors is [-1.0, 1.0], that is [-1000, 1000] here.
#[derive(Clone, Copy, Debug, PartialEq, Eq, Structural)]
pub struct AccelConfig {
    pub profile: Option<AccelProfile>,
    pub speed: i64,
}

/// Scroll settings bundled as one composite field. `scroll_factor` is in
/// thousandths.
#[derive(Clone, Copy, Debug, PartialEq, Eq, Structural)]
pub struct ScrollConfig {
    pub method: Option<ScrollMethod>,
    pub natural_scroll: Option<bool>,
    pub scroll_button: Option<u32>,
    pub scroll_factor: Option<i64>,
}

/// Tap settings bundled as one composite field.
#[derive(Clone, Copy, Debug, PartialEq, Eq, Structural)]
pub struct TapConfig {
    pub enabled: bool,
    pub button_map: Option<TapButtonMap>,
    pub drag: bool,
    pub drag_lock: bool,
}

/// Calibration matrix entries in thousandths, row-major.
#[derive(Clone, Copy, Debug, PartialEq, Eq, Structural)]
pub struct Calibration {
    pub m0: i64,
    pub m1: i64,
    pub m2: i64,
    pub m3: i64,
    pub m4: i64,
    pub m5: i64,
}

/// One full snapshot of a pointing device's configuration domain.
///
/// A field that is `None` means "leave unchanged", never "clear".
#[derive(Clone, Debug, PartialEq)]
pub struct InputConfig {
    pub state: DeviceState,
    pub acceleration: Option<AccelConfig>,
    pub calibration: Option<Calibration>,
    pub click_method: Option<ClickMethod>,
    pub disable_while_typing: Option<bool>,
    pub left_handed: Option<bool>,
    pub middle_button_emulation: Option<bool>,
    pub rotation_angle: Option<u32>,
    pub scroll_config: Option<ScrollConfig>,
    pub tap_config: Option<TapConfig>,
    pub map_to_output: Option<String>,
}

/// One full snapshot of the keyboard layout domain.
#[derive(Clone, Debug, PartialEq)]
pub struct XkbConfig {
    pub rules: String,
    pub model: String,
    pub layout: String,
    pub variant: String,
    pub options: Option<String>,
    pub repeat_delay: u32,
    pub repeat_rate: u32,
}

/// One full snapshot of the keyboard boot-behaviour domain.
#[derive(Clone, Copy, Debug, PartialEq, Eq, Structural)]
pub struct KeyboardConfig {
    pub numlock_state: NumlockState,
}

/// Equality of optional strings, compared by contents.
pub open spec fn opt_string_eqv(a: Option<String>, b: Option<String>) -> bool {
    match (a, b) {
        (Option::None, Option::None) => true,
        (Option::Some(x), Option::Some(y)) => x@ == y@,
        _ => false,
    }
}

/// Structural equality of two device snapshots, with strings compared by
/// contents. This is the predicate the diff engine filters rewrites by.
pub open spec fn input_config_eqv(a: InputConfig, b: InputConfig) -> bool {
    &&& a.state == b.state
    &&& a.acceleration == b.acceleration
    &&& a.calibration == b.calibration
    &&& a.click_method == b.click_method
    &&& a.disable_while_typing == b.disable_while_typing
    &&& a.left_handed == b.left_handed
    &&& a.middle_button_emulation == b.middle_button_emulation
    &&& a.rotation_angle == b.rotation_angle
    &&& a.scroll_config == b.scroll_config
    &&& a.tap_config == b.tap_config
    &&& opt_string_eqv(a.map_to_output, b.map_to_output)
}

/// Structural equality of two keyboard layout snapshots, with strings
/// compared by contents.
pub open spec fn xkb_config_eqv(a: XkbConfig, b: XkbConfig) -> bool {
    &&& a.rules@ == b.rules@
    &&& a.model@ == b.model@
    &&& a.layout@ == b.layout@
    &&& a.variant@ == b.variant@
    &&& opt_string_eqv(a.options, b.options)
    &&& a.repeat_delay == b.repeat_delay
    &&& a.repeat_rate == b.repeat_rate
}

pub fn opt_string_eq(a: &Option<String>, b: &Option<String>) -> (r: bool)
    ensures
        r == opt_string_eqv(*a, *b),
{
    match (a, b) {
        (Option::None, Option::None) => true,
        (Option::Some(x), Option::Some(y)) => *x == *y,
        _ => false,
    }
}

pub fn opt_accel_eq(a: &Option<AccelConfig>, b: &Option<AccelConfig>) -> (r: bool)
    ensures
        r == (*a == *b),
{
    match (a, b) {
        (Option::None, Option::None) => true,
        (Option::Some(x), Option::Some(y)) => *x == *y,
        _ => false,
    }
}

pub fn opt_scroll_eq(a: &Option<ScrollConfig>, b: &Option<ScrollConfig>) -> (r: bool)
    ensures
        r == (*a == *b),
{
    match (a, b) {
        (Option::None, Option::None) => true,
        (Option::Some(x), Option::Some(y)) => *x == *y,
        _ => false,
    }
}

pub fn opt_tap_eq(a: &Option<TapConfig>, b: &Option<TapConfig>) -> (r: bool)
    ensures
        r == (*a == *b),
{
    match (a, b) {
        (Option::None, Option::None) => true,
        (Option::Some(x), Option::Some(y)) => *x == *y,
        _ => false,
    }
}

pub fn opt_calibration_eq(a: &Option<Calibration>, b: &Option<Calibration>) -> (r: bool)
    ensures
        r == (*a == *b),
{
    match (a, b) {
        (Option::None, Option::None) => true,
        (Option::Some(x), Option::Some(y)) => *x == *y,
        _ => false,
    }
}

impl InputConfig {
    /// Structural comparison of two snapshots; rewrites with identical
    /// content compare equal and produce no events.
    pub fn same_as(&self, other: &InputConfig) -> (r: bool)
        ensures
            r == input_config_eqv(*self, *other),
    {
        self.state == other.state && opt_accel_eq(&self.acceleration, &other.acceleration)
            && opt_calibration_eq(&self.calibration, &other.calibration) && self.click_method
            == other.click_method && self.disable_while_typing == other.disable_while_typing
            && self.left_handed == other.left_handed && self.middle_button_emulation
            == other.middle_button_emulation && self.rotation_angle == other.rotation_angle
            && opt_scroll_eq(&self.scroll_config, &other.scroll_config) && opt_tap_eq(
            &self.tap_config,
            &other.tap_config,
        ) && opt_string_eq(&self.map_to_output, &other.map_to_output)
    }
}

impl XkbConfig {
    /// Structural comparison of two keyboard layout snapshots.
    pub fn same_as(&self, other: &XkbConfig) -> (r: bool)
        ensures
            r == xkb_config_eqv(*self, *other),
    {
        self.rules == other.rules && self.model == other.model && self.layout == other.layout
            && self.variant == other.variant && opt_string_eq(&self.options, &other.options)
            && self.repeat_delay == other.repeat_delay && self.repeat_rate == other.repeat_rate
    }
}

} // verus!
