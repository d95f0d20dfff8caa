//! The closed taxonomy of atomic configuration-change events.
//!
//! Every event is self-contained: it carries the new value to set, never a
//! transition record. The two coarse composite events (`ScrollConfig`,
//! `TapConfig`) are deliberately redundant with their sub-field events, so
//! that backends with only a bulk setter and backends with only fine-grained
//! setters can each honour the granularity they implement.

use vstd::prelude::*;

use crate::model::AccelConfig;
use crate::model::Calibration;
use crate::model::ClickMethod;
use crate::model::DeviceState;
use crate::model::NumlockState;
use crate::model::ScrollConfig;
use crate::model::ScrollMethod;
use crate::model::TapButtonMap;
use crate::model::TapConfig;

verus! {

/// Top level of the event taxonomy.
#[derive(Clone, Debug, PartialEq)]
pub enum Event {
    Input(InputEvent),
}

/// Which input domain an event belongs to.
#[derive(Clone, Debug, PartialEq)]
pub enum InputEvent {
    TouchPad(TouchpadEvent),
    Mouse(MouseEvent),
    Keyboard(KeyboardEvent),
}

/// Atomic keyboard configuration changes.
#[derive(Clone, Debug, PartialEq)]
pub enum KeyboardEvent {
    /// XKB rules file.
    Rules(String),
    /// Keyboard model.
    Model(String),
    /// Keyboard layout(s).
    Layout(String),
    /// Keyboard variant(s).
    Variant(String),
    /// XKB options.
    Options(Option<String>),
    /// Key repeat delay in ms.
    RepeatDelay(u32),
    /// Key repeat rate in Hz.
    RepeatRate(u32),
    /// Numlock state at boot.
    NumLock(NumlockState),
}

/// Atomic touchpad configuration changes.
#[derive(Clone, Debug, PartialEq)]
pub enum TouchpadEvent {
    /// Touchpad enable state.
    State(DeviceState),
    /// Acceleration settings.
    Acceleration(Option<AccelConfig>),
    /// Calibration matrix for touchpad coordinates.
    Calibration(Option<Calibration>),
    /// Click method.
    ClickMethod(Option<ClickMethod>),
    /// Ignore the touchpad while typing.
    DisableWhileTyping(Option<bool>),
    /// Swap the button mapping for left-handed use.
    LeftHanded(Option<bool>),
    /// Emulate a middle click.
    MiddleButtonEmulation(Option<bool>),
    /// Rotation angle in degrees.
    RotationAngle(Option<u32>),
    /// Whole scroll configuration: the coarse composite event, emitted
    /// before any of its sub-field events.
    ScrollConfig(Option<ScrollConfig>),
    /// Whole tap configuration: the coarse composite event, emitted before
    /// any of its sub-field events.
    TapConfig(Option<TapConfig>),
    /// Map to output name (display ID).
    MapToOutput(Option<String>),
    /// Scroll method only.
    ScrollMethod(Option<ScrollMethod>),
    /// Natural scroll: content follows the fingers.
    NaturalScroll(Option<bool>),
    /// Scroll factor in thousandths.
    ScrollFactor(Option<i64>),
    /// Scroll button for the on-button-down method.
    ScrollButton(Option<u32>),
    /// Tapping generates clicks.
    TapEnabled(bool),
    /// Which buttons multi-finger taps produce.
    TapButtonMap(Option<TapButtonMap>),
    /// Tap-and-drag.
    TapDrag(bool),
    /// Drag lock.
    TapDragLock(bool),
}

/// Atomic mouse configuration changes.
#[derive(Clone, Debug, PartialEq)]
pub enum MouseEvent {
    /// Mouse enable state.
    State(DeviceState),
    /// Acceleration settings.
    Acceleration(Option<AccelConfig>),
    /// Calibration matrix for mouse coordinates.
    Calibration(Option<Calibration>),
    /// Click method.
    ClickMethod(Option<ClickMethod>),
    /// Ignore the device while typing.
    DisableWhileTyping(Option<bool>),
    /// Swap the button mapping for left-handed use.
    LeftHanded(Option<bool>),
    /// Emulate a middle click.
    MiddleButtonEmulation(Option<bool>),
    /// Rotation angle in degrees.
    RotationAngle(Option<u32>),
    /// Whole scroll configuration: the coarse composite event, emitted
    /// before any of its sub-field events.
    ScrollConfig(Option<ScrollConfig>),
    /// Whole tap configuration (coarse only; mice have no tap sub-fields).
    TapConfig(Option<TapConfig>),
    /// Map to output name (display ID).
    MapToOutput(Option<String>),
    /// Scroll method only.
    ScrollMethod(Option<ScrollMethod>),
    /// Natural scroll: content follows the fingers.
    NaturalScroll(Option<bool>),
    /// Scroll factor in thousandths.
    ScrollFactor(Option<i64>),
    /// Scroll button for the on-button-down method.
    ScrollButton(Option<u32>),
}

} // verus!
