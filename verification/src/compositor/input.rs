//! The input capability trait.
//!
//! One method per atomic event payload. Every method has a default
//! implementation that succeeds without doing anything: an unsupported
//! setting must never abort propagation of the rest of an event batch.
//! Backends override only the subset they can honour.
//!
//! The default succeeds silently, so in a dispatch outcome a capability
//! gap is indistinguishable from an applied setting; the "not
//! implemented" notice the policy calls for is logging, which belongs to
//! the surrounding program, not to this library.

use vstd::prelude::*;

use crate::error::Error;
use crate::event::KeyboardEvent;
use crate::event::MouseEvent;
use crate::event::TouchpadEvent;
use crate::model::AccelConfig;
use crate::model::Calibration;
use crate::model::ClickMethod;
use crate::model::DeviceState;
use crate::model::NumlockState;
use crate::model::ScrollConfig;
use crate::model::ScrollMethod;
use crate::model::TapButtonMap;
use crate::model::TapConfig;

verus! {

/// Result of one capability call.
pub type InputResult = Result<(), Error>;

/// Compositor input interface. Implement this for each backend; leave
/// unsupported operations to the defaults.
pub trait Input {
    /// Route one keyboard event to its capability method, exhaustively.
    fn apply_keyboard_event(&mut self, event: KeyboardEvent) -> (r: InputResult)
        ensures
            r matches Err(e) ==> (e is IpcConnection || e is IpcCommand || e is IpcResponse
                || e is CompositorNotRunning),
    {
        match event {
            KeyboardEvent::Rules(v) => self.keyboard_rules(v),
            KeyboardEvent::Model(v) => self.keyboard_model(v),
            KeyboardEvent::Layout(v) => self.keyboard_layout(v),
            KeyboardEvent::Variant(v) => self.keyboard_variant(v),
            KeyboardEvent::Options(v) => self.keyboard_options(v),
            KeyboardEvent::RepeatDelay(v) => self.keyboard_repeat_delay(v),
            KeyboardEvent::RepeatRate(v) => self.keyboard_repeat_rate(v),
            KeyboardEvent::NumLock(v) => self.numslock_state(v),
        }
    }

    /// Route one touchpad event to its capability method, exhaustively.
    fn apply_touchpad_event(&mut self, event: TouchpadEvent) -> (r: InputResult)
        ensures
            r matches Err(e) ==> (e is IpcConnection || e is IpcCommand || e is IpcResponse
                || e is CompositorNotRunning),
    {
        match event {
            TouchpadEvent::State(v) => self.touchpad_state(v),
            TouchpadEvent::Acceleration(v) => self.touchpad_acceleration(v),
            TouchpadEvent::Calibration(v) => self.touchpad_calibration(v),
            TouchpadEvent::ClickMethod(v) => self.touchpad_click_method(v),
            TouchpadEvent::DisableWhileTyping(v) => self.touchpad_disable_while_typing(v),
            TouchpadEvent::LeftHanded(v) => self.touchpad_left_handed(v),
            TouchpadEvent::MiddleButtonEmulation(v) => self.touchpad_middle_button_emulation(v),
            TouchpadEvent::RotationAngle(v) => self.touchpad_rotation_angle(v),
            TouchpadEvent::ScrollConfig(v) => self.touchpad_scroll_config(v),
            TouchpadEvent::ScrollMethod(v) => self.touchpad_scroll_method(v),
            TouchpadEvent::NaturalScroll(v) => self.touchpad_natural_scroll(v),
            TouchpadEvent::ScrollFactor(v) => self.touchpad_scroll_factor(v),
            TouchpadEvent::ScrollButton(v) => self.touchpad_scroll_button(v),
            TouchpadEvent::TapConfig(v) => self.touchpad_tap_config(v),
            TouchpadEvent::TapEnabled(v) => self.touchpad_tap_enabled(v),
            TouchpadEvent::TapButtonMap(v) => self.touchpad_tap_button_map(v),
            TouchpadEvent::TapDrag(v) => self.touchpad_tap_drag(v),
            TouchpadEvent::TapDragLock(v) => self.touchpad_tap_drag_lock(v),
            TouchpadEvent::MapToOutput(v) => self.touchpad_map_to_output(v),
        }
    }

    /// Route one mouse event to its capability method, exhaustively.
    fn apply_mouse_event(&mut self, event: MouseEvent) -> (r: InputResult)
        ensures
            r matches Err(e) ==> (e is IpcConnection || e is IpcCommand || e is IpcResponse
                || e is CompositorNotRunning),
    {
        match event {
            MouseEvent::State(v) => self.mouse_state(v),
            MouseEvent::Acceleration(v) => self.mouse_acceleration(v),
            MouseEvent::Calibration(v) => self.mouse_calibration(v),
            MouseEvent::ClickMethod(v) => self.mouse_click_method(v),
            MouseEvent::DisableWhileTyping(v) => self.mouse_disable_while_typing(v),
            MouseEvent::LeftHanded(v) => self.mouse_left_handed(v),
            MouseEvent::MiddleButtonEmulation(v) => self.mouse_middle_button_emulation(v),
            MouseEvent::RotationAngle(v) => self.mouse_rotation_angle(v),
            MouseEvent::ScrollConfig(v) => self.mouse_scroll_config(v),
            MouseEvent::ScrollMethod(v) => self.mouse_scroll_method(v),
            MouseEvent::NaturalScroll(v) => self.mouse_natural_scroll(v),
            MouseEvent::ScrollFactor(v) => self.mouse_scroll_factor(v),
            MouseEvent::ScrollButton(v) => self.mouse_scroll_button(v),
            MouseEvent::TapConfig(v) => self.mouse_tap_config(v),
            MouseEvent::MapToOutput(v) => self.mouse_map_to_output(v),
        }
    }

    fn keyboard_rules(&mut self, rules: String) -> (r: InputResult)
        ensures
            r matches Err(e) ==> (e is IpcConnection || e is IpcCommand || e is IpcResponse
                || e is CompositorNotRunning),
        default_ensures
            r is Ok,
    {
        Ok(())
    }

    fn keyboard_model(&mut self, model: String) -> (r: InputResult)
        ensures
            r matches Err(e) ==> (e is IpcConnection || e is IpcCommand || e is IpcResponse
                || e is CompositorNotRunning),
        default_ensures
            r is Ok,
    {
        Ok(())
    }

    fn keyboard_layout(&mut self, layout: String) -> (r: InputResult)
        ensures
            r matches Err(e) ==> (e is IpcConnection || e is IpcCommand || e is IpcResponse
                || e is CompositorNotRunning),
        default_ensures
            r is Ok,
    {
        Ok(())
    }

    fn keyboard_variant(&mut self, variant: String) -> (r: InputResult)
        ensures
            r matches Err(e) ==> (e is IpcConnection || e is IpcCommand || e is IpcResponse
                || e is CompositorNotRunning),
        default_ensures
            r is Ok,
    {
        Ok(())
    }

    fn keyboard_options(&mut self, options: Option<String>) -> (r: InputResult)
        ensures
            r matches Err(e) ==> (e is IpcConnection || e is IpcCommand || e is IpcResponse
                || e is CompositorNotRunning),
        default_ensures
            r is Ok,
    {
        Ok(())
    }

    fn keyboard_repeat_delay(&mut self, delay: u32) -> (r: InputResult)
        ensures
            r matches Err(e) ==> (e is IpcConnection || e is IpcCommand || e is IpcResponse
                || e is CompositorNotRunning),
        default_ensures
            r is Ok,
    {
        Ok(())
    }

    fn keyboard_repeat_rate(&mut self, rate: u32) -> (r: InputResult)
        ensures
            r matches Err(e) ==> (e is IpcConnection || e is IpcCommand || e is IpcResponse
                || e is CompositorNotRunning),
        default_ensures
            r is Ok,
    {
        Ok(())
    }

    fn numslock_state(&mut self, state: NumlockState) -> (r: InputResult)
        ensures
            r matches Err(e) ==> (e is IpcConnection || e is IpcCommand || e is IpcResponse
                || e is CompositorNotRunning),
        default_ensures
            r is Ok,
    {
        Ok(())
    }

    fn touchpad_state(&mut self, state: DeviceState) -> (r: InputResult)
        ensures
            r matches Err(e) ==> (e is IpcConnection || e is IpcCommand || e is IpcResponse
                || e is CompositorNotRunning),
        default_ensures
            r is Ok,
    {
        Ok(())
    }

    fn touchpad_acceleration(&mut self, accel: Option<AccelConfig>) -> (r: InputResult)
        ensures
            r matches Err(e) ==> (e is IpcConnection || e is IpcCommand || e is IpcResponse
                || e is CompositorNotRunning),
        default_ensures
            r is Ok,
    {
        Ok(())
    }

    fn touchpad_calibration(&mut self, cal: Option<Calibration>) -> (r: InputResult)
        ensures
            r matches Err(e) ==> (e is IpcConnection || e is IpcCommand || e is IpcResponse
                || e is CompositorNotRunning),
        default_ensures
            r is Ok,
    {
        Ok(())
    }

    fn touchpad_click_method(&mut self, method: Option<ClickMethod>) -> (r: InputResult)
        ensures
            r matches Err(e) ==> (e is IpcConnection || e is IpcCommand || e is IpcResponse
                || e is CompositorNotRunning),
        default_ensures
            r is Ok,
    {
        Ok(())
    }

    fn touchpad_disable_while_typing(&mut self, enabled: Option<bool>) -> (r: InputResult)
        ensures
            r matches Err(e) ==> (e is IpcConnection || e is IpcCommand || e is IpcResponse
                || e is CompositorNotRunning),
        default_ensures
            r is Ok,
    {
        Ok(())
    }

    fn touchpad_left_handed(&mut self, enabled: Option<bool>) -> (r: InputResult)
        ensures
            r matches Err(e) ==> (e is IpcConnection || e is IpcCommand || e is IpcResponse
                || e is CompositorNotRunning),
        default_ensures
            r is Ok,
    {
        Ok(())
    }

    fn touchpad_middle_button_emulation(&mut self, enabled: Option<bool>) -> (r: InputResult)
        ensures
            r matches Err(e) ==> (e is IpcConnection || e is IpcCommand || e is IpcResponse
                || e is CompositorNotRunning),
        default_ensures
            r is Ok,
    {
        Ok(())
    }

    fn touchpad_rotation_angle(&mut self, angle: Option<u32>) -> (r: InputResult)
        ensures
            r matches Err(e) ==> (e is IpcConnection || e is IpcCommand || e is IpcResponse
                || e is CompositorNotRunning),
        default_ensures
            r is Ok,
    {
        Ok(())
    }

    fn touchpad_scroll_config(&mut self, config: Option<ScrollConfig>) -> (r: InputResult)
        ensures
            r matches Err(e) ==> (e is IpcConnection || e is IpcCommand || e is IpcResponse
                || e is CompositorNotRunning),
        default_ensures
            r is Ok,
    {
        Ok(())
    }

    fn touchpad_scroll_method(&mut self, method: Option<ScrollMethod>) -> (r: InputResult)
        ensures
            r matches Err(e) ==> (e is IpcConnection || e is IpcCommand || e is IpcResponse
                || e is CompositorNotRunning),
        default_ensures
            r is Ok,
    {
        Ok(())
    }

    fn touchpad_natural_scroll(&mut self, enabled: Option<bool>) -> (r: InputResult)
        ensures
            r matches Err(e) ==> (e is IpcConnection || e is IpcCommand || e is IpcResponse
                || e is CompositorNotRunning),
        default_ensures
            r is Ok,
    {
        Ok(())
    }

    fn touchpad_scroll_factor(&mut self, factor: Option<i64>) -> (r: InputResult)
        ensures
            r matches Err(e) ==> (e is IpcConnection || e is IpcCommand || e is IpcResponse
                || e is CompositorNotRunning),
        default_ensures
            r is Ok,
    {
        Ok(())
    }

    fn touchpad_scroll_button(&mut self, button: Option<u32>) -> (r: InputResult)
        ensures
            r matches Err(e) ==> (e is IpcConnection || e is IpcCommand || e is IpcResponse
                || e is CompositorNotRunning),
        default_ensures
            r is Ok,
    {
        Ok(())
    }

    fn touchpad_tap_config(&mut self, config: Option<TapConfig>) -> (r: InputResult)
        ensures
            r matches Err(e) ==> (e is IpcConnection || e is IpcCommand || e is IpcResponse
                || e is CompositorNotRunning),
        default_ensures
            r is Ok,
    {
        Ok(())
    }

    fn touchpad_tap_enabled(&mut self, enabled: bool) -> (r: InputResult)
        ensures
            r matches Err(e) ==> (e is IpcConnection || e is IpcCommand || e is IpcResponse
                || e is CompositorNotRunning),
        default_ensures
            r is Ok,
    {
        Ok(())
    }

    fn touchpad_tap_button_map(&mut self, map: Option<TapButtonMap>) -> (r: InputResult)
        ensures
            r matches Err(e) ==> (e is IpcConnection || e is IpcCommand || e is IpcResponse
                || e is CompositorNotRunning),
        default_ensures
            r is Ok,
    {
        Ok(())
    }

    fn touchpad_tap_drag(&mut self, enabled: bool) -> (r: InputResult)
        ensures
            r matches Err(e) ==> (e is IpcConnection || e is IpcCommand || e is IpcResponse
                || e is CompositorNotRunning),
        default_ensures
            r is Ok,
    {
        Ok(())
    }

    fn touchpad_tap_drag_lock(&mut self, enabled: bool) -> (r: InputResult)
        ensures
            r matches Err(e) ==> (e is IpcConnection || e is IpcCommand || e is IpcResponse
                || e is CompositorNotRunning),
        default_ensures
            r is Ok,
    {
        Ok(())
    }

    fn touchpad_map_to_output(&mut self, output: Option<String>) -> (r: InputResult)
        ensures
            r matches Err(e) ==> (e is IpcConnection || e is IpcCommand || e is IpcResponse
                || e is CompositorNotRunning),
        default_ensures
            r is Ok,
    {
        Ok(())
    }

    fn mouse_state(&mut self, state: DeviceState) -> (r: InputResult)
        ensures
            r matches Err(e) ==> (e is IpcConnection || e is IpcCommand || e is IpcResponse
                || e is CompositorNotRunning),
        default_ensures
            r is Ok,
    {
        Ok(())
    }

    fn mouse_acceleration(&mut self, accel: Option<AccelConfig>) -> (r: InputResult)
        ensures
            r matches Err(e) ==> (e is IpcConnection || e is IpcCommand || e is IpcResponse
                || e is CompositorNotRunning),
        default_ensures
            r is Ok,
    {
        Ok(())
    }

    fn mouse_calibration(&mut self, cal: Option<Calibration>) -> (r: InputResult)
        ensures
            r matches Err(e) ==> (e is IpcConnection || e is IpcCommand || e is IpcResponse
                || e is CompositorNotRunning),
        default_ensures
            r is Ok,
    {
        Ok(())
    }

    fn mouse_click_method(&mut self, method: Option<ClickMethod>) -> (r: InputResult)
        ensures
            r matches Err(e) ==> (e is IpcConnection || e is IpcCommand || e is IpcResponse
                || e is CompositorNotRunning),
        default_ensures
            r is Ok,
    {
        Ok(())
    }

    fn mouse_disable_while_typing(&mut self, enabled: Option<bool>) -> (r: InputResult)
        ensures
            r matches Err(e) ==> (e is IpcConnection || e is IpcCommand || e is IpcResponse
                || e is CompositorNotRunning),
        default_ensures
            r is Ok,
    {
        Ok(())
    }

    fn mouse_left_handed(&mut self, enabled: Option<bool>) -> (r: InputResult)
        ensures
            r matches Err(e) ==> (e is IpcConnection || e is IpcCommand || e is IpcResponse
                || e is CompositorNotRunning),
        default_ensures
            r is Ok,
    {
        Ok(())
    }

    fn mouse_middle_button_emulation(&mut self, enabled: Option<bool>) -> (r: InputResult)
        ensures
            r matches Err(e) ==> (e is IpcConnection || e is IpcCommand || e is IpcResponse
                || e is CompositorNotRunning),
        default_ensures
            r is Ok,
    {
        Ok(())
    }

    fn mouse_rotation_angle(&mut self, angle: Option<u32>) -> (r: InputResult)
        ensures
            r matches Err(e) ==> (e is IpcConnection || e is IpcCommand || e is IpcResponse
                || e is CompositorNotRunning),
        default_ensures
            r is Ok,
    {
        Ok(())
    }

    fn mouse_scroll_config(&mut self, config: Option<ScrollConfig>) -> (r: InputResult)
        ensures
            r matches Err(e) ==> (e is IpcConnection || e is IpcCommand || e is IpcResponse
                || e is CompositorNotRunning),
        default_ensures
            r is Ok,
    {
        Ok(())
    }

    fn mouse_scroll_method(&mut self, method: Option<ScrollMethod>) -> (r: InputResult)
        ensures
            r matches Err(e) ==> (e is IpcConnection || e is IpcCommand || e is IpcResponse
                || e is CompositorNotRunning),
        default_ensures
            r is Ok,
    {
        Ok(())
    }

    fn mouse_natural_scroll(&mut self, enabled: Option<bool>) -> (r: InputResult)
        ensures
            r matches Err(e) ==> (e is IpcConnection || e is IpcCommand || e is IpcResponse
                || e is CompositorNotRunning),
        default_ensures
            r is Ok,
    {
        Ok(())
    }

    fn mouse_scroll_factor(&mut self, factor: Option<i64>) -> (r: InputResult)
        ensures
            r matches Err(e) ==> (e is IpcConnection || e is IpcCommand || e is IpcResponse
                || e is CompositorNotRunning),
        default_ensures
            r is Ok,
    {
        Ok(())
    }

    fn mouse_scroll_button(&mut self, button: Option<u32>) -> (r: InputResult)
        ensures
            r matches Err(e) ==> (e is IpcConnection || e is IpcCommand || e is IpcResponse
                || e is CompositorNotRunning),
        default_ensures
            r is Ok,
    {
        Ok(())
    }

    fn mouse_tap_config(&mut self, config: Option<TapConfig>) -> (r: InputResult)
        ensures
            r matches Err(e) ==> (e is IpcConnection || e is IpcCommand || e is IpcResponse
                || e is CompositorNotRunning),
        default_ensures
            r is Ok,
    {
        Ok(())
    }

    fn mouse_map_to_output(&mut self, output: Option<String>) -> (r: InputResult)
        ensures
            r matches Err(e) ==> (e is IpcConnection || e is IpcCommand || e is IpcResponse
                || e is CompositorNotRunning),
        default_ensures
            r is Ok,
    {
        Ok(())
    }
}

} // verus!
