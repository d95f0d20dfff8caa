//! The Hyprland backend planner: capability calls become keyword writes,
//! decided and queued here with exact contracts, and performed by the
//! surrounding program through the Hyprland client library.
//!
//! The client library's keyword call looks its socket path up from the
//! process environment and aborts the whole process when the instance
//! signature is not there, so the write itself cannot stand behind a
//! trusted item of this crate: no library state can promise what the
//! process environment holds. What is verified instead is everything the
//! write carries — which keyword, which value, clamped and rendered how,
//! and in which order.

use vstd::prelude::*;

use crate::compositor::Compositor;
use crate::compositor::CompositorResult;
use crate::compositor::input::Input;
use crate::compositor::input::InputResult;
use crate::error::Error;
use crate::identifier::EnvSnapshot;
use crate::model::AccelConfig;
use crate::model::AccelProfile;
use crate::model::ClickMethod;
use crate::model::NumlockState;
use crate::model::ScrollConfig;
use crate::model::ScrollMethod;
use crate::model::TapButtonMap;
use crate::model::TapConfig;
use crate::numfmt::dec_digits;
use crate::numfmt::milli_chars;
use crate::numfmt::milli_value;
use crate::numfmt::spec_clamp_speed;
use crate::numfmt::spec_milli_sat;
use crate::numfmt::u32_value;
use crate::options::norm_spec;
use crate::options::normalize_options;

verus! {

/// One queued keyword write: the keyword and the value text to set it to.
#[derive(Clone, Debug, PartialEq)]
pub struct KeywordWrite {
    pub key: &'static str,
    pub value: String,
}

/// Hyprland's token for a boolean keyword value.
pub open spec fn hypr_bool_token(b: bool) -> Seq<char> {
    if b {
        "true"@
    } else {
        "false"@
    }
}

/// Hyprland's token for a scroll method.
pub open spec fn hypr_scroll_token(m: ScrollMethod) -> Seq<char> {
    match m {
        ScrollMethod::TwoFinger => "2fg"@,
        ScrollMethod::Edge => "edge"@,
        ScrollMethod::OnButtonDown => "on_button"@,
        ScrollMethod::NoScroll => "none"@,
    }
}

/// Hyprland's token for a tap button map.
pub open spec fn hypr_tap_map_token(m: TapButtonMap) -> Seq<char> {
    match m {
        TapButtonMap::LeftRightMiddle => "lrm"@,
        TapButtonMap::LeftMiddleRight => "lmr"@,
    }
}

/// Hyprland's token for an acceleration profile.
pub open spec fn hypr_accel_token(p: AccelProfile) -> Seq<char> {
    match p {
        AccelProfile::Flat => "flat"@,
        AccelProfile::Adaptive => "adaptive"@,
    }
}

/// The queue grew by exactly one write, with this keyword and value.
pub open spec fn pushed1(
    old: Seq<KeywordWrite>,
    new: Seq<KeywordWrite>,
    key: Seq<char>,
    value: Seq<char>,
) -> bool {
    &&& new.len() == old.len() + 1
    &&& new.subrange(0, old.len() as int) == old
    &&& new[old.len() as int].key@ == key
    &&& new[old.len() as int].value@ == value
}

/// The queue grew by exactly these two writes, in this order.
pub open spec fn pushed2(
    old: Seq<KeywordWrite>,
    new: Seq<KeywordWrite>,
    k1: Seq<char>,
    v1: Seq<char>,
    k2: Seq<char>,
    v2: Seq<char>,
) -> bool {
    &&& new.len() == old.len() + 2
    &&& new.subrange(0, old.len() as int) == old
    &&& new[old.len() as int].key@ == k1
    &&& new[old.len() as int].value@ == v1
    &&& new[old.len() as int + 1].key@ == k2
    &&& new[old.len() as int + 1].value@ == v2
}

/// The queue grew by exactly these three writes, in this order.
pub open spec fn pushed3(
    old: Seq<KeywordWrite>,
    new: Seq<KeywordWrite>,
    k1: Seq<char>,
    v1: Seq<char>,
    k2: Seq<char>,
    v2: Seq<char>,
    k3: Seq<char>,
    v3: Seq<char>,
) -> bool {
    &&& new.len() == old.len() + 3
    &&& new.subrange(0, old.len() as int) == old
    &&& new[old.len() as int].key@ == k1
    &&& new[old.len() as int].value@ == v1
    &&& new[old.len() as int + 1].key@ == k2
    &&& new[old.len() as int + 1].value@ == v2
    &&& new[old.len() as int + 2].key@ == k3
    &&& new[old.len() as int + 2].value@ == v3
}

/// The Hyprland adapter: holds the instance signature found at
/// initialization and the keyword writes planned so far, drained by the
/// surrounding program.
pub struct Hyprland {
    pub instance_signature: Option<String>,
    pub pending: Vec<KeywordWrite>,
}

impl Hyprland {
    /// A fresh, uninitialized adapter with nothing planned.
    pub fn new() -> (r: Self)
        ensures
            r.instance_signature is None,
            r.pending@ == Seq::<KeywordWrite>::empty(),
    {
        Hyprland { instance_signature: None, pending: Vec::new() }
    }

    /// Hand out the planned writes, in planning order, and forget them.
    pub fn take_pending(&mut self) -> (r: Vec<KeywordWrite>)
        ensures
            r@ == old(self).pending@,
            final(self).pending@ == Seq::<KeywordWrite>::empty(),
            final(self).instance_signature == old(self).instance_signature,
    {
        let mut out: Vec<KeywordWrite> = Vec::new();
        core::mem::swap(&mut out, &mut self.pending);
        out
    }

    /// Plan one keyword write.
    pub fn set_keyword(&mut self, key: &'static str, value: String) -> (r: InputResult)
        ensures
            r is Ok,
            pushed1(old(self).pending@, final(self).pending@, key@, value@),
            final(self).instance_signature == old(self).instance_signature,
    {
        self.pending.push(KeywordWrite { key, value });
        proof {
            assert(self.pending@.subrange(0, old(self).pending@.len() as int) =~= old(
                self,
            ).pending@);
        }
        Ok(())
    }

    /// Plan a boolean keyword write; an absent value means "leave
    /// unchanged" and plans nothing.
    pub fn set_bool(&mut self, key: &'static str, value: Option<bool>) -> (r: InputResult)
        ensures
            r is Ok,
            value is None ==> *final(self) == *old(self),
            value matches Some(b) ==> pushed1(
                old(self).pending@,
                final(self).pending@,
                key@,
                hypr_bool_token(b),
            ),
            final(self).instance_signature == old(self).instance_signature,
    {
        match value {
            Some(b) => self.set_keyword(key, bool_value(b)),
            None => Ok(()),
        }
    }

    /// Plan a clamped acceleration-speed write: the speed is clamped to
    /// the accepted interval before it is rendered.
    fn set_speed(&mut self, key: &'static str, speed: i64) -> (r: InputResult)
        ensures
            r is Ok,
            pushed1(
                old(self).pending@,
                final(self).pending@,
                key@,
                milli_chars(spec_clamp_speed(speed) as int),
            ),
            final(self).instance_signature == old(self).instance_signature,
    {
        self.set_keyword(key, crate::numfmt::clamped_speed_value(speed))
    }

    /// Plan a thousandth-valued keyword write.
    fn set_milli(&mut self, key: &'static str, value: i64) -> (r: InputResult)
        ensures
            r is Ok,
            pushed1(old(self).pending@, final(self).pending@, key@, spec_milli_sat(value)),
            final(self).instance_signature == old(self).instance_signature,
    {
        self.set_keyword(key, milli_value(value))
    }

    /// Plan an unsigned numeric keyword write.
    fn set_u32(&mut self, key: &'static str, value: u32) -> (r: InputResult)
        ensures
            r is Ok,
            pushed1(old(self).pending@, final(self).pending@, key@, dec_digits(value as nat)),
            final(self).instance_signature == old(self).instance_signature,
    {
        self.set_keyword(key, u32_value(value))
    }

    /// Hyprland's token for a scroll method.
    pub fn map_scroll_method(method: &ScrollMethod) -> (r: &'static str)
        ensures
            r@ == hypr_scroll_token(*method),
    {
        match method {
            ScrollMethod::TwoFinger => "2fg",
            ScrollMethod::Edge => "edge",
            ScrollMethod::OnButtonDown => "on_button",
            ScrollMethod::NoScroll => "none",
        }
    }

    /// Whether a click method turns clickfinger behaviour on.
    pub fn map_click_method(method: &ClickMethod) -> (r: bool)
        ensures
            r == (*method is Clickfinger),
    {
        match method {
            ClickMethod::Clickfinger => true,
            ClickMethod::ButtonAreas => false,
        }
    }

    /// Hyprland's token for a tap button map.
    pub fn map_tap_button_map(map: &TapButtonMap) -> (r: &'static str)
        ensures
            r@ == hypr_tap_map_token(*map),
    {
        match map {
            TapButtonMap::LeftRightMiddle => "lrm",
            TapButtonMap::LeftMiddleRight => "lmr",
        }
    }

    /// Plan acceleration settings: the clamped speed first, then the
    /// profile token, so the dependent field follows the primary one.
    fn set_acceleration(&mut self, accel: Option<AccelConfig>) -> (r: InputResult)
        ensures
            r is Ok,
            accel is None ==> *final(self) == *old(self),
            accel matches Some(a) ==> (a.profile is None ==> pushed1(
                old(self).pending@,
                final(self).pending@,
                "input:sensitivity"@,
                milli_chars(spec_clamp_speed(a.speed) as int),
            )),
            accel matches Some(a) ==> (a.profile matches Some(p) ==> pushed2(
                old(self).pending@,
                final(self).pending@,
                "input:sensitivity"@,
                milli_chars(spec_clamp_speed(a.speed) as int),
                "input:accel_profile"@,
                hypr_accel_token(p),
            )),
            final(self).instance_signature == old(self).instance_signature,
    {
        if let Some(accel) = accel {
            self.set_speed("input:sensitivity", accel.speed)?;
            if let Some(profile) = accel.profile {
                let token = match profile {
                    AccelProfile::Flat => "flat",
                    AccelProfile::Adaptive => "adaptive",
                };
                self.set_keyword("input:accel_profile", token.to_owned())?;
                proof {
                    assert(self.pending@.subrange(0, old(self).pending@.len() as int) =~= old(
                        self,
                    ).pending@);
                }
            }
        }
        Ok(())
    }
}

/// The textual form of a boolean keyword value.
fn bool_value(b: bool) -> (r: String)
    ensures
        r@ == hypr_bool_token(b),
{
    if b {
        "true".to_owned()
    } else {
        "false".to_owned()
    }
}

impl Compositor for Hyprland {
    /// Hyprland is initialized by taking the instance signature from the
    /// environment snapshot; without it the compositor is not running.
    fn init(&mut self, env: &EnvSnapshot) -> (r: CompositorResult)
        ensures
            r is Ok <==> env.hyprland_instance_signature is Some,
            r is Ok <==> final(self).instance_signature is Some,
            final(self).instance_signature == env.hyprland_instance_signature,
            final(self).pending == old(self).pending,
    {
        match &env.hyprland_instance_signature {
            Some(sig) => {
                self.instance_signature = Some(sig.clone());
                Ok(())
            },
            None => {
                self.instance_signature = None;
                Err(Error::MissingEnvVar { var: "HYPRLAND_INSTANCE_SIGNATURE" })
            },
        }
    }

    fn name(&self) -> &'static str {
        "Hyprland"
    }

    fn is_running(&self, env: &EnvSnapshot) -> (r: bool)
        ensures
            r == (env.hyprland_instance_signature is Some),
    {
        env.hyprland_instance_signature.is_some()
    }
}

impl Input for Hyprland {
    fn touchpad_acceleration(&mut self, accel: Option<AccelConfig>) -> (r: InputResult)
        ensures
            r is Ok,
            accel is None ==> *final(self) == *old(self),
    {
        self.set_acceleration(accel)
    }

    fn touchpad_click_method(&mut self, method: Option<ClickMethod>) -> (r: InputResult)
        ensures
            r is Ok,
            method is None ==> *final(self) == *old(self),
            method matches Some(m) ==> pushed1(
                old(self).pending@,
                final(self).pending@,
                "input:touchpad:clickfinger_behavior"@,
                hypr_bool_token(m is Clickfinger),
            ),
    {
        if let Some(method) = method {
            let enabled = Self::map_click_method(&method);
            return self.set_bool("input:touchpad:clickfinger_behavior", Some(enabled));
        }
        Ok(())
    }

    fn touchpad_disable_while_typing(&mut self, enabled: Option<bool>) -> (r: InputResult)
        ensures
            r is Ok,
            enabled is None ==> *final(self) == *old(self),
    {
        self.set_bool("input:touchpad:disable_while_typing", enabled)
    }

    fn touchpad_left_handed(&mut self, enabled: Option<bool>) -> (r: InputResult)
        ensures
            r is Ok,
            enabled is None ==> *final(self) == *old(self),
    {
        self.set_bool("input:left_handed", enabled)
    }

    fn touchpad_middle_button_emulation(&mut self, enabled: Option<bool>) -> (r: InputResult)
        ensures
            r is Ok,
            enabled is None ==> *final(self) == *old(self),
    {
        self.set_bool("input:touchpad:middle_button_emulation", enabled)
    }

    fn touchpad_scroll_config(&mut self, config: Option<ScrollConfig>) -> (r: InputResult)
        ensures
            r is Ok,
            config is None ==> *final(self) == *old(self),
    {
        if let Some(config) = config {
            if let Some(factor) = config.scroll_factor {
                self.set_milli("input:touchpad:scroll_factor", factor)?;
            }
            self.set_bool("input:touchpad:natural_scroll", config.natural_scroll)?;
        }
        Ok(())
    }

    fn touchpad_scroll_method(&mut self, method: Option<ScrollMethod>) -> (r: InputResult)
        ensures
            r is Ok,
            method is None ==> *final(self) == *old(self),
            method matches Some(m) ==> pushed1(
                old(self).pending@,
                final(self).pending@,
                "input:scroll_method"@,
                hypr_scroll_token(m),
            ),
    {
        if let Some(method) = method {
            let token = Self::map_scroll_method(&method);
            return self.set_keyword("input:scroll_method", token.to_owned());
        }
        Ok(())
    }

    fn touchpad_natural_scroll(&mut self, enabled: Option<bool>) -> (r: InputResult)
        ensures
            r is Ok,
            enabled is None ==> *final(self) == *old(self),
    {
        self.set_bool("input:touchpad:natural_scroll", enabled)
    }

    fn touchpad_scroll_factor(&mut self, factor: Option<i64>) -> (r: InputResult)
        ensures
            r is Ok,
            factor is None ==> *final(self) == *old(self),
            factor matches Some(f) ==> pushed1(
                old(self).pending@,
                final(self).pending@,
                "input:touchpad:scroll_factor"@,
                spec_milli_sat(f),
            ),
    {
        if let Some(factor) = factor {
            return self.set_milli("input:touchpad:scroll_factor", factor);
        }
        Ok(())
    }

    fn touchpad_tap_config(&mut self, config: Option<TapConfig>) -> (r: InputResult)
        ensures
            r is Ok,
            config is None ==> *final(self) == *old(self),
            config matches Some(c) ==> pushed3(
                old(self).pending@,
                final(self).pending@,
                "input:touchpad:tap-to-click"@,
                hypr_bool_token(c.enabled),
                "input:touchpad:tap-and-drag"@,
                hypr_bool_token(c.drag),
                "input:touchpad:drag_lock"@,
                hypr_bool_token(c.drag_lock),
            ),
    {
        if let Some(config) = config {
            self.set_bool("input:touchpad:tap-to-click", Some(config.enabled))?;
            self.set_bool("input:touchpad:tap-and-drag", Some(config.drag))?;
            self.set_bool("input:touchpad:drag_lock", Some(config.drag_lock))?;
            proof {
                assert(self.pending@.subrange(0, old(self).pending@.len() as int) =~= old(
                    self,
                ).pending@);
            }
        }
        Ok(())
    }

    fn touchpad_tap_enabled(&mut self, enabled: bool) -> (r: InputResult)
        ensures
            r is Ok,
            pushed1(
                old(self).pending@,
                final(self).pending@,
                "input:touchpad:tap-to-click"@,
                hypr_bool_token(enabled),
            ),
    {
        self.set_bool("input:touchpad:tap-to-click", Some(enabled))
    }

    fn touchpad_tap_button_map(&mut self, map: Option<TapButtonMap>) -> (r: InputResult)
        ensures
            r is Ok,
            map is None ==> *final(self) == *old(self),
            map matches Some(m) ==> pushed1(
                old(self).pending@,
                final(self).pending@,
                "input:touchpad:tap_button_map"@,
                hypr_tap_map_token(m),
            ),
    {
        if let Some(map) = map {
            let token = Self::map_tap_button_map(&map);
            return self.set_keyword("input:touchpad:tap_button_map", token.to_owned());
        }
        Ok(())
    }

    fn touchpad_tap_drag(&mut self, enabled: bool) -> (r: InputResult)
        ensures
            r is Ok,
            pushed1(
                old(self).pending@,
                final(self).pending@,
                "input:touchpad:tap-and-drag"@,
                hypr_bool_token(enabled),
            ),
    {
        self.set_bool("input:touchpad:tap-and-drag", Some(enabled))
    }

    fn touchpad_tap_drag_lock(&mut self, enabled: bool) -> (r: InputResult)
        ensures
            r is Ok,
            pushed1(
                old(self).pending@,
                final(self).pending@,
                "input:touchpad:drag_lock"@,
                hypr_bool_token(enabled),
            ),
    {
        self.set_bool("input:touchpad:drag_lock", Some(enabled))
    }

    fn mouse_acceleration(&mut self, accel: Option<AccelConfig>) -> (r: InputResult)
        ensures
            r is Ok,
            accel is None ==> *final(self) == *old(self),
    {
        self.set_acceleration(accel)
    }

    fn mouse_left_handed(&mut self, enabled: Option<bool>) -> (r: InputResult)
        ensures
            r is Ok,
            enabled is None ==> *final(self) == *old(self),
    {
        self.set_bool("input:left_handed", enabled)
    }

    fn mouse_scroll_method(&mut self, method: Option<ScrollMethod>) -> (r: InputResult)
        ensures
            r is Ok,
            method is None ==> *final(self) == *old(self),
            method matches Some(m) ==> pushed1(
                old(self).pending@,
                final(self).pending@,
                "input:scroll_method"@,
                hypr_scroll_token(m),
            ),
    {
        if let Some(method) = method {
            let token = Self::map_scroll_method(&method);
            return self.set_keyword("input:scroll_method", token.to_owned());
        }
        Ok(())
    }

    fn mouse_natural_scroll(&mut self, enabled: Option<bool>) -> (r: InputResult)
        ensures
            r is Ok,
            enabled is None ==> *final(self) == *old(self),
    {
        self.set_bool("input:natural_scroll", enabled)
    }

    fn mouse_scroll_button(&mut self, button: Option<u32>) -> (r: InputResult)
        ensures
            r is Ok,
            button is None ==> *final(self) == *old(self),
            button matches Some(b) ==> pushed1(
                old(self).pending@,
                final(self).pending@,
                "input:scroll_button"@,
                dec_digits(b as nat),
            ),
    {
        if let Some(button) = button {
            return self.set_u32("input:scroll_button", button);
        }
        Ok(())
    }

    fn keyboard_rules(&mut self, rules: String) -> (r: InputResult)
        ensures
            r is Ok,
            pushed1(old(self).pending@, final(self).pending@, "input:kb_rules"@, rules@),
    {
        self.set_keyword("input:kb_rules", rules)
    }

    fn keyboard_layout(&mut self, layout: String) -> (r: InputResult)
        ensures
            r is Ok,
            pushed1(old(self).pending@, final(self).pending@, "input:kb_layout"@, layout@),
    {
        self.set_keyword("input:kb_layout", layout)
    }

    fn keyboard_model(&mut self, model: String) -> (r: InputResult)
        ensures
            r is Ok,
            pushed1(old(self).pending@, final(self).pending@, "input:kb_model"@, model@),
    {
        self.set_keyword("input:kb_model", model)
    }

    fn keyboard_options(&mut self, options: Option<String>) -> (r: InputResult)
        ensures
            r is Ok,
            options is None ==> *final(self) == *old(self),
            options matches Some(o) ==> pushed1(
                old(self).pending@,
                final(self).pending@,
                "input:kb_options"@,
                norm_spec(o@),
            ),
    {
        if let Some(options) = options {
            let cleaned = normalize_options(options.as_str());
            return self.set_keyword("input:kb_options", cleaned);
        }
        Ok(())
    }

    fn keyboard_variant(&mut self, variant: String) -> (r: InputResult)
        ensures
            r is Ok,
            pushed1(old(self).pending@, final(self).pending@, "input:kb_variant"@, variant@),
    {
        self.set_keyword("input:kb_variant", variant)
    }

    fn keyboard_repeat_delay(&mut self, delay: u32) -> (r: InputResult)
        ensures
            r is Ok,
            pushed1(
                old(self).pending@,
                final(self).pending@,
                "input:repeat_delay"@,
                dec_digits(delay as nat),
            ),
    {
        self.set_u32("input:repeat_delay", delay)
    }

    fn keyboard_repeat_rate(&mut self, rate: u32) -> (r: InputResult)
        ensures
            r is Ok,
            pushed1(
                old(self).pending@,
                final(self).pending@,
                "input:repeat_rate"@,
                dec_digits(rate as nat),
            ),
    {
        self.set_u32("input:repeat_rate", rate)
    }

    fn numslock_state(&mut self, state: NumlockState) -> (r: InputResult)
        ensures
            r is Ok,
            state is LastBoot ==> *final(self) == *old(self),
            !(state is LastBoot) ==> pushed1(
                old(self).pending@,
                final(self).pending@,
                "input:numlock_by_default"@,
                hypr_bool_token(state is BootOn),
            ),
    {
        match state {
            NumlockState::BootOn => self.set_bool("input:numlock_by_default", Some(true)),
            NumlockState::BootOff => self.set_bool("input:numlock_by_default", Some(false)),
            // Keep the last state: nothing to change.
            NumlockState::LastBoot => Ok(()),
        }
    }
}

} // verus!
