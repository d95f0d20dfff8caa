//! The diff engine: turns two successive snapshots of one configuration
//! domain into the minimal, ordered sequence of atomic events.
//!
//! The walk order over each domain's field set is fixed and declared by the
//! `spec_from_*` functions below; the executable functions are proved to
//! emit exactly that sequence, so the engine is deterministic by contract.
//! Composite fields emit their coarse event first, then one event per
//! differing inner field. Boolean and numeric optional fields whose new
//! value is absent emit nothing — absence means "leave unchanged", not
//! "clear"; other fields carry their new value as it stands, absent or
//! not.

use vstd::prelude::*;

use crate::event::Event;
use crate::event::InputEvent;
use crate::event::KeyboardEvent;
use crate::event::MouseEvent;
use crate::event::TouchpadEvent;
use crate::model::InputConfig;
use crate::model::KeyboardConfig;
use crate::model::ScrollConfig;
use crate::model::TapConfig;
use crate::model::XkbConfig;
use crate::model::input_config_eqv;
use crate::model::opt_scroll_eq;
use crate::model::opt_string_eq;
use crate::model::opt_string_eqv;
use crate::model::opt_tap_eq;
use crate::model::xkb_config_eqv;

verus! {

/// Wrap a touchpad change as a full event.
pub open spec fn tp_ev(e: TouchpadEvent) -> Event {
    Event::Input(InputEvent::TouchPad(e))
}

/// Wrap a mouse change as a full event.
pub open spec fn ms_ev(e: MouseEvent) -> Event {
    Event::Input(InputEvent::Mouse(e))
}

/// Wrap a keyboard change as a full event.
pub open spec fn kb_ev(e: KeyboardEvent) -> Event {
    Event::Input(InputEvent::Keyboard(e))
}

/// A single optional diff part: one event when the field changed, nothing
/// otherwise.
pub open spec fn part(changed: bool, e: Event) -> Seq<Event> {
    if changed {
        seq![e]
    } else {
        Seq::<Event>::empty()
    }
}

/// Touchpad scroll sub-field events, emitted only when the composite was
/// present on both sides.
pub open spec fn tp_scroll_subs(o: ScrollConfig, n: ScrollConfig) -> Seq<Event> {
    part(o.method != n.method, tp_ev(TouchpadEvent::ScrollMethod(n.method))) + part(
        n.natural_scroll is Some && o.natural_scroll != n.natural_scroll,
        tp_ev(TouchpadEvent::NaturalScroll(n.natural_scroll)),
    ) + part(
        n.scroll_button is Some && o.scroll_button != n.scroll_button,
        tp_ev(TouchpadEvent::ScrollButton(n.scroll_button)),
    ) + part(
        n.scroll_factor is Some && o.scroll_factor != n.scroll_factor,
        tp_ev(TouchpadEvent::ScrollFactor(n.scroll_factor)),
    )
}

/// Touchpad scroll events: the coarse composite first, then the sub-fields.
pub open spec fn tp_scroll_events(old: InputConfig, new: InputConfig) -> Seq<Event> {
    if old.scroll_config == new.scroll_config {
        Seq::<Event>::empty()
    } else {
        seq![tp_ev(TouchpadEvent::ScrollConfig(new.scroll_config))] + (match (
            old.scroll_config,
            new.scroll_config,
        ) {
            (Option::Some(o), Option::Some(n)) => tp_scroll_subs(o, n),
            _ => Seq::<Event>::empty(),
        })
    }
}

/// Touchpad tap sub-field events, emitted only when the composite was
/// present on both sides.
pub open spec fn tp_tap_subs(o: TapConfig, n: TapConfig) -> Seq<Event> {
    part(o.enabled != n.enabled, tp_ev(TouchpadEvent::TapEnabled(n.enabled))) + part(
        o.button_map != n.button_map,
        tp_ev(TouchpadEvent::TapButtonMap(n.button_map)),
    ) + part(o.drag != n.drag, tp_ev(TouchpadEvent::TapDrag(n.drag))) + part(
        o.drag_lock != n.drag_lock,
        tp_ev(TouchpadEvent::TapDragLock(n.drag_lock)),
    )
}

/// Touchpad tap events: the coarse composite first, then the sub-fields.
pub open spec fn tp_tap_events(old: InputConfig, new: InputConfig) -> Seq<Event> {
    if old.tap_config == new.tap_config {
        Seq::<Event>::empty()
    } else {
        seq![tp_ev(TouchpadEvent::TapConfig(new.tap_config))] + (match (
            old.tap_config,
            new.tap_config,
        ) {
            (Option::Some(o), Option::Some(n)) => tp_tap_subs(o, n),
            _ => Seq::<Event>::empty(),
        })
    }
}

/// The eight scalar touchpad fields, in their declared order.
pub open spec fn tp_scalar_prefix(old: InputConfig, new: InputConfig) -> Seq<Event> {
    part(old.state != new.state, tp_ev(TouchpadEvent::State(new.state))) + part(
        old.acceleration != new.acceleration,
        tp_ev(TouchpadEvent::Acceleration(new.acceleration)),
    ) + part(
        old.calibration != new.calibration,
        tp_ev(TouchpadEvent::Calibration(new.calibration)),
    ) + part(
        old.click_method != new.click_method,
        tp_ev(TouchpadEvent::ClickMethod(new.click_method)),
    ) + part(
        new.disable_while_typing is Some && old.disable_while_typing != new.disable_while_typing,
        tp_ev(TouchpadEvent::DisableWhileTyping(new.disable_while_typing)),
    ) + part(
        new.left_handed is Some && old.left_handed != new.left_handed,
        tp_ev(TouchpadEvent::LeftHanded(new.left_handed)),
    ) + part(
        new.middle_button_emulation is Some && old.middle_button_emulation
            != new.middle_button_emulation,
        tp_ev(TouchpadEvent::MiddleButtonEmulation(new.middle_button_emulation)),
    ) + part(
        new.rotation_angle is Some && old.rotation_angle != new.rotation_angle,
        tp_ev(TouchpadEvent::RotationAngle(new.rotation_angle)),
    )
}

/// The full touchpad diff, in the declared field order.
pub open spec fn spec_from_touchpad(old: InputConfig, new: InputConfig) -> Seq<Event> {
    if input_config_eqv(old, new) {
        Seq::<Event>::empty()
    } else {
        tp_scalar_prefix(old, new) + tp_scroll_events(old, new) + tp_tap_events(old, new)
            + part(
            !opt_string_eqv(old.map_to_output, new.map_to_output),
            tp_ev(TouchpadEvent::MapToOutput(new.map_to_output)),
        )
    }
}

/// Mouse scroll sub-field events, emitted only when the composite was
/// present on both sides.
pub open spec fn ms_scroll_subs(o: ScrollConfig, n: ScrollConfig) -> Seq<Event> {
    part(o.method != n.method, ms_ev(MouseEvent::ScrollMethod(n.method))) + part(
        n.natural_scroll is Some && o.natural_scroll != n.natural_scroll,
        ms_ev(MouseEvent::NaturalScroll(n.natural_scroll)),
    ) + part(
        n.scroll_button is Some && o.scroll_button != n.scroll_button,
        ms_ev(MouseEvent::ScrollButton(n.scroll_button)),
    ) + part(
        n.scroll_factor is Some && o.scroll_factor != n.scroll_factor,
        ms_ev(MouseEvent::ScrollFactor(n.scroll_factor)),
    )
}

/// Mouse scroll events: the coarse composite first, then the sub-fields.
pub open spec fn ms_scroll_events(old: InputConfig, new: InputConfig) -> Seq<Event> {
    if old.scroll_config == new.scroll_config {
        Seq::<Event>::empty()
    } else {
        seq![ms_ev(MouseEvent::ScrollConfig(new.scroll_config))] + (match (
            old.scroll_config,
            new.scroll_config,
        ) {
            (Option::Some(o), Option::Some(n)) => ms_scroll_subs(o, n),
            _ => Seq::<Event>::empty(),
        })
    }
}

/// The eight scalar mouse fields, in their declared order.
pub open spec fn ms_scalar_prefix(old: InputConfig, new: InputConfig) -> Seq<Event> {
    part(old.state != new.state, ms_ev(MouseEvent::State(new.state))) + part(
        old.acceleration != new.acceleration,
        ms_ev(MouseEvent::Acceleration(new.acceleration)),
    ) + part(
        old.calibration != new.calibration,
        ms_ev(MouseEvent::Calibration(new.calibration)),
    ) + part(
        old.click_method != new.click_method,
        ms_ev(MouseEvent::ClickMethod(new.click_method)),
    ) + part(
        new.disable_while_typing is Some && old.disable_while_typing != new.disable_while_typing,
        ms_ev(MouseEvent::DisableWhileTyping(new.disable_while_typing)),
    ) + part(
        new.left_handed is Some && old.left_handed != new.left_handed,
        ms_ev(MouseEvent::LeftHanded(new.left_handed)),
    ) + part(
        new.middle_button_emulation is Some && old.middle_button_emulation
            != new.middle_button_emulation,
        ms_ev(MouseEvent::MiddleButtonEmulation(new.middle_button_emulation)),
    ) + part(
        new.rotation_angle is Some && old.rotation_angle != new.rotation_angle,
        ms_ev(MouseEvent::RotationAngle(new.rotation_angle)),
    )
}

/// The full mouse diff, in the declared field order. The tap composite has
/// no mouse sub-field events.
pub open spec fn spec_from_mouse(old: InputConfig, new: InputConfig) -> Seq<Event> {
    if input_config_eqv(old, new) {
        Seq::<Event>::empty()
    } else {
        ms_scalar_prefix(old, new) + ms_scroll_events(old, new) + part(
            old.tap_config != new.tap_config,
            ms_ev(MouseEvent::TapConfig(new.tap_config)),
        ) + part(
            !opt_string_eqv(old.map_to_output, new.map_to_output),
            ms_ev(MouseEvent::MapToOutput(new.map_to_output)),
        )
    }
}

/// The full keyboard layout diff, in the declared field order.
pub open spec fn spec_from_xkb(old: XkbConfig, new: XkbConfig) -> Seq<Event> {
    if xkb_config_eqv(old, new) {
        Seq::<Event>::empty()
    } else {
        part(old.rules@ != new.rules@, kb_ev(KeyboardEvent::Rules(new.rules))) + part(
            old.model@ != new.model@,
            kb_ev(KeyboardEvent::Model(new.model)),
        ) + part(old.layout@ != new.layout@, kb_ev(KeyboardEvent::Layout(new.layout))) + part(
            old.variant@ != new.variant@,
            kb_ev(KeyboardEvent::Variant(new.variant)),
        ) + part(
            !opt_string_eqv(old.options, new.options),
            kb_ev(KeyboardEvent::Options(new.options)),
        ) + part(
            old.repeat_delay != new.repeat_delay,
            kb_ev(KeyboardEvent::RepeatDelay(new.repeat_delay)),
        ) + part(
            old.repeat_rate != new.repeat_rate,
            kb_ev(KeyboardEvent::RepeatRate(new.repeat_rate)),
        )
    }
}

/// The keyboard boot-behaviour diff.
pub open spec fn spec_from_keyboard(old: KeyboardConfig, new: KeyboardConfig) -> Seq<Event> {
    part(
        old.numlock_state != new.numlock_state,
        kb_ev(KeyboardEvent::NumLock(new.numlock_state)),
    )
}


/// Clone an optional string, preserving the value exactly.
fn clone_opt_string(a: &Option<String>) -> (r: Option<String>)
    ensures
        r == *a,
{
    match a {
        Option::None => Option::None,
        Option::Some(s) => Option::Some(s.clone()),
    }
}

/// Append one event when the guarding condition holds; the workhorse of the
/// field walk.
fn push_if(events: &mut Vec<Event>, changed: bool, e: Event)
    ensures
        final(events)@ == old(events)@ + part(changed, e),
{
    if changed {
        events.push(e);
    }
    proof {
        assert(events@ =~= old(events)@ + part(changed, e));
    }
}

/// Append the touchpad scroll group: the coarse composite event, then the
/// sub-field events when the composite was present on both sides.
fn push_tp_scroll(events: &mut Vec<Event>, old_cfg: &InputConfig, new_cfg: &InputConfig)
    ensures
        final(events)@ == old(events)@ + tp_scroll_events(*old_cfg, *new_cfg),
{
    if !opt_scroll_eq(&old_cfg.scroll_config, &new_cfg.scroll_config) {
        events.push(
            Event::Input(InputEvent::TouchPad(TouchpadEvent::ScrollConfig(new_cfg.scroll_config))),
        );
        if let (Option::Some(o), Option::Some(n)) = (&old_cfg.scroll_config, &new_cfg.scroll_config) {
            push_if(
                events,
                !(o.method == n.method),
                Event::Input(InputEvent::TouchPad(TouchpadEvent::ScrollMethod(n.method))),
            );
            push_if(
                events,
                n.natural_scroll.is_some() && !(o.natural_scroll == n.natural_scroll),
                Event::Input(InputEvent::TouchPad(TouchpadEvent::NaturalScroll(n.natural_scroll))),
            );
            push_if(
                events,
                n.scroll_button.is_some() && !(o.scroll_button == n.scroll_button),
                Event::Input(InputEvent::TouchPad(TouchpadEvent::ScrollButton(n.scroll_button))),
            );
            push_if(
                events,
                n.scroll_factor.is_some() && !(o.scroll_factor == n.scroll_factor),
                Event::Input(InputEvent::TouchPad(TouchpadEvent::ScrollFactor(n.scroll_factor))),
            );
        }
    }
    proof {
        assert(events@ =~= old(events)@ + tp_scroll_events(*old_cfg, *new_cfg));
    }
}

/// Append the touchpad tap group: the coarse composite event, then the
/// sub-field events when the composite was present on both sides.
fn push_tp_tap(events: &mut Vec<Event>, old_cfg: &InputConfig, new_cfg: &InputConfig)
    ensures
        final(events)@ == old(events)@ + tp_tap_events(*old_cfg, *new_cfg),
{
    if !opt_tap_eq(&old_cfg.tap_config, &new_cfg.tap_config) {
        events.push(
            Event::Input(InputEvent::TouchPad(TouchpadEvent::TapConfig(new_cfg.tap_config))),
        );
        if let (Option::Some(o), Option::Some(n)) = (&old_cfg.tap_config, &new_cfg.tap_config) {
            push_if(
                events,
                !(o.enabled == n.enabled),
                Event::Input(InputEvent::TouchPad(TouchpadEvent::TapEnabled(n.enabled))),
            );
            push_if(
                events,
                !(o.button_map == n.button_map),
                Event::Input(InputEvent::TouchPad(TouchpadEvent::TapButtonMap(n.button_map))),
            );
            push_if(
                events,
                !(o.drag == n.drag),
                Event::Input(InputEvent::TouchPad(TouchpadEvent::TapDrag(n.drag))),
            );
            push_if(
                events,
                !(o.drag_lock == n.drag_lock),
                Event::Input(InputEvent::TouchPad(TouchpadEvent::TapDragLock(n.drag_lock))),
            );
        }
    }
    proof {
        assert(events@ =~= old(events)@ + tp_tap_events(*old_cfg, *new_cfg));
    }
}

/// Append the mouse scroll group: the coarse composite event, then the
/// sub-field events when the composite was present on both sides.
fn push_ms_scroll(events: &mut Vec<Event>, old_cfg: &InputConfig, new_cfg: &InputConfig)
    ensures
        final(events)@ == old(events)@ + ms_scroll_events(*old_cfg, *new_cfg),
{
    if !opt_scroll_eq(&old_cfg.scroll_config, &new_cfg.scroll_config) {
        events.push(
            Event::Input(InputEvent::Mouse(MouseEvent::ScrollConfig(new_cfg.scroll_config))),
        );
        if let (Option::Some(o), Option::Some(n)) = (&old_cfg.scroll_config, &new_cfg.scroll_config) {
            push_if(
                events,
                !(o.method == n.method),
                Event::Input(InputEvent::Mouse(MouseEvent::ScrollMethod(n.method))),
            );
            push_if(
                events,
                n.natural_scroll.is_some() && !(o.natural_scroll == n.natural_scroll),
                Event::Input(InputEvent::Mouse(MouseEvent::NaturalScroll(n.natural_scroll))),
            );
            push_if(
                events,
                n.scroll_button.is_some() && !(o.scroll_button == n.scroll_button),
                Event::Input(InputEvent::Mouse(MouseEvent::ScrollButton(n.scroll_button))),
            );
            push_if(
                events,
                n.scroll_factor.is_some() && !(o.scroll_factor == n.scroll_factor),
                Event::Input(InputEvent::Mouse(MouseEvent::ScrollFactor(n.scroll_factor))),
            );
        }
    }
    proof {
        assert(events@ =~= old(events)@ + ms_scroll_events(*old_cfg, *new_cfg));
    }
}

impl InputConfig {
    /// Diff `self` (the old snapshot) against `new` for the touchpad
    /// domain: empty on a rewrite with identical content, otherwise one
    /// event per changed field in the declared order, the coarse composite
    /// event first within its group.
    pub fn from_touchpad(&self, new: &InputConfig) -> (r: Vec<Event>)
        ensures
            r@ == spec_from_touchpad(*self, *new),
    {
        if self.same_as(new) {
            let r: Vec<Event> = Vec::new();
            assert(r@ =~= spec_from_touchpad(*self, *new));
            return r;
        }
        let mut events: Vec<Event> = Vec::new();
        push_if(
            &mut events,
            !(self.state == new.state),
            Event::Input(InputEvent::TouchPad(TouchpadEvent::State(new.state))),
        );
        push_if(
            &mut events,
            !crate::model::opt_accel_eq(&self.acceleration, &new.acceleration),
            Event::Input(InputEvent::TouchPad(TouchpadEvent::Acceleration(new.acceleration))),
        );
        push_if(
            &mut events,
            !crate::model::opt_calibration_eq(&self.calibration, &new.calibration),
            Event::Input(InputEvent::TouchPad(TouchpadEvent::Calibration(new.calibration))),
        );
        push_if(
            &mut events,
            !(self.click_method == new.click_method),
            Event::Input(InputEvent::TouchPad(TouchpadEvent::ClickMethod(new.click_method))),
        );
        push_if(
            &mut events,
            new.disable_while_typing.is_some() && !(self.disable_while_typing
                == new.disable_while_typing),
            Event::Input(
                InputEvent::TouchPad(TouchpadEvent::DisableWhileTyping(new.disable_while_typing)),
            ),
        );
        push_if(
            &mut events,
            new.left_handed.is_some() && !(self.left_handed == new.left_handed),
            Event::Input(InputEvent::TouchPad(TouchpadEvent::LeftHanded(new.left_handed))),
        );
        push_if(
            &mut events,
            new.middle_button_emulation.is_some() && !(self.middle_button_emulation
                == new.middle_button_emulation),
            Event::Input(
                InputEvent::TouchPad(
                    TouchpadEvent::MiddleButtonEmulation(new.middle_button_emulation),
                ),
            ),
        );
        push_if(
            &mut events,
            new.rotation_angle.is_some() && !(self.rotation_angle == new.rotation_angle),
            Event::Input(InputEvent::TouchPad(TouchpadEvent::RotationAngle(new.rotation_angle))),
        );
        push_tp_scroll(&mut events, self, new);
        push_tp_tap(&mut events, self, new);
        let mo = clone_opt_string(&new.map_to_output);
        push_if(
            &mut events,
            !opt_string_eq(&self.map_to_output, &new.map_to_output),
            Event::Input(InputEvent::TouchPad(TouchpadEvent::MapToOutput(mo))),
        );
        proof {
            assert(events@ =~= spec_from_touchpad(*self, *new));
        }
        events
    }

    /// Diff `self` (the old snapshot) against `new` for the mouse domain:
    /// empty on a rewrite with identical content, otherwise one event per
    /// changed field in the declared order, the coarse composite event
    /// first within its group.
    pub fn from_mouse(&self, new: &InputConfig) -> (r: Vec<Event>)
        ensures
            r@ == spec_from_mouse(*self, *new),
    {
        if self.same_as(new) {
            let r: Vec<Event> = Vec::new();
            assert(r@ =~= spec_from_mouse(*self, *new));
            return r;
        }
        let mut events: Vec<Event> = Vec::new();
        push_if(
            &mut events,
            !(self.state == new.state),
            Event::Input(InputEvent::Mouse(MouseEvent::State(new.state))),
        );
        push_if(
            &mut events,
            !crate::model::opt_accel_eq(&self.acceleration, &new.acceleration),
            Event::Input(InputEvent::Mouse(MouseEvent::Acceleration(new.acceleration))),
        );
        push_if(
            &mut events,
            !crate::model::opt_calibration_eq(&self.calibration, &new.calibration),
            Event::Input(InputEvent::Mouse(MouseEvent::Calibration(new.calibration))),
        );
        push_if(
            &mut events,
            !(self.click_method == new.click_method),
            Event::Input(InputEvent::Mouse(MouseEvent::ClickMethod(new.click_method))),
        );
        push_if(
            &mut events,
            new.disable_while_typing.is_some() && !(self.disable_while_typing
                == new.disable_while_typing),
            Event::Input(
                InputEvent::Mouse(MouseEvent::DisableWhileTyping(new.disable_while_typing)),
            ),
        );
        push_if(
            &mut events,
            new.left_handed.is_some() && !(self.left_handed == new.left_handed),
            Event::Input(InputEvent::Mouse(MouseEvent::LeftHanded(new.left_handed))),
        );
        push_if(
            &mut events,
            new.middle_button_emulation.is_some() && !(self.middle_button_emulation
                == new.middle_button_emulation),
            Event::Input(
                InputEvent::Mouse(MouseEvent::MiddleButtonEmulation(new.middle_button_emulation)),
            ),
        );
        push_if(
            &mut events,
            new.rotation_angle.is_some() && !(self.rotation_angle == new.rotation_angle),
            Event::Input(InputEvent::Mouse(MouseEvent::RotationAngle(new.rotation_angle))),
        );
        push_ms_scroll(&mut events, self, new);
        push_if(
            &mut events,
            !opt_tap_eq(&self.tap_config, &new.tap_config),
            Event::Input(InputEvent::Mouse(MouseEvent::TapConfig(new.tap_config))),
        );
        let mo = clone_opt_string(&new.map_to_output);
        push_if(
            &mut events,
            !opt_string_eq(&self.map_to_output, &new.map_to_output),
            Event::Input(InputEvent::Mouse(MouseEvent::MapToOutput(mo))),
        );
        proof {
            assert(events@ =~= spec_from_mouse(*self, *new));
        }
        events
    }
}

impl XkbConfig {
    /// Diff `self` (the old snapshot) against `new` for the keyboard layout
    /// domain, in the declared field order.
    pub fn from(&self, new: &XkbConfig) -> (r: Vec<Event>)
        ensures
            r@ == spec_from_xkb(*self, *new),
    {
        if self.same_as(new) {
            let r: Vec<Event> = Vec::new();
            assert(r@ =~= spec_from_xkb(*self, *new));
            return r;
        }
        let mut events: Vec<Event> = Vec::new();
        push_if(
            &mut events,
            !(self.rules == new.rules),
            Event::Input(InputEvent::Keyboard(KeyboardEvent::Rules(new.rules.clone()))),
        );
        push_if(
            &mut events,
            !(self.model == new.model),
            Event::Input(InputEvent::Keyboard(KeyboardEvent::Model(new.model.clone()))),
        );
        push_if(
            &mut events,
            !(self.layout == new.layout),
            Event::Input(InputEvent::Keyboard(KeyboardEvent::Layout(new.layout.clone()))),
        );
        push_if(
            &mut events,
            !(self.variant == new.variant),
            Event::Input(InputEvent::Keyboard(KeyboardEvent::Variant(new.variant.clone()))),
        );
        let opts = clone_opt_string(&new.options);
        push_if(
            &mut events,
            !opt_string_eq(&self.options, &new.options),
            Event::Input(InputEvent::Keyboard(KeyboardEvent::Options(opts))),
        );
        push_if(
            &mut events,
            !(self.repeat_delay == new.repeat_delay),
            Event::Input(InputEvent::Keyboard(KeyboardEvent::RepeatDelay(new.repeat_delay))),
        );
        push_if(
            &mut events,
            !(self.repeat_rate == new.repeat_rate),
            Event::Input(InputEvent::Keyboard(KeyboardEvent::RepeatRate(new.repeat_rate))),
        );
        proof {
            assert(events@ =~= spec_from_xkb(*self, *new));
        }
        events
    }
}

impl KeyboardConfig {
    /// Diff `self` (the old snapshot) against `new` for the keyboard
    /// boot-behaviour domain.
    pub fn from(&self, new: &KeyboardConfig) -> (r: Vec<Event>)
        ensures
            r@ == spec_from_keyboard(*self, *new),
    {
        let mut events: Vec<Event> = Vec::new();
        push_if(
            &mut events,
            !(self.numlock_state == new.numlock_state),
            Event::Input(InputEvent::Keyboard(KeyboardEvent::NumLock(new.numlock_state))),
        );
        proof {
            assert(events@ =~= spec_from_keyboard(*self, *new));
        }
        events
    }
}


/// Is `e` a touchpad scroll sub-field event (as opposed to the coarse
/// composite scroll event)?
pub open spec fn is_tp_scroll_sub(e: Event) -> bool {
    match e {
        Event::Input(ie) => match ie {
            InputEvent::TouchPad(t) => t is ScrollMethod || t is NaturalScroll || t is ScrollButton
                || t is ScrollFactor,
            _ => false,
        },
    }
}

/// Is `e` a touchpad tap sub-field event (as opposed to the coarse
/// composite tap event)?
pub open spec fn is_tp_tap_sub(e: Event) -> bool {
    match e {
        Event::Input(ie) => match ie {
            InputEvent::TouchPad(t) => t is TapEnabled || t is TapButtonMap || t is TapDrag
                || t is TapDragLock,
            _ => false,
        },
    }
}

/// Is `e` a mouse scroll sub-field event (as opposed to the coarse
/// composite scroll event)?
pub open spec fn is_ms_scroll_sub(e: Event) -> bool {
    match e {
        Event::Input(ie) => match ie {
            InputEvent::Mouse(m) => m is ScrollMethod || m is NaturalScroll || m is ScrollButton
                || m is ScrollFactor,
            _ => false,
        },
    }
}

/// Is `e` the coarse touchpad scroll composite event?
pub open spec fn is_tp_scroll_coarse(e: Event) -> bool {
    match e {
        Event::Input(ie) => match ie {
            InputEvent::TouchPad(t) => t is ScrollConfig,
            _ => false,
        },
    }
}

/// Is `e` the coarse touchpad tap composite event?
pub open spec fn is_tp_tap_coarse(e: Event) -> bool {
    match e {
        Event::Input(ie) => match ie {
            InputEvent::TouchPad(t) => t is TapConfig,
            _ => false,
        },
    }
}

/// Is `e` the coarse mouse scroll composite event?
pub open spec fn is_ms_scroll_coarse(e: Event) -> bool {
    match e {
        Event::Input(ie) => match ie {
            InputEvent::Mouse(m) => m is ScrollConfig,
            _ => false,
        },
    }
}

/// Is `e` the coarse mouse tap composite event?
pub open spec fn is_ms_tap_coarse(e: Event) -> bool {
    match e {
        Event::Input(ie) => match ie {
            InputEvent::Mouse(m) => m is TapConfig,
            _ => false,
        },
    }
}

/// Diffing a snapshot against itself yields no events: re-sending an
/// identical snapshot is filtered out entirely, for every domain.
pub proof fn lemma_diff_self_empty(x: InputConfig, k: XkbConfig, b: KeyboardConfig)
    ensures
        spec_from_touchpad(x, x) == Seq::<Event>::empty(),
        spec_from_mouse(x, x) == Seq::<Event>::empty(),
        spec_from_xkb(k, k) == Seq::<Event>::empty(),
        spec_from_keyboard(b, b) == Seq::<Event>::empty(),
{
    assert(input_config_eqv(x, x));
    assert(xkb_config_eqv(k, k));
}

/// The diff of one domain is a function of the two snapshots alone: two
/// runs over the same pair give the same sequence, element for element, in
/// the same order.
pub proof fn lemma_diff_deterministic(
    a: InputConfig,
    b: InputConfig,
    r1: Seq<Event>,
    r2: Seq<Event>,
)
    requires
        r1 == spec_from_touchpad(a, b),
        r2 == spec_from_touchpad(a, b),
    ensures
        r1 == r2,
{
}

/// Every element of `part(c, e)` is `e` itself.
proof fn lemma_part_all_not(p: spec_fn(Event) -> bool, c: bool, e: Event)
    requires
        !p(e),
    ensures
        forall|k: int| 0 <= k < part(c, e).len() ==> !p(part(c, e)[k]),
{
}

/// Concatenation preserves "no element satisfies p".
proof fn lemma_add_all_not(p: spec_fn(Event) -> bool, a: Seq<Event>, b: Seq<Event>)
    requires
        forall|k: int| 0 <= k < a.len() ==> !p(a[k]),
        forall|k: int| 0 <= k < b.len() ==> !p(b[k]),
    ensures
        forall|k: int| 0 <= k < (a + b).len() ==> !p((a + b)[k]),
{
    assert forall|k: int| 0 <= k < (a + b).len() implies !p((a + b)[k]) by {
        if k < a.len() {
            assert((a + b)[k] == a[k]);
        } else {
            assert((a + b)[k] == b[k - a.len()]);
        }
    }
}

/// No event of the scalar touchpad prefix satisfies `p`, provided none of
/// the eight scalar events does.
#[verifier::rlimit(100)]
proof fn lemma_tp_prefix_all_not(p: spec_fn(Event) -> bool, old: InputConfig, new: InputConfig)
    requires
        !p(tp_ev(TouchpadEvent::State(new.state))),
        !p(tp_ev(TouchpadEvent::Acceleration(new.acceleration))),
        !p(tp_ev(TouchpadEvent::Calibration(new.calibration))),
        !p(tp_ev(TouchpadEvent::ClickMethod(new.click_method))),
        !p(tp_ev(TouchpadEvent::DisableWhileTyping(new.disable_while_typing))),
        !p(tp_ev(TouchpadEvent::LeftHanded(new.left_handed))),
        !p(tp_ev(TouchpadEvent::MiddleButtonEmulation(new.middle_button_emulation))),
        !p(tp_ev(TouchpadEvent::RotationAngle(new.rotation_angle))),
    ensures
        forall|k: int|
            0 <= k < tp_scalar_prefix(old, new).len() ==> !p(tp_scalar_prefix(old, new)[k]),
{
    let s1 = part(old.state != new.state, tp_ev(TouchpadEvent::State(new.state)));
    let q2 = part(
        old.acceleration != new.acceleration,
        tp_ev(TouchpadEvent::Acceleration(new.acceleration)),
    );
    let q3 = part(
        old.calibration != new.calibration,
        tp_ev(TouchpadEvent::Calibration(new.calibration)),
    );
    let q4 = part(
        old.click_method != new.click_method,
        tp_ev(TouchpadEvent::ClickMethod(new.click_method)),
    );
    let q5 = part(
        new.disable_while_typing is Some && old.disable_while_typing != new.disable_while_typing,
        tp_ev(TouchpadEvent::DisableWhileTyping(new.disable_while_typing)),
    );
    let q6 = part(
        new.left_handed is Some && old.left_handed != new.left_handed,
        tp_ev(TouchpadEvent::LeftHanded(new.left_handed)),
    );
    let q7 = part(
        new.middle_button_emulation is Some && old.middle_button_emulation
            != new.middle_button_emulation,
        tp_ev(TouchpadEvent::MiddleButtonEmulation(new.middle_button_emulation)),
    );
    let q8 = part(
        new.rotation_angle is Some && old.rotation_angle != new.rotation_angle,
        tp_ev(TouchpadEvent::RotationAngle(new.rotation_angle)),
    );
    lemma_part_all_not(p, old.state != new.state, tp_ev(TouchpadEvent::State(new.state)));
    lemma_part_all_not(
        p,
        old.acceleration != new.acceleration,
        tp_ev(TouchpadEvent::Acceleration(new.acceleration)),
    );
    lemma_add_all_not(p, s1, q2);
    lemma_part_all_not(
        p,
        old.calibration != new.calibration,
        tp_ev(TouchpadEvent::Calibration(new.calibration)),
    );
    lemma_add_all_not(p, s1 + q2, q3);
    lemma_part_all_not(
        p,
        old.click_method != new.click_method,
        tp_ev(TouchpadEvent::ClickMethod(new.click_method)),
    );
    lemma_add_all_not(p, s1 + q2 + q3, q4);
    lemma_part_all_not(
        p,
        new.disable_while_typing is Some && old.disable_while_typing != new.disable_while_typing,
        tp_ev(TouchpadEvent::DisableWhileTyping(new.disable_while_typing)),
    );
    lemma_add_all_not(p, s1 + q2 + q3 + q4, q5);
    lemma_part_all_not(
        p,
        new.left_handed is Some && old.left_handed != new.left_handed,
        tp_ev(TouchpadEvent::LeftHanded(new.left_handed)),
    );
    lemma_add_all_not(p, s1 + q2 + q3 + q4 + q5, q6);
    lemma_part_all_not(
        p,
        new.middle_button_emulation is Some && old.middle_button_emulation
            != new.middle_button_emulation,
        tp_ev(TouchpadEvent::MiddleButtonEmulation(new.middle_button_emulation)),
    );
    lemma_add_all_not(p, s1 + q2 + q3 + q4 + q5 + q6, q7);
    lemma_part_all_not(
        p,
        new.rotation_angle is Some && old.rotation_angle != new.rotation_angle,
        tp_ev(TouchpadEvent::RotationAngle(new.rotation_angle)),
    );
    lemma_add_all_not(p, s1 + q2 + q3 + q4 + q5 + q6 + q7, q8);
    assert(tp_scalar_prefix(old, new) == s1 + q2 + q3 + q4 + q5 + q6 + q7 + q8);
}

/// No sub-field event of the touchpad scroll group satisfies `p`,
/// provided no scroll-sub-shaped event does.
proof fn lemma_tp_scroll_tail_all_not(p: spec_fn(Event) -> bool, old: InputConfig, new: InputConfig)
    requires
        forall|m| !p(tp_ev(TouchpadEvent::ScrollMethod(m))),
        forall|m| !p(tp_ev(TouchpadEvent::NaturalScroll(m))),
        forall|m| !p(tp_ev(TouchpadEvent::ScrollButton(m))),
        forall|m| !p(tp_ev(TouchpadEvent::ScrollFactor(m))),
    ensures
        forall|k: int|
            1 <= k < tp_scroll_events(old, new).len() ==> !p(tp_scroll_events(old, new)[k]),
{
    let s = tp_scroll_events(old, new);
    assert forall|k: int| 1 <= k < s.len() implies !p(s[k]) by {
        if old.scroll_config != new.scroll_config {
            match (old.scroll_config, new.scroll_config) {
                (Option::Some(o), Option::Some(n)) => {
                    let subs = tp_scroll_subs(o, n);
                    assert(s[k] == subs[k - 1]);
                    let u1 = part(o.method != n.method, tp_ev(TouchpadEvent::ScrollMethod(n.method)));
                    let u2 = part(
                        n.natural_scroll is Some && o.natural_scroll != n.natural_scroll,
                        tp_ev(TouchpadEvent::NaturalScroll(n.natural_scroll)),
                    );
                    let u3 = part(
                        n.scroll_button is Some && o.scroll_button != n.scroll_button,
                        tp_ev(TouchpadEvent::ScrollButton(n.scroll_button)),
                    );
                    let u4 = part(
                        n.scroll_factor is Some && o.scroll_factor != n.scroll_factor,
                        tp_ev(TouchpadEvent::ScrollFactor(n.scroll_factor)),
                    );
                    lemma_part_all_not(
                        p,
                        o.method != n.method,
                        tp_ev(TouchpadEvent::ScrollMethod(n.method)),
                    );
                    lemma_part_all_not(
                        p,
                        n.natural_scroll is Some && o.natural_scroll != n.natural_scroll,
                        tp_ev(TouchpadEvent::NaturalScroll(n.natural_scroll)),
                    );
                    lemma_add_all_not(p, u1, u2);
                    lemma_part_all_not(
                        p,
                        n.scroll_button is Some && o.scroll_button != n.scroll_button,
                        tp_ev(TouchpadEvent::ScrollButton(n.scroll_button)),
                    );
                    lemma_add_all_not(p, u1 + u2, u3);
                    lemma_part_all_not(
                        p,
                        n.scroll_factor is Some && o.scroll_factor != n.scroll_factor,
                        tp_ev(TouchpadEvent::ScrollFactor(n.scroll_factor)),
                    );
                    lemma_add_all_not(p, u1 + u2 + u3, u4);
                    assert(subs == u1 + u2 + u3 + u4);
                },
                _ => {},
            }
        }
    }
}

/// No event of the touchpad scroll group satisfies `p`, provided no
/// scroll-shaped event does.
proof fn lemma_tp_scroll_all_not(p: spec_fn(Event) -> bool, old: InputConfig, new: InputConfig)
    requires
        !p(tp_ev(TouchpadEvent::ScrollConfig(new.scroll_config))),
        forall|m| !p(tp_ev(TouchpadEvent::ScrollMethod(m))),
        forall|m| !p(tp_ev(TouchpadEvent::NaturalScroll(m))),
        forall|m| !p(tp_ev(TouchpadEvent::ScrollButton(m))),
        forall|m| !p(tp_ev(TouchpadEvent::ScrollFactor(m))),
    ensures
        forall|k: int|
            0 <= k < tp_scroll_events(old, new).len() ==> !p(tp_scroll_events(old, new)[k]),
{
    lemma_tp_scroll_tail_all_not(p, old, new);
    let s = tp_scroll_events(old, new);
    assert forall|k: int| 0 <= k < s.len() implies !p(s[k]) by {
        if k == 0 && old.scroll_config != new.scroll_config {
            assert(s[0] == tp_ev(TouchpadEvent::ScrollConfig(new.scroll_config)));
        }
    }
}

/// No sub-field event of the touchpad tap group satisfies `p`, provided
/// no tap-sub-shaped event does.
proof fn lemma_tp_tap_tail_all_not(p: spec_fn(Event) -> bool, old: InputConfig, new: InputConfig)
    requires
        forall|m| !p(tp_ev(TouchpadEvent::TapEnabled(m))),
        forall|m| !p(tp_ev(TouchpadEvent::TapButtonMap(m))),
        forall|m| !p(tp_ev(TouchpadEvent::TapDrag(m))),
        forall|m| !p(tp_ev(TouchpadEvent::TapDragLock(m))),
    ensures
        forall|k: int| 1 <= k < tp_tap_events(old, new).len() ==> !p(tp_tap_events(old, new)[k]),
{
    let s = tp_tap_events(old, new);
    assert forall|k: int| 1 <= k < s.len() implies !p(s[k]) by {
        if old.tap_config != new.tap_config {
            match (old.tap_config, new.tap_config) {
                (Option::Some(o), Option::Some(n)) => {
                    let subs = tp_tap_subs(o, n);
                    assert(s[k] == subs[k - 1]);
                    let u1 = part(o.enabled != n.enabled, tp_ev(TouchpadEvent::TapEnabled(n.enabled)));
                    let u2 = part(
                        o.button_map != n.button_map,
                        tp_ev(TouchpadEvent::TapButtonMap(n.button_map)),
                    );
                    let u3 = part(o.drag != n.drag, tp_ev(TouchpadEvent::TapDrag(n.drag)));
                    let u4 = part(
                        o.drag_lock != n.drag_lock,
                        tp_ev(TouchpadEvent::TapDragLock(n.drag_lock)),
                    );
                    lemma_part_all_not(
                        p,
                        o.enabled != n.enabled,
                        tp_ev(TouchpadEvent::TapEnabled(n.enabled)),
                    );
                    lemma_part_all_not(
                        p,
                        o.button_map != n.button_map,
                        tp_ev(TouchpadEvent::TapButtonMap(n.button_map)),
                    );
                    lemma_add_all_not(p, u1, u2);
                    lemma_part_all_not(p, o.drag != n.drag, tp_ev(TouchpadEvent::TapDrag(n.drag)));
                    lemma_add_all_not(p, u1 + u2, u3);
                    lemma_part_all_not(
                        p,
                        o.drag_lock != n.drag_lock,
                        tp_ev(TouchpadEvent::TapDragLock(n.drag_lock)),
                    );
                    lemma_add_all_not(p, u1 + u2 + u3, u4);
                    assert(subs == u1 + u2 + u3 + u4);
                },
                _ => {},
            }
        }
    }
}

/// No event of the touchpad tap group satisfies `p`, provided no
/// tap-shaped event does.
proof fn lemma_tp_tap_all_not(p: spec_fn(Event) -> bool, old: InputConfig, new: InputConfig)
    requires
        !p(tp_ev(TouchpadEvent::TapConfig(new.tap_config))),
        forall|m| !p(tp_ev(TouchpadEvent::TapEnabled(m))),
        forall|m| !p(tp_ev(TouchpadEvent::TapButtonMap(m))),
        forall|m| !p(tp_ev(TouchpadEvent::TapDrag(m))),
        forall|m| !p(tp_ev(TouchpadEvent::TapDragLock(m))),
    ensures
        forall|k: int| 0 <= k < tp_tap_events(old, new).len() ==> !p(tp_tap_events(old, new)[k]),
{
    lemma_tp_tap_tail_all_not(p, old, new);
    let s = tp_tap_events(old, new);
    assert forall|k: int| 0 <= k < s.len() implies !p(s[k]) by {
        if k == 0 && old.tap_config != new.tap_config {
            assert(s[0] == tp_ev(TouchpadEvent::TapConfig(new.tap_config)));
        }
    }
}

/// Whenever the scroll composite changes, exactly one coarse scroll
/// event stands in the touchpad diff, before every scroll sub-field
/// event.
pub proof fn lemma_tp_scroll_coarse_first(old: InputConfig, new: InputConfig)
    requires
        old.scroll_config != new.scroll_config,
    ensures
        ({
            let s = spec_from_touchpad(old, new);
            exists|i: int|
                0 <= i < s.len() && s[i] == tp_ev(TouchpadEvent::ScrollConfig(new.scroll_config))
                    && (forall|j: int| 0 <= j < s.len() && is_tp_scroll_sub(s[j]) ==> i < j)
                    && (forall|j: int| 0 <= j < s.len() && is_tp_scroll_coarse(s[j]) ==> j == i)
        }),
{
    let s = spec_from_touchpad(old, new);
    let pre = tp_scalar_prefix(old, new);
    let scr = tp_scroll_events(old, new);
    let tap = tp_tap_events(old, new);
    let mp = part(
        !opt_string_eqv(old.map_to_output, new.map_to_output),
        tp_ev(TouchpadEvent::MapToOutput(new.map_to_output)),
    );
    assert(!input_config_eqv(old, new));
    let p = |e: Event| is_tp_scroll_sub(e);
    lemma_tp_prefix_all_not(p, old, new);
    let q = |e: Event| is_tp_scroll_coarse(e);
    lemma_tp_prefix_all_not(q, old, new);
    lemma_tp_scroll_tail_all_not(q, old, new);
    lemma_tp_tap_all_not(q, old, new);
    lemma_part_all_not(
        q,
        !opt_string_eqv(old.map_to_output, new.map_to_output),
        tp_ev(TouchpadEvent::MapToOutput(new.map_to_output)),
    );
    let i = pre.len() as int;
    assert(scr[0] == tp_ev(TouchpadEvent::ScrollConfig(new.scroll_config)));
    assert(s[i] == tp_ev(TouchpadEvent::ScrollConfig(new.scroll_config)));
    assert forall|j: int| 0 <= j < s.len() && is_tp_scroll_sub(s[j]) implies i < j by {
        if j < i {
            assert(s[j] == pre[j]);
            assert(!p(pre[j]));
        } else if j == i {
            assert(!is_tp_scroll_sub(s[i]));
        }
    }
    assert forall|j: int| 0 <= j < s.len() && is_tp_scroll_coarse(s[j]) implies j == i by {
        if j < i {
            assert(s[j] == pre[j]);
            assert(!q(pre[j]));
        } else if j > i {
            if j < pre.len() + scr.len() {
                assert(s[j] == scr[j - pre.len()]);
                assert(!q(scr[j - pre.len()]));
            } else if j < pre.len() + scr.len() + tap.len() {
                assert(s[j] == tap[j - pre.len() - scr.len()]);
                assert(!q(tap[j - pre.len() - scr.len()]));
            } else {
                assert(s[j] == mp[j - pre.len() - scr.len() - tap.len()]);
                assert(!q(mp[j - pre.len() - scr.len() - tap.len()]));
            }
        }
    }
    assert(0 <= i < s.len() && s[i] == tp_ev(TouchpadEvent::ScrollConfig(new.scroll_config)) && (
    forall|j: int| 0 <= j < s.len() && is_tp_scroll_sub(s[j]) ==> i < j) && (forall|j: int|
        0 <= j < s.len() && is_tp_scroll_coarse(s[j]) ==> j == i));
}

/// Whenever the tap composite changes, exactly one coarse tap event
/// stands in the touchpad diff, before every tap sub-field event.
pub proof fn lemma_tp_tap_coarse_first(old: InputConfig, new: InputConfig)
    requires
        old.tap_config != new.tap_config,
    ensures
        ({
            let s = spec_from_touchpad(old, new);
            exists|i: int|
                0 <= i < s.len() && s[i] == tp_ev(TouchpadEvent::TapConfig(new.tap_config))
                    && (forall|j: int| 0 <= j < s.len() && is_tp_tap_sub(s[j]) ==> i < j) && (
                forall|j: int| 0 <= j < s.len() && is_tp_tap_coarse(s[j]) ==> j == i)
        }),
{
    let s = spec_from_touchpad(old, new);
    let pre = tp_scalar_prefix(old, new);
    let scr = tp_scroll_events(old, new);
    let tap = tp_tap_events(old, new);
    let mp = part(
        !opt_string_eqv(old.map_to_output, new.map_to_output),
        tp_ev(TouchpadEvent::MapToOutput(new.map_to_output)),
    );
    assert(!input_config_eqv(old, new));
    let p = |e: Event| is_tp_tap_sub(e);
    lemma_tp_prefix_all_not(p, old, new);
    lemma_tp_scroll_all_not(p, old, new);
    lemma_add_all_not(p, pre, scr);
    let q = |e: Event| is_tp_tap_coarse(e);
    lemma_tp_prefix_all_not(q, old, new);
    lemma_tp_scroll_all_not(q, old, new);
    lemma_tp_tap_tail_all_not(q, old, new);
    lemma_part_all_not(
        q,
        !opt_string_eqv(old.map_to_output, new.map_to_output),
        tp_ev(TouchpadEvent::MapToOutput(new.map_to_output)),
    );
    let i = (pre + scr).len() as int;
    assert(tap[0] == tp_ev(TouchpadEvent::TapConfig(new.tap_config)));
    assert(s[i] == tp_ev(TouchpadEvent::TapConfig(new.tap_config)));
    assert forall|j: int| 0 <= j < s.len() && is_tp_tap_sub(s[j]) implies i < j by {
        if j < i {
            assert(s[j] == (pre + scr)[j]);
            assert(!p((pre + scr)[j]));
        } else if j == i {
            assert(!is_tp_tap_sub(s[i]));
        }
    }
    assert forall|j: int| 0 <= j < s.len() && is_tp_tap_coarse(s[j]) implies j == i by {
        if j < pre.len() {
            assert(s[j] == pre[j]);
            assert(!q(pre[j]));
        } else if j < pre.len() + scr.len() {
            assert(s[j] == scr[j - pre.len()]);
            assert(!q(scr[j - pre.len()]));
        } else if j > i && j < pre.len() + scr.len() + tap.len() {
            assert(s[j] == tap[j - pre.len() - scr.len()]);
            assert(!q(tap[j - pre.len() - scr.len()]));
        } else if j >= pre.len() + scr.len() + tap.len() && j < s.len() {
            assert(s[j] == mp[j - pre.len() - scr.len() - tap.len()]);
            assert(!q(mp[j - pre.len() - scr.len() - tap.len()]));
        }
    }
    assert(0 <= i < s.len() && s[i] == tp_ev(TouchpadEvent::TapConfig(new.tap_config)) && (forall|
        j: int,
    | 0 <= j < s.len() && is_tp_tap_sub(s[j]) ==> i < j) && (forall|j: int|
        0 <= j < s.len() && is_tp_tap_coarse(s[j]) ==> j == i));
}

/// No event of the scalar mouse prefix satisfies `p`, provided none of the
/// eight scalar events does.
#[verifier::rlimit(100)]
proof fn lemma_ms_prefix_all_not(p: spec_fn(Event) -> bool, old: InputConfig, new: InputConfig)
    requires
        !p(ms_ev(MouseEvent::State(new.state))),
        !p(ms_ev(MouseEvent::Acceleration(new.acceleration))),
        !p(ms_ev(MouseEvent::Calibration(new.calibration))),
        !p(ms_ev(MouseEvent::ClickMethod(new.click_method))),
        !p(ms_ev(MouseEvent::DisableWhileTyping(new.disable_while_typing))),
        !p(ms_ev(MouseEvent::LeftHanded(new.left_handed))),
        !p(ms_ev(MouseEvent::MiddleButtonEmulation(new.middle_button_emulation))),
        !p(ms_ev(MouseEvent::RotationAngle(new.rotation_angle))),
    ensures
        forall|k: int|
            0 <= k < ms_scalar_prefix(old, new).len() ==> !p(ms_scalar_prefix(old, new)[k]),
{
    let s1 = part(old.state != new.state, ms_ev(MouseEvent::State(new.state)));
    let q2 = part(
        old.acceleration != new.acceleration,
        ms_ev(MouseEvent::Acceleration(new.acceleration)),
    );
    let q3 = part(old.calibration != new.calibration,
        ms_ev(MouseEvent::Calibration(new.calibration)));
    let q4 = part(
        old.click_method != new.click_method,
        ms_ev(MouseEvent::ClickMethod(new.click_method)),
    );
    let q5 = part(
        new.disable_while_typing is Some && old.disable_while_typing != new.disable_while_typing,
        ms_ev(MouseEvent::DisableWhileTyping(new.disable_while_typing)),
    );
    let q6 = part(new.left_handed is Some && old.left_handed != new.left_handed,
        ms_ev(MouseEvent::LeftHanded(new.left_handed)));
    let q7 = part(
        new.middle_button_emulation is Some && old.middle_button_emulation
            != new.middle_button_emulation,
        ms_ev(MouseEvent::MiddleButtonEmulation(new.middle_button_emulation)),
    );
    let q8 = part(
        new.rotation_angle is Some && old.rotation_angle != new.rotation_angle,
        ms_ev(MouseEvent::RotationAngle(new.rotation_angle)),
    );
    lemma_part_all_not(p, old.state != new.state, ms_ev(MouseEvent::State(new.state)));
    lemma_part_all_not(
        p,
        old.acceleration != new.acceleration,
        ms_ev(MouseEvent::Acceleration(new.acceleration)),
    );
    lemma_add_all_not(p, s1, q2);
    lemma_part_all_not(
        p,
        old.calibration != new.calibration,
        ms_ev(MouseEvent::Calibration(new.calibration)),
    );
    lemma_add_all_not(p, s1 + q2, q3);
    lemma_part_all_not(
        p,
        old.click_method != new.click_method,
        ms_ev(MouseEvent::ClickMethod(new.click_method)),
    );
    lemma_add_all_not(p, s1 + q2 + q3, q4);
    lemma_part_all_not(
        p,
        new.disable_while_typing is Some && old.disable_while_typing != new.disable_while_typing,
        ms_ev(MouseEvent::DisableWhileTyping(new.disable_while_typing)),
    );
    lemma_add_all_not(p, s1 + q2 + q3 + q4, q5);
    lemma_part_all_not(
        p,
        old.left_handed != new.left_handed,
        ms_ev(MouseEvent::LeftHanded(new.left_handed)),
    );
    lemma_add_all_not(p, s1 + q2 + q3 + q4 + q5, q6);
    lemma_part_all_not(
        p,
        new.middle_button_emulation is Some && old.middle_button_emulation
            != new.middle_button_emulation,
        ms_ev(MouseEvent::MiddleButtonEmulation(new.middle_button_emulation)),
    );
    lemma_add_all_not(p, s1 + q2 + q3 + q4 + q5 + q6, q7);
    lemma_part_all_not(
        p,
        new.rotation_angle is Some && old.rotation_angle != new.rotation_angle,
        ms_ev(MouseEvent::RotationAngle(new.rotation_angle)),
    );
    lemma_add_all_not(p, s1 + q2 + q3 + q4 + q5 + q6 + q7, q8);
    assert(ms_scalar_prefix(old, new) == s1 + q2 + q3 + q4 + q5 + q6 + q7 + q8);
}

/// No sub-field event of the mouse scroll group satisfies `p`, provided
/// no scroll-sub-shaped event does.
proof fn lemma_ms_scroll_tail_all_not(p: spec_fn(Event) -> bool, old: InputConfig, new: InputConfig)
    requires
        forall|m| !p(ms_ev(MouseEvent::ScrollMethod(m))),
        forall|m| !p(ms_ev(MouseEvent::NaturalScroll(m))),
        forall|m| !p(ms_ev(MouseEvent::ScrollButton(m))),
        forall|m| !p(ms_ev(MouseEvent::ScrollFactor(m))),
    ensures
        forall|k: int|
            1 <= k < ms_scroll_events(old, new).len() ==> !p(ms_scroll_events(old, new)[k]),
{
    let s = ms_scroll_events(old, new);
    assert forall|k: int| 1 <= k < s.len() implies !p(s[k]) by {
        if old.scroll_config != new.scroll_config {
            match (old.scroll_config, new.scroll_config) {
                (Option::Some(o), Option::Some(n)) => {
                    let subs = ms_scroll_subs(o, n);
                    assert(s[k] == subs[k - 1]);
                    let u1 = part(o.method != n.method, ms_ev(MouseEvent::ScrollMethod(n.method)));
                    let u2 = part(
                        n.natural_scroll is Some && o.natural_scroll != n.natural_scroll,
                        ms_ev(MouseEvent::NaturalScroll(n.natural_scroll)),
                    );
                    let u3 = part(
                        n.scroll_button is Some && o.scroll_button != n.scroll_button,
                        ms_ev(MouseEvent::ScrollButton(n.scroll_button)),
                    );
                    let u4 = part(
                        n.scroll_factor is Some && o.scroll_factor != n.scroll_factor,
                        ms_ev(MouseEvent::ScrollFactor(n.scroll_factor)),
                    );
                    lemma_part_all_not(
                        p,
                        o.method != n.method,
                        ms_ev(MouseEvent::ScrollMethod(n.method)),
                    );
                    lemma_part_all_not(
                        p,
                        n.natural_scroll is Some && o.natural_scroll != n.natural_scroll,
                        ms_ev(MouseEvent::NaturalScroll(n.natural_scroll)),
                    );
                    lemma_add_all_not(p, u1, u2);
                    lemma_part_all_not(
                        p,
                        n.scroll_button is Some && o.scroll_button != n.scroll_button,
                        ms_ev(MouseEvent::ScrollButton(n.scroll_button)),
                    );
                    lemma_add_all_not(p, u1 + u2, u3);
                    lemma_part_all_not(
                        p,
                        n.scroll_factor is Some && o.scroll_factor != n.scroll_factor,
                        ms_ev(MouseEvent::ScrollFactor(n.scroll_factor)),
                    );
                    lemma_add_all_not(p, u1 + u2 + u3, u4);
                    assert(subs == u1 + u2 + u3 + u4);
                },
                _ => {},
            }
        }
    }
}

/// Whenever the scroll composite changes, exactly one coarse scroll
/// event stands in the mouse diff, before every scroll sub-field event.
pub proof fn lemma_ms_scroll_coarse_first(old: InputConfig, new: InputConfig)
    requires
        old.scroll_config != new.scroll_config,
    ensures
        ({
            let s = spec_from_mouse(old, new);
            exists|i: int|
                0 <= i < s.len() && s[i] == ms_ev(MouseEvent::ScrollConfig(new.scroll_config))
                    && (forall|j: int| 0 <= j < s.len() && is_ms_scroll_sub(s[j]) ==> i < j) && (
                forall|j: int| 0 <= j < s.len() && is_ms_scroll_coarse(s[j]) ==> j == i)
        }),
{
    let s = spec_from_mouse(old, new);
    let pre = ms_scalar_prefix(old, new);
    let scr = ms_scroll_events(old, new);
    let tp = part(old.tap_config != new.tap_config, ms_ev(MouseEvent::TapConfig(new.tap_config)));
    let mp = part(
        !opt_string_eqv(old.map_to_output, new.map_to_output),
        ms_ev(MouseEvent::MapToOutput(new.map_to_output)),
    );
    assert(!input_config_eqv(old, new));
    let p = |e: Event| is_ms_scroll_sub(e);
    lemma_ms_prefix_all_not(p, old, new);
    let q = |e: Event| is_ms_scroll_coarse(e);
    lemma_ms_prefix_all_not(q, old, new);
    lemma_ms_scroll_tail_all_not(q, old, new);
    lemma_part_all_not(
        q,
        old.tap_config != new.tap_config,
        ms_ev(MouseEvent::TapConfig(new.tap_config)),
    );
    lemma_part_all_not(
        q,
        !opt_string_eqv(old.map_to_output, new.map_to_output),
        ms_ev(MouseEvent::MapToOutput(new.map_to_output)),
    );
    let i = pre.len() as int;
    assert(scr[0] == ms_ev(MouseEvent::ScrollConfig(new.scroll_config)));
    assert(s[i] == ms_ev(MouseEvent::ScrollConfig(new.scroll_config)));
    assert forall|j: int| 0 <= j < s.len() && is_ms_scroll_sub(s[j]) implies i < j by {
        if j < i {
            assert(s[j] == pre[j]);
            assert(!p(pre[j]));
        } else if j == i {
            assert(!is_ms_scroll_sub(s[i]));
        }
    }
    assert forall|j: int| 0 <= j < s.len() && is_ms_scroll_coarse(s[j]) implies j == i by {
        if j < i {
            assert(s[j] == pre[j]);
            assert(!q(pre[j]));
        } else if j > i {
            if j < pre.len() + scr.len() {
                assert(s[j] == scr[j - pre.len()]);
                assert(!q(scr[j - pre.len()]));
            } else if j < pre.len() + scr.len() + tp.len() {
                assert(s[j] == tp[j - pre.len() - scr.len()]);
                assert(!q(tp[j - pre.len() - scr.len()]));
            } else {
                assert(s[j] == mp[j - pre.len() - scr.len() - tp.len()]);
                assert(!q(mp[j - pre.len() - scr.len() - tp.len()]));
            }
        }
    }
    assert(0 <= i < s.len() && s[i] == ms_ev(MouseEvent::ScrollConfig(new.scroll_config)) && (
    forall|j: int| 0 <= j < s.len() && is_ms_scroll_sub(s[j]) ==> i < j) && (forall|j: int|
        0 <= j < s.len() && is_ms_scroll_coarse(s[j]) ==> j == i));
}

/// Whenever the tap composite changes, exactly one coarse tap event
/// stands in the mouse diff; the mouse taxonomy defines no finer tap
/// events.
pub proof fn lemma_ms_tap_coarse(old: InputConfig, new: InputConfig)
    requires
        old.tap_config != new.tap_config,
    ensures
        ({
            let s = spec_from_mouse(old, new);
            exists|i: int|
                0 <= i < s.len() && s[i] == ms_ev(MouseEvent::TapConfig(new.tap_config)) && (
                forall|j: int| 0 <= j < s.len() && is_ms_tap_coarse(s[j]) ==> j == i)
        }),
{
    let s = spec_from_mouse(old, new);
    let pre = ms_scalar_prefix(old, new);
    let scr = ms_scroll_events(old, new);
    let tp = part(old.tap_config != new.tap_config, ms_ev(MouseEvent::TapConfig(new.tap_config)));
    let mp = part(
        !opt_string_eqv(old.map_to_output, new.map_to_output),
        ms_ev(MouseEvent::MapToOutput(new.map_to_output)),
    );
    assert(!input_config_eqv(old, new));
    let q = |e: Event| is_ms_tap_coarse(e);
    lemma_ms_prefix_all_not(q, old, new);
    lemma_ms_scroll_tail_all_not(q, old, new);
    lemma_part_all_not(
        q,
        !opt_string_eqv(old.map_to_output, new.map_to_output),
        ms_ev(MouseEvent::MapToOutput(new.map_to_output)),
    );
    let i = (pre + scr).len() as int;
    assert(tp[0] == ms_ev(MouseEvent::TapConfig(new.tap_config)));
    assert(s[i] == ms_ev(MouseEvent::TapConfig(new.tap_config)));
    assert forall|j: int| 0 <= j < s.len() && is_ms_tap_coarse(s[j]) implies j == i by {
        if j < pre.len() {
            assert(s[j] == pre[j]);
            assert(!q(pre[j]));
        } else if j < pre.len() + scr.len() {
            assert(s[j] == scr[j - pre.len()]);
            if j - pre.len() == 0 {
                assert(scr[0] == ms_ev(MouseEvent::ScrollConfig(new.scroll_config)));
            } else {
                assert(!q(scr[j - pre.len()]));
            }
        } else if j >= pre.len() + scr.len() + tp.len() && j < s.len() {
            assert(s[j] == mp[j - pre.len() - scr.len() - tp.len()]);
            assert(!q(mp[j - pre.len() - scr.len() - tp.len()]));
        }
    }
    assert(0 <= i < s.len() && s[i] == ms_ev(MouseEvent::TapConfig(new.tap_config)) && (forall|
        j: int,
    | 0 <= j < s.len() && is_ms_tap_coarse(s[j]) ==> j == i));
}

} // verus!
