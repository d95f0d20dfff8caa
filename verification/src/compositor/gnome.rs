//! The GNOME backend planner.
//!
//! GNOME applies input settings through its settings schemas, with a
//! forced backing-store sync after each write so a capability call is
//! durable before it returns. The schema writes themselves go through
//! the system's settings library in the surrounding program; what is
//! decided here, and verified, is exactly which schema, key and value
//! each event writes — or that it writes nothing.

use vstd::prelude::*;

use crate::event::Event;
use crate::event::InputEvent;
use crate::event::MouseEvent;
use crate::event::TouchpadEvent;

verus! {

/// Which settings schema a write goes to.
#[derive(Clone, Copy, Debug, PartialEq, Eq, Structural)]
pub enum GnomeTarget {
    /// org.gnome.desktop.peripherals.touchpad
    Touchpad,
    /// org.gnome.desktop.peripherals.mouse
    Mouse,
}

/// The value written to a schema key.
#[derive(Clone, Copy, Debug, PartialEq)]
pub enum GnomeValue {
    Flag(bool),
    Token(&'static str),
}

/// One planned settings-schema write.
#[derive(Clone, Copy, Debug, PartialEq)]
pub struct GnomeWrite {
    pub target: GnomeTarget,
    pub key: &'static str,
    pub value: GnomeValue,
}

/// Plan the write for one touchpad event. GNOME exposes tap-to-click,
/// natural scrolling, disable-while-typing, and a left-handed output
/// mode for touchpads; everything else writes nothing.
pub fn plan_touchpad_event(event: &TouchpadEvent) -> (r: Option<GnomeWrite>)
    ensures
        (match event {
            TouchpadEvent::TapEnabled(_) => true,
            TouchpadEvent::NaturalScroll(v) => v is Some,
            TouchpadEvent::DisableWhileTyping(v) => v is Some,
            TouchpadEvent::LeftHanded(v) => v is Some,
            _ => false,
        }) <==> r is Some,
        (*event matches TouchpadEvent::TapEnabled(b) ==> r == Some(
            GnomeWrite {
                target: GnomeTarget::Touchpad,
                key: "tap-to-click",
                value: GnomeValue::Flag(b),
            },
        )),
        (*event matches TouchpadEvent::NaturalScroll(Some(b)) ==> r == Some(
            GnomeWrite {
                target: GnomeTarget::Touchpad,
                key: "natural-scroll",
                value: GnomeValue::Flag(b),
            },
        )),
        (*event matches TouchpadEvent::DisableWhileTyping(Some(b)) ==> r == Some(
            GnomeWrite {
                target: GnomeTarget::Touchpad,
                key: "disable-while-typing",
                value: GnomeValue::Flag(b),
            },
        )),
        (*event matches TouchpadEvent::LeftHanded(Some(b)) ==> r == Some(
            GnomeWrite {
                target: GnomeTarget::Touchpad,
                key: "haptic-output-mode",
                value: GnomeValue::Token(
                    if b {
                        "left"
                    } else {
                        "mouse"
                    },
                ),
            },
        )),
{
    match event {
        TouchpadEvent::TapEnabled(b) => Some(
            GnomeWrite {
                target: GnomeTarget::Touchpad,
                key: "tap-to-click",
                value: GnomeValue::Flag(*b),
            },
        ),
        TouchpadEvent::NaturalScroll(Some(b)) => Some(
            GnomeWrite {
                target: GnomeTarget::Touchpad,
                key: "natural-scroll",
                value: GnomeValue::Flag(*b),
            },
        ),
        TouchpadEvent::DisableWhileTyping(Some(b)) => Some(
            GnomeWrite {
                target: GnomeTarget::Touchpad,
                key: "disable-while-typing",
                value: GnomeValue::Flag(*b),
            },
        ),
        TouchpadEvent::LeftHanded(Some(b)) => Some(
            GnomeWrite {
                target: GnomeTarget::Touchpad,
                key: "haptic-output-mode",
                value: GnomeValue::Token(
                    // "mouse" is the right-handed output mode.
                    if *b {
                        "left"
                    } else {
                        "mouse"
                    },
                ),
            },
        ),
        _ => None,
    }
}

/// Plan the write for one mouse event. GNOME exposes left-handed mode
/// and natural scrolling for mice; everything else writes nothing.
pub fn plan_mouse_event(event: &MouseEvent) -> (r: Option<GnomeWrite>)
    ensures
        (match event {
            MouseEvent::LeftHanded(v) => v is Some,
            MouseEvent::NaturalScroll(v) => v is Some,
            _ => false,
        }) <==> r is Some,
        (*event matches MouseEvent::LeftHanded(Some(b)) ==> r == Some(
            GnomeWrite {
                target: GnomeTarget::Mouse,
                key: "left-handed",
                value: GnomeValue::Flag(b),
            },
        )),
        (*event matches MouseEvent::NaturalScroll(Some(b)) ==> r == Some(
            GnomeWrite {
                target: GnomeTarget::Mouse,
                key: "natural-scroll",
                value: GnomeValue::Flag(b),
            },
        )),
{
    match event {
        MouseEvent::LeftHanded(Some(b)) => Some(
            GnomeWrite {
                target: GnomeTarget::Mouse,
                key: "left-handed",
                value: GnomeValue::Flag(*b),
            },
        ),
        MouseEvent::NaturalScroll(Some(b)) => Some(
            GnomeWrite {
                target: GnomeTarget::Mouse,
                key: "natural-scroll",
                value: GnomeValue::Flag(*b),
            },
        ),
        _ => None,
    }
}

/// Plan the write for one event; keyboard events have no GNOME writer
/// here.
pub fn plan_event(event: &Event) -> (r: Option<GnomeWrite>)
    ensures
        (match *event {
            Event::Input(InputEvent::TouchPad(TouchpadEvent::TapEnabled(_))) => true,
            Event::Input(InputEvent::TouchPad(TouchpadEvent::NaturalScroll(v))) => v is Some,
            Event::Input(InputEvent::TouchPad(TouchpadEvent::DisableWhileTyping(v))) => v is Some,
            Event::Input(InputEvent::TouchPad(TouchpadEvent::LeftHanded(v))) => v is Some,
            Event::Input(InputEvent::Mouse(MouseEvent::LeftHanded(v))) => v is Some,
            Event::Input(InputEvent::Mouse(MouseEvent::NaturalScroll(v))) => v is Some,
            _ => false,
        }) <==> r is Some,
        (*event matches Event::Input(InputEvent::TouchPad(TouchpadEvent::TapEnabled(b))) ==> r
            == Some(
            GnomeWrite {
                target: GnomeTarget::Touchpad,
                key: "tap-to-click",
                value: GnomeValue::Flag(b),
            },
        )),
        (*event matches Event::Input(InputEvent::TouchPad(TouchpadEvent::NaturalScroll(Some(b))))
            ==> r == Some(
            GnomeWrite {
                target: GnomeTarget::Touchpad,
                key: "natural-scroll",
                value: GnomeValue::Flag(b),
            },
        )),
        (*event matches Event::Input(
            InputEvent::TouchPad(TouchpadEvent::DisableWhileTyping(Some(b))),
        ) ==> r == Some(
            GnomeWrite {
                target: GnomeTarget::Touchpad,
                key: "disable-while-typing",
                value: GnomeValue::Flag(b),
            },
        )),
        (*event matches Event::Input(InputEvent::TouchPad(TouchpadEvent::LeftHanded(Some(b))))
            ==> r == Some(
            GnomeWrite {
                target: GnomeTarget::Touchpad,
                key: "haptic-output-mode",
                value: GnomeValue::Token(
                    if b {
                        "left"
                    } else {
                        "mouse"
                    },
                ),
            },
        )),
        (*event matches Event::Input(InputEvent::Mouse(MouseEvent::LeftHanded(Some(b)))) ==> r
            == Some(
            GnomeWrite {
                target: GnomeTarget::Mouse,
                key: "left-handed",
                value: GnomeValue::Flag(b),
            },
        )),
        (*event matches Event::Input(InputEvent::Mouse(MouseEvent::NaturalScroll(Some(b)))) ==> r
            == Some(
            GnomeWrite {
                target: GnomeTarget::Mouse,
                key: "natural-scroll",
                value: GnomeValue::Flag(b),
            },
        )),
{
    match event {
        Event::Input(InputEvent::TouchPad(ev)) => plan_touchpad_event(ev),
        Event::Input(InputEvent::Mouse(ev)) => plan_mouse_event(ev),
        Event::Input(InputEvent::Keyboard(_)) => None,
    }
}

} // verus!
