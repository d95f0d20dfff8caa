//! The KDE Plasma backend planner.
//!
//! KDE applies input settings through its configuration writer tool
//! followed by a compositor reconfigure call over the session bus. Both
//! steps are process and bus work that the surrounding program performs;
//! what is decided here, and verified, is exactly which group, key and
//! value each event writes — or that it writes nothing.

use vstd::prelude::*;

use crate::event::Event;
use crate::event::InputEvent;
use crate::event::MouseEvent;
use crate::event::TouchpadEvent;
use crate::numfmt::milli_chars;
use crate::numfmt::milli_dec_chars;
use crate::strutil::chars_to_string;

verus! {

/// The textual form of a boolean config value.
pub open spec fn bool_text(b: bool) -> Seq<char> {
    if b {
        "true"@
    } else {
        "false"@
    }
}

/// One planned write to KDE's input configuration file.
#[derive(Clone, Debug, PartialEq)]
pub struct KdeWrite {
    pub group: &'static str,
    pub key: &'static str,
    pub value: String,
}

/// The textual form of a boolean config value.
pub fn bool_value(b: bool) -> (r: &'static str)
    ensures
        r@ == bool_text(b),
{
    if b {
        "true"
    } else {
        "false"
    }
}

/// Plan the write for one touchpad event. KDE exposes natural scrolling
/// and tap-to-click for touchpads; everything else writes nothing.
pub fn plan_touchpad_event(event: &TouchpadEvent) -> (r: Option<KdeWrite>)
    ensures
        (match event {
            TouchpadEvent::NaturalScroll(v) => v is Some,
            TouchpadEvent::TapEnabled(_) => true,
            _ => false,
        }) <==> r is Some,
        (*event matches TouchpadEvent::NaturalScroll(Some(b)) ==> (r matches Some(w)
            && w.group@ == "Libinput"@ && w.key@ == "NaturalScroll"@ && w.value@ == bool_text(b))),
        (*event matches TouchpadEvent::TapEnabled(b) ==> (r matches Some(w) && w.group@
            == "Libinput"@ && w.key@ == "TapToClick"@ && w.value@ == bool_text(b))),
{
    match event {
        TouchpadEvent::NaturalScroll(Some(b)) => Some(
            KdeWrite {
                group: "Libinput",
                key: "NaturalScroll",
                value: bool_value(*b).to_owned(),
            },
        ),
        TouchpadEvent::TapEnabled(b) => Some(
            KdeWrite { group: "Libinput", key: "TapToClick", value: bool_value(*b).to_owned() },
        ),
        _ => None,
    }
}

/// Plan the write for one mouse event. KDE exposes left-handed mode and
/// the wheel scroll factor for mice; everything else writes nothing.
pub fn plan_mouse_event(event: &MouseEvent) -> (r: Option<KdeWrite>)
    ensures
        (match event {
            MouseEvent::LeftHanded(v) => v is Some,
            MouseEvent::ScrollFactor(v) => v is Some,
            _ => false,
        }) <==> r is Some,
        (*event matches MouseEvent::LeftHanded(Some(b)) ==> (r matches Some(w) && w.group@
            == "Mouse"@ && w.key@ == "LeftHanded"@ && w.value@ == bool_text(b))),
        (*event matches MouseEvent::ScrollFactor(Some(f)) ==> (r matches Some(w) && w.group@
            == "Mouse"@ && w.key@ == "WheelScrollLines"@ && (f != i64::MIN ==> w.value@
            == milli_chars(f as int)))),
{
    match event {
        MouseEvent::LeftHanded(Some(b)) => Some(
            KdeWrite { group: "Mouse", key: "LeftHanded", value: bool_value(*b).to_owned() },
        ),
        MouseEvent::ScrollFactor(Some(f)) => {
            // The one unrepresentable magnitude is nudged up a thousandth.
            let v = if *f == i64::MIN {
                *f + 1
            } else {
                *f
            };
            Some(
                KdeWrite {
                    group: "Mouse",
                    key: "WheelScrollLines",
                    value: chars_to_string(&milli_dec_chars(v)),
                },
            )
        },
        _ => None,
    }
}

/// Plan the write for one event; keyboard events have no KDE writer here.
pub fn plan_event(event: &Event) -> (r: Option<KdeWrite>)
    ensures
        (match *event {
            Event::Input(InputEvent::TouchPad(TouchpadEvent::NaturalScroll(v))) => v is Some,
            Event::Input(InputEvent::TouchPad(TouchpadEvent::TapEnabled(_))) => true,
            Event::Input(InputEvent::Mouse(MouseEvent::LeftHanded(v))) => v is Some,
            Event::Input(InputEvent::Mouse(MouseEvent::ScrollFactor(v))) => v is Some,
            _ => false,
        }) <==> r is Some,
        (*event matches Event::Input(InputEvent::TouchPad(TouchpadEvent::NaturalScroll(Some(b))))
            ==> (r matches Some(w) && w.group@ == "Libinput"@ && w.key@ == "NaturalScroll"@
            && w.value@ == bool_text(b))),
        (*event matches Event::Input(InputEvent::TouchPad(TouchpadEvent::TapEnabled(b))) ==> (
        r matches Some(w) && w.group@ == "Libinput"@ && w.key@ == "TapToClick"@ && w.value@
            == bool_text(b))),
        (*event matches Event::Input(InputEvent::Mouse(MouseEvent::LeftHanded(Some(b)))) ==> (
        r matches Some(w) && w.group@ == "Mouse"@ && w.key@ == "LeftHanded"@ && w.value@
            == bool_text(b))),
        (*event matches Event::Input(InputEvent::Mouse(MouseEvent::ScrollFactor(Some(f)))) ==> (
        r matches Some(w) && w.group@ == "Mouse"@ && w.key@ == "WheelScrollLines"@ && (f
            != i64::MIN ==> w.value@ == milli_chars(f as int)))),
{
    match event {
        Event::Input(InputEvent::TouchPad(ev)) => plan_touchpad_event(ev),
        Event::Input(InputEvent::Mouse(ev)) => plan_mouse_event(ev),
        Event::Input(InputEvent::Keyboard(_)) => None,
    }
}

} // verus!
