//! Session detection: which desktop/compositor is active.
//!
//! The decision is a pure cascade over a snapshot of the relevant
//! environment variables, taken once at process start by the surrounding
//! program. Socket variables of specific compositors win over the generic
//! desktop names, which are searched case-insensitively in a fixed order.

use vstd::prelude::*;

use crate::strutil::contains_ci;
use crate::strutil::contains_lower;
use crate::strutil::eq_lower;
use crate::strutil::lower_seq;

verus! {

/// The desktop environments and session kinds told apart.
#[derive(Clone, Debug, PartialEq)]
pub enum Desktop {
    Hyprland,
    Sway,
    Gnome,
    Kde,
    Plasma,
    Niri,
    Xfce,
    Cosmic,
    Wayland,
    X11,
    Tty,
    Unknown(String),
}

/// A snapshot of the environment variables that session detection reads.
#[derive(Clone, Debug, PartialEq)]
pub struct EnvSnapshot {
    pub session_type: Option<String>,
    pub hyprland_instance_signature: Option<String>,
    pub swaysock: Option<String>,
    pub niri_socket: Option<String>,
    pub xdg_current_desktop: Option<String>,
    pub xdg_session_desktop: Option<String>,
    pub desktop_session: Option<String>,
    pub wayland_display: Option<String>,
    pub display: Option<String>,
}

/// The desktop named inside one environment value, by the first matching
/// name in the declared search order.
pub open spec fn value_desktop(v: Seq<char>) -> Option<Desktop> {
    if contains_ci(v, "hyprland"@) {
        Option::Some(Desktop::Hyprland)
    } else if contains_ci(v, "sway"@) {
        Option::Some(Desktop::Sway)
    } else if contains_ci(v, "niri"@) {
        Option::Some(Desktop::Niri)
    } else if contains_ci(v, "gnome"@) {
        Option::Some(Desktop::Gnome)
    } else if contains_ci(v, "kde"@) {
        Option::Some(Desktop::Kde)
    } else if contains_ci(v, "plasma"@) {
        Option::Some(Desktop::Plasma)
    } else if contains_ci(v, "xfce"@) {
        Option::Some(Desktop::Xfce)
    } else if contains_ci(v, "cosmic"@) {
        Option::Some(Desktop::Cosmic)
    } else {
        Option::None
    }
}

/// The desktop named by the candidate variables, first present-and-matching
/// value wins.
pub open spec fn candidate_desktop(e: EnvSnapshot) -> Option<Desktop> {
    if e.xdg_current_desktop is Some && value_desktop(e.xdg_current_desktop->0@) is Some {
        value_desktop(e.xdg_current_desktop->0@)
    } else if e.xdg_session_desktop is Some && value_desktop(e.xdg_session_desktop->0@) is Some {
        value_desktop(e.xdg_session_desktop->0@)
    } else if e.desktop_session is Some && value_desktop(e.desktop_session->0@) is Some {
        value_desktop(e.desktop_session->0@)
    } else {
        Option::None
    }
}

/// The full detection cascade; `None` means nothing was detected.
pub open spec fn spec_detect(e: EnvSnapshot) -> Option<Desktop> {
    if e.session_type is Some && lower_seq(e.session_type->0@) == "tty"@ {
        Option::Some(Desktop::Tty)
    } else if e.hyprland_instance_signature is Some {
        Option::Some(Desktop::Hyprland)
    } else if e.swaysock is Some {
        Option::Some(Desktop::Sway)
    } else if e.niri_socket is Some {
        Option::Some(Desktop::Niri)
    } else if candidate_desktop(e) is Some {
        candidate_desktop(e)
    } else if e.wayland_display is Some {
        Option::Some(Desktop::Wayland)
    } else if e.display is Some {
        Option::Some(Desktop::X11)
    } else {
        Option::None
    }
}

/// The desktop named inside one environment value.
fn match_value(v: &str) -> (r: Option<Desktop>)
    ensures
        r == value_desktop(v@),
{
    if contains_lower(v, "hyprland") {
        Option::Some(Desktop::Hyprland)
    } else if contains_lower(v, "sway") {
        Option::Some(Desktop::Sway)
    } else if contains_lower(v, "niri") {
        Option::Some(Desktop::Niri)
    } else if contains_lower(v, "gnome") {
        Option::Some(Desktop::Gnome)
    } else if contains_lower(v, "kde") {
        Option::Some(Desktop::Kde)
    } else if contains_lower(v, "plasma") {
        Option::Some(Desktop::Plasma)
    } else if contains_lower(v, "xfce") {
        Option::Some(Desktop::Xfce)
    } else if contains_lower(v, "cosmic") {
        Option::Some(Desktop::Cosmic)
    } else {
        Option::None
    }
}

/// Detect the active desktop from an environment snapshot. Returns
/// exactly what the detection cascade declares, and `Unknown` only when
/// nothing at all was detected.
pub fn detect_desktop(e: &EnvSnapshot) -> (r: Desktop)
    ensures
        spec_detect(*e) is Some ==> r == spec_detect(*e)->0,
        spec_detect(*e) is None ==> (match r {
            Desktop::Unknown(m) => m@ == "Not Detected"@,
            _ => false,
        }),
{
    if let Option::Some(st) = &e.session_type {
        if eq_lower(st.as_str(), "tty") {
            return Desktop::Tty;
        }
    }
    if e.hyprland_instance_signature.is_some() {
        return Desktop::Hyprland;
    }
    if e.swaysock.is_some() {
        return Desktop::Sway;
    }
    if e.niri_socket.is_some() {
        return Desktop::Niri;
    }
    if let Option::Some(v) = &e.xdg_current_desktop {
        if let Option::Some(d) = match_value(v.as_str()) {
            return d;
        }
    }
    if let Option::Some(v) = &e.xdg_session_desktop {
        if let Option::Some(d) = match_value(v.as_str()) {
            return d;
        }
    }
    if let Option::Some(v) = &e.desktop_session {
        if let Option::Some(d) = match_value(v.as_str()) {
            return d;
        }
    }
    if e.wayland_display.is_some() {
        return Desktop::Wayland;
    }
    if e.display.is_some() {
        return Desktop::X11;
    }
    Desktop::Unknown("Not Detected".to_owned())
}

} // verus!
