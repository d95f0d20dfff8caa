use cosmolith::identifier::Desktop;
use cosmolith::identifier::EnvSnapshot;
use cosmolith::identifier::detect_desktop;

fn empty_env() -> EnvSnapshot {
    EnvSnapshot {
        session_type: None,
        hyprland_instance_signature: None,
        swaysock: None,
        niri_socket: None,
        xdg_current_desktop: None,
        xdg_session_desktop: None,
        desktop_session: None,
        wayland_display: None,
        display: None,
    }
}

#[test]
fn detects_tty_session_first() {
    let mut e = empty_env();
    e.session_type = Some("TTY".to_string());
    e.hyprland_instance_signature = Some("sig".to_string());
    assert_eq!(detect_desktop(&e), Desktop::Tty);
}

#[test]
fn detects_hyprland_by_socket_variable() {
    let mut e = empty_env();
    e.session_type = Some("wayland".to_string());
    e.hyprland_instance_signature = Some("sig".to_string());
    assert_eq!(detect_desktop(&e), Desktop::Hyprland);
}

#[test]
fn detects_sway_by_socket_variable() {
    let mut e = empty_env();
    e.swaysock = Some("/run/sway.sock".to_string());
    assert_eq!(detect_desktop(&e), Desktop::Sway);
}

#[test]
fn detects_niri_by_socket_variable() {
    let mut e = empty_env();
    e.niri_socket = Some("/run/niri.sock".to_string());
    assert_eq!(detect_desktop(&e), Desktop::Niri);
}

#[test]
fn socket_variables_win_over_desktop_names() {
    let mut e = empty_env();
    e.swaysock = Some("/run/sway.sock".to_string());
    e.xdg_current_desktop = Some("GNOME".to_string());
    assert_eq!(detect_desktop(&e), Desktop::Sway);
}

#[test]
fn detects_desktop_names_case_insensitively() {
    let mut e = empty_env();
    e.xdg_current_desktop = Some("Hyprland".to_string());
    assert_eq!(detect_desktop(&e), Desktop::Hyprland);

    let mut e = empty_env();
    e.xdg_current_desktop = Some("KDE".to_string());
    assert_eq!(detect_desktop(&e), Desktop::Kde);

    let mut e = empty_env();
    e.xdg_current_desktop = Some("ubuntu:GNOME".to_string());
    assert_eq!(detect_desktop(&e), Desktop::Gnome);
}

#[test]
fn falls_through_unmatched_candidates() {
    let mut e = empty_env();
    e.xdg_current_desktop = Some("weston".to_string());
    e.desktop_session = Some("plasma".to_string());
    assert_eq!(detect_desktop(&e), Desktop::Plasma);
}

#[test]
fn name_search_order_within_one_value() {
    // "sway" is searched before "gnome", so a value holding both names
    // resolves to Sway.
    let mut e = empty_env();
    e.xdg_session_desktop = Some("gnome-on-sway".to_string());
    assert_eq!(detect_desktop(&e), Desktop::Sway);
}

#[test]
fn falls_back_to_wayland_then_x11() {
    let mut e = empty_env();
    e.wayland_display = Some("wayland-1".to_string());
    e.display = Some(":0".to_string());
    assert_eq!(detect_desktop(&e), Desktop::Wayland);

    let mut e = empty_env();
    e.display = Some(":0".to_string());
    assert_eq!(detect_desktop(&e), Desktop::X11);
}

#[test]
fn nothing_detected_yields_unknown() {
    let e = empty_env();
    assert_eq!(detect_desktop(&e), Desktop::Unknown("Not Detected".to_string()));
}

#[test]
fn detects_cosmic_and_xfce() {
    let mut e = empty_env();
    e.desktop_session = Some("COSMIC".to_string());
    assert_eq!(detect_desktop(&e), Desktop::Cosmic);

    let mut e = empty_env();
    e.xdg_session_desktop = Some("xfce4".to_string());
    assert_eq!(detect_desktop(&e), Desktop::Xfce);
}
