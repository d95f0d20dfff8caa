use cosmolith::compositor::Backend;
use cosmolith::compositor::Compositor;
use cosmolith::compositor::DispatchOutcome;
use cosmolith::compositor::conn::ConnEvent;
use cosmolith::compositor::conn::ConnPhase;
use cosmolith::compositor::conn::command_phase;
use cosmolith::compositor::conn::conn_step;
use cosmolith::compositor::dispatch;
use cosmolith::compositor::gnome;
use cosmolith::compositor::hyprland::Hyprland;
use cosmolith::compositor::input::Input;
use cosmolith::compositor::kde;
use cosmolith::compositor::niri::Niri;
use cosmolith::compositor::sway::collect_rejections;
use cosmolith::compositor::sway::Sway;
use cosmolith::error::Error;
use cosmolith::event::Event;
use cosmolith::event::InputEvent;
use cosmolith::event::MouseEvent;
use cosmolith::event::TouchpadEvent;
use cosmolith::model::ClickMethod;
use cosmolith::model::ScrollMethod;
use cosmolith::model::TapButtonMap;

#[test]
fn unsupported_capability_defaults_to_success() {
    // Niri overrides no capability method; dispatching a tap button map
    // to it reports success and changes nothing.
    let mut niri = Niri::new();
    let r = niri.apply_touchpad_event(TouchpadEvent::TapButtonMap(Some(
        TapButtonMap::LeftMiddleRight,
    )));
    assert!(r.is_ok());
}

#[test]
fn batch_continues_after_unsupported_call() {
    // Both events fall through to defaults; both outcomes are reported,
    // in order.
    let mut backend = Backend::Niri(Niri::new());
    let events = vec![
        Event::Input(InputEvent::TouchPad(TouchpadEvent::TapButtonMap(Some(
            TapButtonMap::LeftMiddleRight,
        )))),
        Event::Input(InputEvent::TouchPad(TouchpadEvent::TapDrag(true))),
    ];
    let outcomes = dispatch(&mut backend, events);
    assert_eq!(outcomes, vec![DispatchOutcome::Applied, DispatchOutcome::Applied]);
}

#[test]
fn batch_continues_after_failure() {
    // No sway runs here, so every command fails in transport; each
    // failure is recorded and the next event still runs.
    let mut backend = Backend::Sway(Sway::new());
    let events = vec![
        Event::Input(InputEvent::TouchPad(TouchpadEvent::TapEnabled(false))),
        Event::Input(InputEvent::TouchPad(TouchpadEvent::TapDrag(true))),
        Event::Input(InputEvent::TouchPad(TouchpadEvent::NaturalScroll(None))),
    ];
    let outcomes = dispatch(&mut backend, events);
    assert_eq!(outcomes.len(), 3);
    assert!(matches!(outcomes[0], DispatchOutcome::Failed(_)));
    assert!(matches!(outcomes[1], DispatchOutcome::Failed(_)));
    // An absent value means "leave unchanged": nothing is sent, so
    // nothing can fail.
    assert_eq!(outcomes[2], DispatchOutcome::Applied);
}

#[test]
fn hyprland_plans_keyword_writes_in_order() {
    let mut h = Hyprland::new();
    assert!(h.set_keyword("input:kb_layout", "us".to_string()).is_ok());
    assert!(h.touchpad_tap_enabled(false).is_ok());
    let writes = h.take_pending();
    assert_eq!(writes.len(), 2);
    assert_eq!((writes[0].key, writes[0].value.as_str()), ("input:kb_layout", "us"));
    assert_eq!(
        (writes[1].key, writes[1].value.as_str()),
        ("input:touchpad:tap-to-click", "false")
    );
    // Draining forgets the writes.
    assert!(h.take_pending().is_empty());
}

#[test]
fn hyprland_set_bool_none_is_a_no_op() {
    let mut h = Hyprland::new();
    assert!(h.set_bool("input:left_handed", None).is_ok());
    assert!(h.take_pending().is_empty());
}

#[test]
fn hyprland_acceleration_is_clamped_and_ordered() {
    // The speed is clamped to the accepted interval before rendering,
    // and the dependent profile write follows the speed write.
    let mut h = Hyprland::new();
    let accel = cosmolith::model::AccelConfig {
        profile: Some(cosmolith::model::AccelProfile::Flat),
        speed: 5000,
    };
    assert!(h.touchpad_acceleration(Some(accel)).is_ok());
    let writes = h.take_pending();
    assert_eq!(writes.len(), 2);
    assert_eq!((writes[0].key, writes[0].value.as_str()), ("input:sensitivity", "1.000"));
    assert_eq!((writes[1].key, writes[1].value.as_str()), ("input:accel_profile", "flat"));
}

#[test]
fn hyprland_tap_config_plans_three_writes() {
    let mut h = Hyprland::new();
    let tap = cosmolith::model::TapConfig {
        enabled: true,
        button_map: None,
        drag: false,
        drag_lock: true,
    };
    assert!(h.touchpad_tap_config(Some(tap)).is_ok());
    let writes = h.take_pending();
    assert_eq!(writes.len(), 3);
    assert_eq!((writes[0].key, writes[0].value.as_str()), ("input:touchpad:tap-to-click", "true"));
    assert_eq!(
        (writes[1].key, writes[1].value.as_str()),
        ("input:touchpad:tap-and-drag", "false")
    );
    assert_eq!((writes[2].key, writes[2].value.as_str()), ("input:touchpad:drag_lock", "true"));
}

#[test]
fn hyprland_keyboard_options_are_normalized() {
    let mut h = Hyprland::new();
    assert!(h.keyboard_options(Some(" ,caps:escape, ".to_string())).is_ok());
    let writes = h.take_pending();
    assert_eq!(writes.len(), 1);
    assert_eq!((writes[0].key, writes[0].value.as_str()), ("input:kb_options", "caps:escape"));
}

#[test]
fn dispatching_to_hyprland_queues_writes_on_the_backend() {
    let mut backend = Backend::Hyprland(Hyprland::new());
    let events = vec![
        Event::Input(InputEvent::TouchPad(TouchpadEvent::TapEnabled(true))),
        Event::Input(InputEvent::Keyboard(cosmolith::event::KeyboardEvent::RepeatRate(25))),
    ];
    let outcomes = dispatch(&mut backend, events);
    assert_eq!(outcomes, vec![DispatchOutcome::Applied, DispatchOutcome::Applied]);
    let writes = backend.take_keyword_writes();
    assert_eq!(writes.len(), 2);
    assert_eq!((writes[0].key, writes[0].value.as_str()), ("input:touchpad:tap-to-click", "true"));
    assert_eq!((writes[1].key, writes[1].value.as_str()), ("input:repeat_rate", "25"));
    assert!(backend.take_keyword_writes().is_empty());
}

#[test]
fn hyprland_tokens() {
    assert_eq!(Hyprland::map_scroll_method(&ScrollMethod::TwoFinger), "2fg");
    assert_eq!(Hyprland::map_scroll_method(&ScrollMethod::Edge), "edge");
    assert_eq!(Hyprland::map_scroll_method(&ScrollMethod::OnButtonDown), "on_button");
    assert_eq!(Hyprland::map_scroll_method(&ScrollMethod::NoScroll), "none");
    assert_eq!(Hyprland::map_tap_button_map(&TapButtonMap::LeftRightMiddle), "lrm");
    assert_eq!(Hyprland::map_tap_button_map(&TapButtonMap::LeftMiddleRight), "lmr");
    assert!(Hyprland::map_click_method(&ClickMethod::Clickfinger));
    assert!(!Hyprland::map_click_method(&ClickMethod::ButtonAreas));
}

#[test]
fn sway_tokens() {
    assert_eq!(Sway::bool_to_sway(true), "enabled");
    assert_eq!(Sway::bool_to_sway(false), "disabled");
    assert_eq!(Sway::map_click_method(&ClickMethod::ButtonAreas), "button_areas");
    assert_eq!(Sway::map_click_method(&ClickMethod::Clickfinger), "clickfinger");
    assert_eq!(Sway::map_scroll_method(&ScrollMethod::TwoFinger), "two_finger");
    assert_eq!(Sway::map_scroll_method(&ScrollMethod::NoScroll), "none");
}

#[test]
fn sway_command_lines_are_exact() {
    assert_eq!(Sway::input_cmd("type:touchpad", "tap", "enabled"), "input type:touchpad tap enabled");
    assert_eq!(
        Sway::input_cmd("type:keyboard", "repeat_rate", "25"),
        "input type:keyboard repeat_rate 25"
    );
}

#[test]
fn sway_without_socket_fails_and_resets_connection() {
    // No sway runs here: the lazy connect fails, the error surfaces, and
    // the adapter is back at the unconnected state.
    let mut sway = Sway::new();
    let r = sway.run_command("input type:touchpad tap enabled");
    assert!(matches!(r, Err(Error::IpcConnection { compositor: "Sway", .. })));
    assert!(sway.connection.is_none());
}

#[test]
fn sway_set_bool_none_is_a_no_op() {
    let mut sway = Sway::new();
    assert!(sway.set_bool("type:touchpad", "dwt", None).is_ok());
}

#[test]
fn niri_without_socket_fails_to_initialize() {
    let mut niri = Niri::new();
    let e = cosmolith::identifier::EnvSnapshot {
        session_type: None,
        hyprland_instance_signature: None,
        swaysock: None,
        niri_socket: None,
        xdg_current_desktop: None,
        xdg_session_desktop: None,
        desktop_session: None,
        wayland_display: None,
        display: None,
    };
    assert!(niri.init(&e).is_err());
}

#[test]
fn reconnect_once_policy() {
    // First send succeeds: connected, done.
    assert_eq!(command_phase(true, false, false), (true, ConnPhase::Connected));
    // Transport fails once, reconnect and retry succeed: success.
    assert_eq!(command_phase(false, true, true), (true, ConnPhase::Connected));
    // Transport fails, retry fails too: the error surfaces.
    assert_eq!(command_phase(false, true, false), (false, ConnPhase::Failed));
    // Transport fails and the reconnect cannot be made: the error
    // surfaces.
    assert_eq!(command_phase(false, false, false), (false, ConnPhase::Failed));
}

#[test]
fn connection_lifecycle_transitions() {
    assert_eq!(conn_step(ConnPhase::Unconnected, ConnEvent::ConnectOk), ConnPhase::Connected);
    assert_eq!(conn_step(ConnPhase::Connected, ConnEvent::SendErr), ConnPhase::Reconnecting);
    assert_eq!(conn_step(ConnPhase::Reconnecting, ConnEvent::SendOk), ConnPhase::Connected);
    assert_eq!(conn_step(ConnPhase::Reconnecting, ConnEvent::SendErr), ConnPhase::Failed);
    // A failed connection starts over from Unconnected on the next use.
    assert_eq!(conn_step(ConnPhase::Failed, ConnEvent::ConnectOk), ConnPhase::Unconnected);
}

#[test]
fn kde_planner_maps_supported_events() {
    let w = kde::plan_touchpad_event(&TouchpadEvent::NaturalScroll(Some(true))).unwrap();
    assert_eq!((w.group, w.key, w.value.as_str()), ("Libinput", "NaturalScroll", "true"));

    let w = kde::plan_touchpad_event(&TouchpadEvent::TapEnabled(false)).unwrap();
    assert_eq!((w.group, w.key, w.value.as_str()), ("Libinput", "TapToClick", "false"));

    let w = kde::plan_mouse_event(&MouseEvent::LeftHanded(Some(true))).unwrap();
    assert_eq!((w.group, w.key, w.value.as_str()), ("Mouse", "LeftHanded", "true"));

    let w = kde::plan_mouse_event(&MouseEvent::ScrollFactor(Some(1500))).unwrap();
    assert_eq!((w.group, w.key, w.value.as_str()), ("Mouse", "WheelScrollLines", "1.500"));
}

#[test]
fn kde_planner_skips_everything_else() {
    assert!(kde::plan_touchpad_event(&TouchpadEvent::NaturalScroll(None)).is_none());
    assert!(kde::plan_touchpad_event(&TouchpadEvent::TapDrag(true)).is_none());
    assert!(kde::plan_mouse_event(&MouseEvent::ScrollFactor(None)).is_none());
    assert!(
        kde::plan_event(&Event::Input(InputEvent::Keyboard(
            cosmolith::event::KeyboardEvent::RepeatRate(25)
        )))
        .is_none()
    );
}

#[test]
fn gnome_planner_maps_supported_events() {
    let w = gnome::plan_touchpad_event(&TouchpadEvent::TapEnabled(true)).unwrap();
    assert_eq!(w.target, gnome::GnomeTarget::Touchpad);
    assert_eq!(w.key, "tap-to-click");
    assert_eq!(w.value, gnome::GnomeValue::Flag(true));

    let w = gnome::plan_touchpad_event(&TouchpadEvent::LeftHanded(Some(false))).unwrap();
    assert_eq!(w.key, "haptic-output-mode");
    assert_eq!(w.value, gnome::GnomeValue::Token("mouse"));

    let w = gnome::plan_mouse_event(&MouseEvent::NaturalScroll(Some(true))).unwrap();
    assert_eq!(w.target, gnome::GnomeTarget::Mouse);
    assert_eq!(w.key, "natural-scroll");
}

#[test]
fn gnome_planner_skips_everything_else() {
    assert!(gnome::plan_touchpad_event(&TouchpadEvent::NaturalScroll(None)).is_none());
    assert!(gnome::plan_mouse_event(&MouseEvent::ScrollFactor(Some(1000))).is_none());
}

#[test]
fn backend_names() {
    assert_eq!(Backend::Hyprland(Hyprland::new()).name(), "Hyprland");
    assert_eq!(Backend::Sway(Sway::new()).name(), "Sway");
    assert_eq!(Backend::Niri(Niri::new()).name(), "Niri");
}

#[test]
fn init_compositor_rejects_planner_backends() {
    let e = cosmolith::identifier::EnvSnapshot {
        session_type: None,
        hyprland_instance_signature: None,
        swaysock: None,
        niri_socket: None,
        xdg_current_desktop: None,
        xdg_session_desktop: None,
        desktop_session: None,
        wayland_display: None,
        display: None,
    };
    assert!(cosmolith::compositor::init_compositor(&cosmolith::identifier::Desktop::Gnome, &e)
        .is_none());
    assert!(cosmolith::compositor::init_compositor(&cosmolith::identifier::Desktop::Kde, &e)
        .is_none());
    // Hyprland needs its instance signature; without it no backend comes
    // up.
    assert!(
        cosmolith::compositor::init_compositor(&cosmolith::identifier::Desktop::Hyprland, &e)
            .is_none()
    );
}

#[test]
fn hyprland_init_takes_signature_from_snapshot() {
    let mut e = cosmolith::identifier::EnvSnapshot {
        session_type: None,
        hyprland_instance_signature: Some("sig".to_string()),
        swaysock: None,
        niri_socket: None,
        xdg_current_desktop: None,
        xdg_session_desktop: None,
        desktop_session: None,
        wayland_display: None,
        display: None,
    };
    let mut h = Hyprland::new();
    assert!(h.init(&e).is_ok());
    assert_eq!(h.instance_signature, Some("sig".to_string()));
    assert!(h.is_running(&e));
    e.hyprland_instance_signature = None;
    assert!(!h.is_running(&e));
    assert!(h.init(&e).is_err());
}

#[test]
fn numlock_last_boot_changes_nothing_and_succeeds() {
    // LastBoot means "keep the last state": no command is sent, so even
    // adapters without a live connection succeed.
    let mut sway = Sway::new();
    assert!(sway.numslock_state(cosmolith::model::NumlockState::LastBoot).is_ok());
    let mut hypr = Hyprland::new();
    assert!(hypr.numslock_state(cosmolith::model::NumlockState::LastBoot).is_ok());
}

#[test]
fn rejection_texts_are_collected_in_order() {
    let outcomes: Vec<Result<(), String>> = vec![
        Ok(()),
        Err("unknown option".to_string()),
        Ok(()),
        Err("bad value".to_string()),
    ];
    assert_eq!(
        collect_rejections(&outcomes),
        vec!["unknown option".to_string(), "bad value".to_string()]
    );
    assert_eq!(collect_rejections(&Vec::new()), Vec::<String>::new());
}

#[test]
fn taking_rejections_drains_them() {
    let mut sway = Sway::new();
    assert_eq!(sway.take_rejections(), Vec::<String>::new());
    sway.rejected = vec!["a".to_string(), "b".to_string()];
    assert_eq!(sway.take_rejections(), vec!["a".to_string(), "b".to_string()]);
    assert!(sway.rejected.is_empty());

    let mut backend = Backend::Niri(Niri::new());
    assert_eq!(backend.take_rejections(), Vec::<String>::new());
}

#[test]
fn kde_plan_event_routes_with_the_planner_mapping() {
    let ev = Event::Input(InputEvent::TouchPad(TouchpadEvent::TapEnabled(true)));
    let w = kde::plan_event(&ev).unwrap();
    assert_eq!((w.group, w.key, w.value.as_str()), ("Libinput", "TapToClick", "true"));
    let kb = Event::Input(InputEvent::Keyboard(cosmolith::event::KeyboardEvent::RepeatDelay(600)));
    assert!(kde::plan_event(&kb).is_none());
}

#[test]
fn gnome_plan_event_routes_with_the_planner_mapping() {
    let ev = Event::Input(InputEvent::Mouse(MouseEvent::NaturalScroll(Some(false))));
    let w = gnome::plan_event(&ev).unwrap();
    assert_eq!(w.target, gnome::GnomeTarget::Mouse);
    assert_eq!(w.key, "natural-scroll");
    assert_eq!(w.value, gnome::GnomeValue::Flag(false));
    let kb = Event::Input(InputEvent::Keyboard(cosmolith::event::KeyboardEvent::RepeatRate(25)));
    assert!(gnome::plan_event(&kb).is_none());
}
