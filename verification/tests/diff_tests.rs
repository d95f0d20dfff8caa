use cosmolith::event::Event;
use cosmolith::event::InputEvent;
use cosmolith::event::KeyboardEvent;
use cosmolith::event::MouseEvent;
use cosmolith::event::TouchpadEvent;
use cosmolith::model::AccelConfig;
use cosmolith::model::AccelProfile;
use cosmolith::model::DeviceState;
use cosmolith::model::InputConfig;
use cosmolith::model::KeyboardConfig;
use cosmolith::model::NumlockState;
use cosmolith::model::ScrollConfig;
use cosmolith::model::ScrollMethod;
use cosmolith::model::TapConfig;
use cosmolith::model::XkbConfig;

fn base_config() -> InputConfig {
    InputConfig {
        state: DeviceState::Enabled,
        acceleration: Some(AccelConfig { profile: Some(AccelProfile::Adaptive), speed: 250 }),
        calibration: None,
        click_method: None,
        disable_while_typing: Some(true),
        left_handed: Some(false),
        middle_button_emulation: None,
        rotation_angle: None,
        scroll_config: Some(ScrollConfig {
            method: Some(ScrollMethod::TwoFinger),
            natural_scroll: Some(false),
            scroll_button: None,
            scroll_factor: Some(1000),
        }),
        tap_config: Some(TapConfig {
            enabled: true,
            button_map: None,
            drag: false,
            drag_lock: false,
        }),
        map_to_output: None,
    }
}

fn base_xkb() -> XkbConfig {
    XkbConfig {
        rules: String::new(),
        model: "pc104".to_string(),
        layout: "us".to_string(),
        variant: String::new(),
        options: Some("terminate:ctrl_alt_bksp".to_string()),
        repeat_delay: 600,
        repeat_rate: 25,
    }
}

#[test]
fn diff_identical_touchpad_is_empty() {
    let a = base_config();
    let b = base_config();
    assert_eq!(a.from_touchpad(&b), Vec::<Event>::new());
}

#[test]
fn diff_identical_mouse_is_empty() {
    let a = base_config();
    let b = base_config();
    assert_eq!(a.from_mouse(&b), Vec::<Event>::new());
}

#[test]
fn diff_identical_xkb_is_empty() {
    let a = base_xkb();
    let b = base_xkb();
    assert_eq!(a.from(&b), Vec::<Event>::new());
}

#[test]
fn diff_identical_keyboard_is_empty() {
    let a = KeyboardConfig { numlock_state: NumlockState::BootOn };
    let b = KeyboardConfig { numlock_state: NumlockState::BootOn };
    assert_eq!(a.from(&b), Vec::<Event>::new());
}

#[test]
fn diff_is_deterministic() {
    let a = base_config();
    let mut b = base_config();
    b.left_handed = Some(true);
    b.scroll_config = Some(ScrollConfig {
        method: Some(ScrollMethod::Edge),
        natural_scroll: Some(false),
        scroll_button: None,
        scroll_factor: Some(1000),
    });
    let r1 = a.from_touchpad(&b);
    let r2 = a.from_touchpad(&b);
    assert_eq!(r1, r2);
    assert!(!r1.is_empty());
}

#[test]
fn tap_toggle_emits_coarse_then_enabled() {
    // Old tap config {enabled: true, drag: false, drag_lock: false}; new
    // {enabled: false, drag: false, drag_lock: false}: the coarse event
    // first, then the changed sub-field, in that order.
    let a = base_config();
    let mut b = base_config();
    let new_tap = TapConfig { enabled: false, button_map: None, drag: false, drag_lock: false };
    b.tap_config = Some(new_tap);
    let events = a.from_touchpad(&b);
    assert_eq!(
        events,
        vec![
            Event::Input(InputEvent::TouchPad(TouchpadEvent::TapConfig(Some(new_tap)))),
            Event::Input(InputEvent::TouchPad(TouchpadEvent::TapEnabled(false))),
        ]
    );
}

#[test]
fn scroll_change_emits_coarse_before_subfields() {
    let a = base_config();
    let mut b = base_config();
    let new_scroll = ScrollConfig {
        method: Some(ScrollMethod::Edge),
        natural_scroll: Some(true),
        scroll_button: None,
        scroll_factor: Some(1000),
    };
    b.scroll_config = Some(new_scroll);
    let events = a.from_touchpad(&b);
    assert_eq!(
        events,
        vec![
            Event::Input(InputEvent::TouchPad(TouchpadEvent::ScrollConfig(Some(new_scroll)))),
            Event::Input(InputEvent::TouchPad(TouchpadEvent::ScrollMethod(Some(
                ScrollMethod::Edge
            )))),
            Event::Input(InputEvent::TouchPad(TouchpadEvent::NaturalScroll(Some(true)))),
        ]
    );
    let coarse = events
        .iter()
        .position(|e| {
            matches!(e, Event::Input(InputEvent::TouchPad(TouchpadEvent::ScrollConfig(_))))
        })
        .unwrap();
    for (i, e) in events.iter().enumerate() {
        let sub = matches!(
            e,
            Event::Input(InputEvent::TouchPad(
                TouchpadEvent::ScrollMethod(_)
                    | TouchpadEvent::NaturalScroll(_)
                    | TouchpadEvent::ScrollButton(_)
                    | TouchpadEvent::ScrollFactor(_)
            ))
        );
        if sub {
            assert!(coarse < i);
        }
    }
}

#[test]
fn scroll_composite_from_none_emits_coarse_only() {
    let mut a = base_config();
    a.scroll_config = None;
    let b = base_config();
    let events = a.from_touchpad(&b);
    assert_eq!(
        events,
        vec![Event::Input(InputEvent::TouchPad(TouchpadEvent::ScrollConfig(b.scroll_config)))]
    );
}

#[test]
fn mouse_tap_change_emits_coarse_only() {
    let a = base_config();
    let mut b = base_config();
    let new_tap = TapConfig { enabled: false, button_map: None, drag: true, drag_lock: false };
    b.tap_config = Some(new_tap);
    let events = a.from_mouse(&b);
    assert_eq!(
        events,
        vec![Event::Input(InputEvent::Mouse(MouseEvent::TapConfig(Some(new_tap))))]
    );
}

#[test]
fn events_carry_the_new_value() {
    let a = base_config();
    let mut b = base_config();
    b.acceleration = Some(AccelConfig { profile: Some(AccelProfile::Flat), speed: -400 });
    let events = a.from_mouse(&b);
    assert_eq!(
        events,
        vec![Event::Input(InputEvent::Mouse(MouseEvent::Acceleration(b.acceleration)))]
    );
}

#[test]
fn xkb_diff_walks_fields_in_declared_order() {
    let a = base_xkb();
    let mut b = base_xkb();
    b.layout = "de".to_string();
    b.repeat_rate = 30;
    b.options = Some("caps:escape".to_string());
    let events = a.from(&b);
    assert_eq!(
        events,
        vec![
            Event::Input(InputEvent::Keyboard(KeyboardEvent::Layout("de".to_string()))),
            Event::Input(InputEvent::Keyboard(KeyboardEvent::Options(Some(
                "caps:escape".to_string()
            )))),
            Event::Input(InputEvent::Keyboard(KeyboardEvent::RepeatRate(30))),
        ]
    );
}

#[test]
fn absent_new_boolean_and_numeric_values_emit_nothing() {
    // A boolean or numeric optional field that is Some in the old
    // snapshot and None in the new one emits no event: absence means
    // "leave unchanged", not "clear".
    let a = base_config();
    let mut b = base_config();
    b.left_handed = None;
    b.disable_while_typing = None;
    assert_eq!(a.from_touchpad(&b), Vec::<Event>::new());
    assert_eq!(a.from_mouse(&b), Vec::<Event>::new());
}

#[test]
fn absent_new_composites_and_strings_carry_none() {
    // Composite, enumerated and string fields are not covered by the
    // leave-unchanged rule: their events carry the new value as it
    // stands, absent or not.
    let a = base_config();
    let mut b = base_config();
    b.scroll_config = None;
    assert_eq!(
        a.from_touchpad(&b),
        vec![Event::Input(InputEvent::TouchPad(TouchpadEvent::ScrollConfig(None)))]
    );
    assert_eq!(
        a.from_mouse(&b),
        vec![Event::Input(InputEvent::Mouse(MouseEvent::ScrollConfig(None)))]
    );

    let mut b = base_config();
    b.tap_config = None;
    assert_eq!(
        a.from_touchpad(&b),
        vec![Event::Input(InputEvent::TouchPad(TouchpadEvent::TapConfig(None)))]
    );
    assert_eq!(
        a.from_mouse(&b),
        vec![Event::Input(InputEvent::Mouse(MouseEvent::TapConfig(None)))]
    );

    let xa = base_xkb();
    let mut xb = base_xkb();
    xb.options = None;
    assert_eq!(
        xa.from(&xb),
        vec![Event::Input(InputEvent::Keyboard(KeyboardEvent::Options(None)))]
    );
}

#[test]
fn absent_numeric_scroll_subfield_emits_no_subevent() {
    // The composite still changes, so the coarse event is emitted, but a
    // numeric sub-field going to None contributes no fine-grained event.
    let a = base_config();
    let mut b = base_config();
    let new_scroll = ScrollConfig {
        method: Some(ScrollMethod::TwoFinger),
        natural_scroll: Some(true),
        scroll_button: None,
        scroll_factor: None,
    };
    b.scroll_config = Some(new_scroll);
    assert_eq!(
        a.from_touchpad(&b),
        vec![
            Event::Input(InputEvent::TouchPad(TouchpadEvent::ScrollConfig(Some(new_scroll)))),
            Event::Input(InputEvent::TouchPad(TouchpadEvent::NaturalScroll(Some(true)))),
        ]
    );
}

#[test]
fn absent_enum_scroll_method_still_emits() {
    // The scroll method is an enumerated field, outside the
    // leave-unchanged rule: going to None emits the sub-event.
    let a = base_config();
    let mut b = base_config();
    let new_scroll = ScrollConfig {
        method: None,
        natural_scroll: Some(false),
        scroll_button: None,
        scroll_factor: Some(1000),
    };
    b.scroll_config = Some(new_scroll);
    assert_eq!(
        a.from_touchpad(&b),
        vec![
            Event::Input(InputEvent::TouchPad(TouchpadEvent::ScrollConfig(Some(new_scroll)))),
            Event::Input(InputEvent::TouchPad(TouchpadEvent::ScrollMethod(None))),
        ]
    );
}

#[test]
fn keyboard_numlock_diff() {
    let a = KeyboardConfig { numlock_state: NumlockState::BootOff };
    let b = KeyboardConfig { numlock_state: NumlockState::LastBoot };
    assert_eq!(
        a.from(&b),
        vec![Event::Input(InputEvent::Keyboard(KeyboardEvent::NumLock(NumlockState::LastBoot)))]
    );
}

#[test]
fn rewrite_with_identical_strings_is_filtered() {
    let mut a = base_config();
    a.map_to_output = Some("DP-1".to_string());
    let mut b = base_config();
    b.map_to_output = Some("DP-1".to_string());
    assert_eq!(a.from_touchpad(&b), Vec::<Event>::new());
}
