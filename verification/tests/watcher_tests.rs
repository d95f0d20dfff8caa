use cosmolith::event::Event;
use cosmolith::event::InputEvent;
use cosmolith::event::TouchpadEvent;
use cosmolith::model::DeviceState;
use cosmolith::model::InputConfig;
use cosmolith::watcher::ChangeKind;
use cosmolith::watcher::DebugCache;
use cosmolith::watcher::InputState;

fn plain_config() -> InputConfig {
    InputConfig {
        state: DeviceState::Enabled,
        acceleration: None,
        calibration: None,
        click_method: None,
        disable_while_typing: None,
        left_handed: None,
        middle_button_emulation: None,
        rotation_angle: None,
        scroll_config: None,
        tap_config: None,
        map_to_output: None,
    }
}

#[test]
fn touchpad_change_is_diffed_and_stored() {
    let old = plain_config();
    let mut state = InputState::new(Some(old), None);
    let mut new = plain_config();
    new.left_handed = Some(true);
    let events = state.from("input_touchpad", Some(new.clone()));
    assert_eq!(
        events,
        vec![Event::Input(InputEvent::TouchPad(TouchpadEvent::LeftHanded(Some(true))))]
    );
    assert_eq!(state.touchpad, Some(new));
    assert_eq!(state.mouse, None);
}

#[test]
fn first_read_stores_without_events() {
    let mut state = InputState::new(None, None);
    let new = plain_config();
    let events = state.from("input_touchpad", Some(new.clone()));
    assert!(events.is_empty());
    assert_eq!(state.touchpad, Some(new));
}

#[test]
fn mouse_key_updates_the_mouse_snapshot() {
    let old = plain_config();
    let mut state = InputState::new(None, Some(old));
    let mut new = plain_config();
    new.state = DeviceState::Disabled;
    let events = state.from("input_default", Some(new.clone()));
    assert_eq!(events.len(), 1);
    assert_eq!(state.mouse, Some(new));
    assert_eq!(state.touchpad, None);
}

#[test]
fn unknown_keys_change_nothing() {
    let mut state = InputState::new(None, None);
    let events = state.from("xkb_config", Some(plain_config()));
    assert!(events.is_empty());
    assert_eq!(state.touchpad, None);
    assert_eq!(state.mouse, None);
}

#[test]
fn failed_reads_change_nothing() {
    let old = plain_config();
    let mut state = InputState::new(Some(old.clone()), None);
    let events = state.from("input_touchpad", None);
    assert!(events.is_empty());
    assert_eq!(state.touchpad, Some(old));
}

#[test]
fn cache_tells_first_unchanged_and_changed_apart() {
    let mut cache = DebugCache::new();
    let ns = "com.system76.CosmicComp";
    assert_eq!(cache.record(ns, "input_touchpad", "a".to_string()), ChangeKind::First);
    assert_eq!(cache.record(ns, "input_touchpad", "a".to_string()), ChangeKind::Unchanged);
    assert_eq!(
        cache.record(ns, "input_touchpad", "b".to_string()),
        ChangeKind::Changed("a".to_string())
    );
    assert_eq!(cache.record(ns, "input_touchpad", "b".to_string()), ChangeKind::Unchanged);
}

#[test]
fn cache_keys_are_independent() {
    let mut cache = DebugCache::new();
    assert_eq!(cache.record("ns1", "k", "a".to_string()), ChangeKind::First);
    assert_eq!(cache.record("ns2", "k", "b".to_string()), ChangeKind::First);
    assert_eq!(cache.record("ns1", "j", "c".to_string()), ChangeKind::First);
    assert_eq!(cache.record("ns1", "k", "a".to_string()), ChangeKind::Unchanged);
    assert_eq!(cache.record("ns2", "k", "b".to_string()), ChangeKind::Unchanged);
    assert_eq!(cache.record("ns1", "j", "d".to_string()), ChangeKind::Changed("c".to_string()));
}
