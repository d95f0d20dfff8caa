use cosmolith::error::Error;

#[test]
fn config_read_constructor() {
    let e = Error::config_read(
        "com.system76.CosmicComp".to_string(),
        "input_touchpad".to_string(),
        "timeout".to_string(),
    );
    assert!(matches!(e, Error::ConfigRead { .. }));
    assert_eq!(e.kind_name(), "config read failed");
}

#[test]
fn watcher_setup_constructor() {
    let e = Error::watcher_setup("ns".to_string(), "no backend".to_string(), None);
    assert!(matches!(e, Error::WatcherSetup { .. }));
    assert_eq!(e.kind_name(), "watcher setup failed");
}

#[test]
fn ipc_command_constructor() {
    let e = Error::ipc_command("Sway", "input type:touchpad tap enabled".to_string(), None);
    assert!(matches!(e, Error::IpcCommand { compositor: "Sway", .. }));
    assert_eq!(e.kind_name(), "IPC command failed");
}

#[test]
fn ipc_connection_constructor() {
    let e = Error::ipc_connection("Niri", "socket missing".to_string(), None);
    assert!(matches!(e, Error::IpcConnection { compositor: "Niri", .. }));
    assert_eq!(e.kind_name(), "IPC connection failed");
}

#[test]
fn not_implemented_constructor() {
    let e = Error::not_implemented("Sway", "touchpad_tap_button_map");
    assert_eq!(
        e,
        Error::NotImplemented { compositor: "Sway", handler: "touchpad_tap_button_map" }
    );
    assert_eq!(e.kind_name(), "handler not implemented");
}

#[test]
fn external_constructor() {
    let e = Error::external("settings write", "bus unavailable".to_string());
    assert!(matches!(e, Error::External { context: "settings write", .. }));
    assert_eq!(e.kind_name(), "external error");
}
