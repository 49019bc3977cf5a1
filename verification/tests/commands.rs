use voidscript_editor::commands::{
    apply_devtools_request, command_name, reload_reply, reload_webview, resolve_command,
    toggle_devtools, Command, DevtoolsRequest,
};

#[test]
fn toggle_from_closed_opens() {
    assert_eq!(toggle_devtools(false), DevtoolsRequest::Open);
}

#[test]
fn toggle_from_open_closes() {
    assert_eq!(toggle_devtools(true), DevtoolsRequest::Close);
}

#[test]
fn toggle_twice_restores_state() {
    for start in [false, true] {
        let once = apply_devtools_request(toggle_devtools(start));
        assert_ne!(once, start);
        let twice = apply_devtools_request(toggle_devtools(once));
        assert_eq!(twice, start);
    }
}

#[test]
fn reload_requests_location_reload() {
    assert_eq!(reload_webview(), "window.location.reload()");
}

#[test]
fn reload_reports_no_failure_either_way() {
    assert!(!reload_reply(true));
    assert!(!reload_reply(false));
}

#[test]
fn command_names_are_fixed() {
    assert_eq!(command_name(Command::ToggleDevtools), "toggle_devtools");
    assert_eq!(command_name(Command::ReloadWebview), "reload_webview");
}

#[test]
fn known_names_resolve() {
    assert_eq!(
        resolve_command("toggle_devtools"),
        Some(Command::ToggleDevtools)
    );
    assert_eq!(resolve_command("reload_webview"), Some(Command::ReloadWebview));
}

#[test]
fn unknown_names_do_not_resolve() {
    assert_eq!(resolve_command(""), None);
    assert_eq!(resolve_command("reload"), None);
    assert_eq!(resolve_command("toggle_devtools "), None);
}

#[test]
fn names_round_trip_through_resolution() {
    for c in [Command::ToggleDevtools, Command::ReloadWebview] {
        assert_eq!(resolve_command(command_name(c)), Some(c));
    }
}
