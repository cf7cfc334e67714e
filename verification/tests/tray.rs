use qxchat::json::Json;
use qxchat::tor::TorState;
use qxchat::tray::{boot_port, status_running, tray_command, tray_toggle, TrayCommand};

#[test]
fn menu_ids() {
    assert_eq!(tray_command("quit"), TrayCommand::Quit);
    assert_eq!(tray_command("show"), TrayCommand::Show);
    assert_eq!(tray_command("check_updates"), TrayCommand::CheckUpdates);
    assert_eq!(tray_command("toggle_tor"), TrayCommand::ToggleTor);
    assert_eq!(tray_command("Quit"), TrayCommand::Other);
    assert_eq!(tray_command(""), TrayCommand::Other);
}

#[test]
fn tray_toggle_flips() {
    let mut st = TorState::default();
    st.proxy_spawned(true);
    let (t, checked) = tray_toggle(&mut st);
    assert!(checked);
    assert!(t.status.running);
    let (t, checked) = tray_toggle(&mut st);
    assert!(!checked);
    assert!(!t.status.running);
}

#[test]
fn status_payload_running_flag() {
    let payload = Json::Object(vec![("running".to_string(), Json::Bool(true))]);
    assert!(status_running(Some(&payload)));
    let payload = Json::Object(vec![("running".to_string(), Json::String("true".to_string()))]);
    assert!(!status_running(Some(&payload)));
    assert!(!status_running(None));
    assert!(!status_running(Some(&Json::Null)));
}

#[test]
fn boot_port_defaults_to_9050() {
    assert_eq!(boot_port(None), 9050);
    let mut st = TorState::default();
    st.start_tor(Some(9150));
    assert_eq!(boot_port(Some(&st)), 9150);
}
