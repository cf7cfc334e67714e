use qxchat::tor::engine::{CircuitPath, CircuitHopInfo};
use qxchat::tor::geo::{GeoInfo, GeoPoint};
use qxchat::tor::{
    clamp_relay_limit, marker_bytes, marker_enabled, watch_report, webview_proxy_arg, webview_proxy_uri,
    ConflictChoice, TorAction, TorPhase, TorState, DEFAULT_SOCKS_PORT, GEO_CACHE_TTL_MS,
    NOT_RUNNING_MESSAGE,
};
use qxchat::tor::engine::{HopFacts, RelayFacts, Stage};

fn with_engine() -> TorState {
    let mut st = TorState::default();
    st.proxy_spawned(true);
    st
}

#[test]
fn phase_names() {
    assert_eq!(TorPhase::Idle.as_str(), "idle");
    assert_eq!(TorPhase::Bootstrapping.as_str(), "bootstrapping");
    assert_eq!(TorPhase::Ready.as_str(), "ready");
    assert_eq!(TorPhase::Error.as_str(), "error");
}

#[test]
fn default_status_is_idle_on_9050() {
    let st = TorState::default();
    let s = st.as_status();
    assert!(!s.running);
    assert_eq!(s.port, 9050);
    assert_eq!(DEFAULT_SOCKS_PORT, 9050);
    assert_eq!(s.phase, "idle");
    assert_eq!(s.mode, "none");
    assert_eq!(s.error, None);
    assert_eq!(st.port(), 9050);
    assert!(!st.running());
    assert!(!st.is_external());
}

#[test]
fn start_without_engine_only_persists_and_applies_proxy() {
    let mut st = TorState::default();
    let t = st.start_tor(Some(9150));
    assert_eq!(
        t.actions,
        vec![TorAction::PersistEnabled(true), TorAction::ApplyProxy(9150), TorAction::EmitStatus]
    );
    assert_eq!(t.status.port, 9150);
    assert_eq!(t.status.phase, "idle");
    assert!(!t.status.running);
}

#[test]
fn start_with_engine_bootstraps_and_watches() {
    let mut st = with_engine();
    let t = st.start_tor(None);
    assert_eq!(
        t.actions,
        vec![
            TorAction::PersistEnabled(true),
            TorAction::EnableTor,
            TorAction::WatchPhase(9050),
            TorAction::ApplyProxy(9050),
            TorAction::EmitStatus,
        ]
    );
    assert!(t.status.running);
    assert_eq!(t.status.phase, "bootstrapping");
    assert_eq!(t.status.mode, "embedded");
    let again = st.start_tor(Some(1234));
    assert!(again.actions.is_empty());
    assert_eq!(again.status.port, 9050);
}

#[test]
fn bootstrap_ready_and_failure() {
    let mut st = with_engine();
    st.start_tor(None);
    assert!(st.bootstrap_ready());
    let s = st.as_status();
    assert_eq!((s.running, s.phase, s.error.clone()), (true, "ready", None));

    let mut st = with_engine();
    st.start_tor(None);
    st.bootstrap_failed("arti bootstrap: timeout".to_string());
    let s = st.as_status();
    assert!(!s.running);
    assert_eq!(s.phase, "error");
    assert_eq!(s.mode, "none");
    assert_eq!(s.error, Some("arti bootstrap: timeout".to_string()));
    // a new start clears the error
    let t = st.start_tor(None);
    assert_eq!(t.status.error, None);
    assert_eq!(t.status.phase, "bootstrapping");
}

#[test]
fn stop_flips_engine_and_clears_proxy() {
    let mut st = with_engine();
    st.start_tor(None);
    let t = st.stop_tor();
    assert_eq!(
        t.actions,
        vec![TorAction::DisableTor, TorAction::ClearProxy, TorAction::PersistEnabled(false), TorAction::EmitStatus]
    );
    assert!(!t.status.running);
    assert_eq!(t.status.phase, "idle");
    let mut bare = TorState::default();
    let t = bare.stop_tor();
    assert_eq!(t.actions, vec![TorAction::ClearProxy, TorAction::PersistEnabled(false), TorAction::EmitStatus]);
}

#[test]
fn toggle_ends_with_restart() {
    let mut st = with_engine();
    let t = st.toggle_tor(true, None);
    assert_eq!(t.actions.last(), Some(&TorAction::Restart));
    assert!(st.running());
    let t = st.toggle_tor(false, None);
    assert_eq!(t.actions.last(), Some(&TorAction::Restart));
    assert!(!st.running());
}

#[test]
fn foreign_tor_choices() {
    let mut st = TorState::default();
    assert_eq!(st.boot(true), vec![TorAction::AskPortConflict]);
    assert_eq!(st.boot(false), vec![TorAction::SpawnProxy(9050)]);

    let t = st.resolve_conflict(ConflictChoice::KillNode);
    assert_eq!(t.actions, vec![TorAction::KillPortOwner(9050)]);
    let t = st.resolve_conflict(ConflictChoice::Quit);
    assert_eq!(t.actions, vec![TorAction::Exit(0)]);
    assert!(!st.running());

    let t = st.resolve_conflict(ConflictChoice::UseNode);
    assert_eq!(t.actions, vec![TorAction::PersistEnabled(true), TorAction::EmitStatus]);
    assert!(t.status.running);
    assert_eq!(t.status.mode, "external");
    assert_eq!(t.status.phase, "ready");
    assert!(st.is_external());
}

#[test]
fn port_freed_or_not() {
    let mut st = TorState::default();
    let t = st.port_freed(true);
    assert_eq!(t.actions, vec![TorAction::SpawnProxy(9050)]);
    assert!(!st.is_external());
    let t = st.port_freed(false);
    assert_eq!(t.actions, vec![TorAction::EmitStatus]);
    assert_eq!(t.status.mode, "external");
    assert!(t.status.running);
}

#[test]
fn autostart_follows_marker() {
    let mut st = with_engine();
    assert!(st.autostart(false).is_none());
    assert!(!st.running());
    let t = st.autostart(true).unwrap();
    assert_eq!(t.actions[0], TorAction::PersistEnabled(true));
    assert!(st.running());
}

#[test]
fn relays_request_requires_running_tor() {
    let st = with_engine();
    assert_eq!(st.relays_request(Some(10)), Err(NOT_RUNNING_MESSAGE.to_string()));
    assert_eq!(NOT_RUNNING_MESSAGE, "Tor is not running. Start Tor before loading the relay directory.");
    let mut st = with_engine();
    st.start_tor(Some(9150));
    assert_eq!(st.relays_request(None), Ok((9150, 100)));
    assert_eq!(st.relays_request(Some(0)), Ok((9150, 1)));
    assert_eq!(st.relays_request(Some(10_000)), Ok((9150, 500)));
    assert_eq!(st.relays_request(Some(42)), Ok((9150, 42)));
    assert_eq!(clamp_relay_limit(Some(500)), 500);
    assert_eq!(clamp_relay_limit(Some(1)), 1);
}

fn hop(role: &'static str) -> CircuitHopInfo {
    CircuitHopInfo { role, ip: None, nickname: "n".to_string(), country: None, ed25519: None, rsa: None }
}

#[test]
fn circuit_visible_only_for_running_embedded_tor() {
    let mut st = with_engine();
    assert!(st.visible_circuit().is_none());
    st.start_tor(None);
    assert!(st.visible_circuit().is_none());
    let mut st2 = TorState::default();
    st2.resolve_conflict(ConflictChoice::UseNode);
    assert!(st2.visible_circuit().is_none());
    let _ = CircuitPath { hops: vec![hop("guard"), hop("exit")] };
}

fn info() -> GeoInfo {
    GeoInfo {
        client: Some(GeoPoint {
            ip: "1.2.3.xxx".to_string(),
            country_code: Some("DE".to_string()),
            latitude: None,
            longitude: None,
            org: None,
        }),
        server: None,
    }
}

#[test]
fn geo_cache_serves_for_five_minutes() {
    let mut st = TorState::default();
    assert!(st.cached_geo(0).is_none());
    st.store_geo(1_000, info());
    assert_eq!(st.cached_geo(1_000).unwrap().client.unwrap().ip, "1.2.3.xxx");
    assert!(st.cached_geo(1_000 + GEO_CACHE_TTL_MS - 1).is_some());
    assert!(st.cached_geo(1_000 + GEO_CACHE_TTL_MS).is_none());
    assert!(st.cached_geo(500).is_some());
    assert_eq!(GEO_CACHE_TTL_MS, 300_000);
}

#[test]
fn marker_round_trip_values() {
    assert_eq!(marker_bytes(true), b"1".to_vec());
    assert_eq!(marker_bytes(false), b"0".to_vec());
    assert!(marker_enabled(Some(&marker_bytes(true))));
    assert!(!marker_enabled(Some(&marker_bytes(false))));
    assert!(!marker_enabled(None));
    assert!(!marker_enabled(Some(b"1\n")));
    assert!(!marker_enabled(Some(b"")));
}

#[test]
fn watcher_reports_until_settled() {
    let mut stage = Stage::new(TorPhase::Bootstrapping);
    let r = watch_report(&stage, 9050);
    assert!(!r.finished);
    assert_eq!((r.status.running, r.status.phase, r.status.mode), (true, "bootstrapping", "embedded"));
    stage.set_phase(TorPhase::Error);
    stage.set_error(Some("boom".to_string()));
    let r = watch_report(&stage, 9050);
    assert!(r.finished);
    assert_eq!(r.status.error, Some("boom".to_string()));
    assert!(!r.status.running);
    stage.set_phase(TorPhase::Ready);
    let r = watch_report(&stage, 9150);
    assert!(r.finished);
    assert_eq!(r.status.error, None);
    assert_eq!(r.status.port, 9150);
    // an idle stage (a stop during the bootstrap) keeps the watch going
    stage.set_phase(TorPhase::Idle);
    let r = watch_report(&stage, 9150);
    assert!(!r.finished);
    assert_eq!((r.status.running, r.status.phase), (false, "idle"));
}

#[test]
fn webview_proxy_strings() {
    assert_eq!(webview_proxy_uri(9050), "socks5://127.0.0.1:9050");
    assert_eq!(webview_proxy_arg(9050), "--proxy-server=socks5://127.0.0.1:9050");
    assert_eq!(webview_proxy_uri(0), "socks5://127.0.0.1:0");
}

#[test]
fn operations_keep_stage_and_external_mode() {
    let mut st = TorState::default();
    st.resolve_conflict(ConflictChoice::UseNode);
    st.stop_tor();
    assert!(st.is_external());
    assert!(st.stage().is_some());
    assert_eq!(st.as_status().mode, "external");
    assert!(!st.running());
    st.start_tor(None);
    st.bootstrap_failed("x".to_string());
    assert!(st.stage().is_some());
    assert!(st.is_external());
}

#[test]
fn late_bootstrap_report_after_stop_is_ignored() {
    let mut st = with_engine();
    st.start_tor(None);
    assert_eq!(st.phase(), TorPhase::Bootstrapping);
    st.stop_tor();
    assert!(!st.bootstrap_ready());
    assert_eq!(st.phase(), TorPhase::Idle);
    assert!(!st.running());
    st.bootstrap_failed("late".to_string());
    let s = st.as_status();
    assert_eq!((s.running, s.phase, s.error), (false, "idle", None));
}

#[test]
fn bootstrap_report_without_a_start_is_ignored() {
    let mut st = with_engine();
    assert!(!st.bootstrap_ready());
    assert_eq!(st.phase(), TorPhase::Idle);
    let mut bare = TorState::default();
    assert!(!bare.bootstrap_ready());
    assert!(bare.stage().is_none());
}

#[test]
fn proxy_failure_reaches_status_in_any_phase() {
    let mut st = with_engine();
    st.proxy_failed("failed to bind 127.0.0.1:9050".to_string());
    let s = st.as_status();
    assert_eq!(s.phase, "error");
    assert!(!s.running);
    assert_eq!(s.error, Some("failed to bind 127.0.0.1:9050".to_string()));

    let mut st = with_engine();
    st.start_tor(None);
    st.bootstrap_ready();
    st.proxy_failed("engine error".to_string());
    assert_eq!(st.phase(), TorPhase::Error);

    let mut bare = TorState::default();
    bare.proxy_failed("x".to_string());
    assert!(bare.stage().is_none());
}

#[test]
fn port_follows_the_latest_start() {
    let mut st = with_engine();
    assert_eq!(st.port(), 9050);
    st.stop_tor();
    assert_eq!(st.port(), 9050);
    st.start_tor(Some(9150));
    assert_eq!(st.port(), 9150);
    // a start while running keeps the port
    st.start_tor(Some(9300));
    assert_eq!(st.port(), 9150);
    st.bootstrap_ready();
    st.stop_tor();
    assert_eq!(st.port(), 9150);
    st.toggle_tor(true, Some(9200));
    assert_eq!(st.port(), 9200);
    st.toggle_tor(false, Some(9400));
    assert_eq!(st.port(), 9200);
    st.toggle_tor(true, Some(9500));
    assert_eq!(st.port(), 9500);
    // autostart while running keeps the port
    st.autostart(true);
    assert_eq!(st.port(), 9500);
    st.stop_tor();
    st.autostart(true);
    assert_eq!(st.port(), DEFAULT_SOCKS_PORT);
}

fn relay_hop(ip: &str, nick: &str) -> Option<HopFacts> {
    Some(HopFacts {
        ed25519: Some(format!("ed-{nick}")),
        rsa: None,
        addr_ip: Some(ip.to_string()),
        relay: Some(RelayFacts { nickname: nick.to_string(), ip: None }),
    })
}

#[test]
fn published_circuit_is_visible_while_running() {
    let mut st = with_engine();
    st.start_tor(None);
    st.bootstrap_ready();
    st.publish_circuit(&vec![relay_hop("1.1.1.1", "G"), relay_hop("2.2.2.2", "M"), relay_hop("3.3.3.3", "X")]);
    let path = st.visible_circuit().unwrap();
    let roles: Vec<&str> = path.hops.iter().map(|h| h.role).collect();
    assert_eq!(roles, vec!["guard", "middle", "exit"]);
    assert_eq!(path.hops[2].nickname, "X");
    // a one-hop circuit does not replace it
    st.publish_circuit(&vec![relay_hop("9.9.9.9", "Solo")]);
    assert_eq!(st.visible_circuit().unwrap().hops.len(), 3);
    st.stop_tor();
    assert!(st.visible_circuit().is_none());
    // without a stage nothing is stored
    let mut bare = TorState::default();
    bare.publish_circuit(&vec![relay_hop("1.1.1.1", "G"), relay_hop("2.2.2.2", "M")]);
    assert!(bare.stage().is_none());
}
