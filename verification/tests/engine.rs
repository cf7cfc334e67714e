use qxchat::tor::engine::{publish_circuit, resolve_circuit, HopFacts, RelayFacts, Stage};
use qxchat::tor::TorPhase;

fn facts(ip: Option<&str>, relay: Option<(&str, Option<&str>)>) -> Option<HopFacts> {
    Some(HopFacts {
        ed25519: Some("ed".to_string()),
        rsa: Some("rsa".to_string()),
        addr_ip: ip.map(|s| s.to_string()),
        relay: relay.map(|(n, ip)| RelayFacts { nickname: n.to_string(), ip: ip.map(|s| s.to_string()) }),
    })
}

#[test]
fn stage_reads_back() {
    let mut st = Stage::new(TorPhase::Idle);
    assert_eq!(st.phase(), TorPhase::Idle);
    assert_eq!(st.error(), None);
    assert!(st.circuit().is_none());
    st.set_phase(TorPhase::Ready);
    st.set_error(Some("e".to_string()));
    assert_eq!(st.phase(), TorPhase::Ready);
    assert_eq!(st.error(), Some("e".to_string()));
    st.set_error(None);
    assert_eq!(st.error(), None);
}

#[test]
fn circuit_roles_and_fallbacks() {
    let entries = vec![
        facts(Some("1.1.1.1"), None),
        facts(None, Some(("Middle", Some("2.2.2.2")))),
        facts(Some("3.3.3.3"), Some(("ExitNode", Some("9.9.9.9")))),
    ];
    let path = resolve_circuit(&entries).unwrap();
    let roles: Vec<&str> = path.hops.iter().map(|h| h.role).collect();
    assert_eq!(roles, vec!["guard", "middle", "exit"]);
    assert_eq!(path.hops[0].nickname, "Unnamed");
    assert_eq!(path.hops[0].ip, Some("1.1.1.1".to_string()));
    assert_eq!(path.hops[1].nickname, "Middle");
    assert_eq!(path.hops[1].ip, Some("2.2.2.2".to_string()));
    assert_eq!(path.hops[2].ip, Some("3.3.3.3".to_string()));
    assert_eq!(path.hops[2].nickname, "ExitNode");
    assert!(path.hops.iter().all(|h| h.country.is_none()));
    assert_eq!(path.hops[0].ed25519, Some("ed".to_string()));
}

#[test]
fn circuit_skips_non_relay_entries_but_keeps_positions() {
    let entries = vec![facts(Some("1.1.1.1"), None), None, facts(Some("3.3.3.3"), None)];
    let path = resolve_circuit(&entries).unwrap();
    let roles: Vec<&str> = path.hops.iter().map(|h| h.role).collect();
    assert_eq!(roles, vec!["guard", "exit"]);
}

#[test]
fn short_circuit_is_not_published() {
    let mut st = Stage::new(TorPhase::Ready);
    publish_circuit(&mut st, &vec![facts(Some("1.1.1.1"), None)]);
    assert!(st.circuit().is_none());
    publish_circuit(&mut st, &vec![facts(Some("1.1.1.1"), None), facts(Some("2.2.2.2"), None)]);
    assert_eq!(st.circuit().unwrap().hops.len(), 2);
}
