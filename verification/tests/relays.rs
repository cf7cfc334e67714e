use qxchat::tor::relays::{directory_url, first_address, proxy_url, relay_info, relays_from, RawRelay};

fn raw(fingerprint: Option<&str>) -> RawRelay {
    RawRelay {
        fingerprint: fingerprint.map(|s| s.to_string()),
        nickname: None,
        or_addresses: None,
        country: None,
        country_name: None,
        as_number: None,
        as_name: None,
        flags: None,
        running: None,
        contact: None,
        consensus_weight_fraction: None,
    }
}

fn strings(v: &[&str]) -> Vec<String> {
    v.iter().map(|s| s.to_string()).collect()
}

#[test]
fn first_address_prefers_ipv4() {
    assert_eq!(first_address(&strings(&["[2001:db8::1]:9001", "192.0.2.1:9001"])), "192.0.2.1:9001");
    assert_eq!(first_address(&strings(&["[2001:db8::1]:9001", "[2001:db8::2]:443"])), "[2001:db8::1]:9001");
    assert_eq!(first_address(&[]), "");
    assert_eq!(first_address(&strings(&["a.b", "c.d"])), "a.b");
}

#[test]
fn missing_fields_get_defaults() {
    let r = relay_info(raw(Some("ABCD")));
    assert_eq!(r.fingerprint, "ABCD");
    assert_eq!(r.nickname, "Unnamed");
    assert_eq!(r.address, "");
    assert_eq!(r.country, "");
    assert_eq!(r.country_name, "");
    assert_eq!(r.as_number, "");
    assert_eq!(r.as_name, "");
    assert!(r.flags.is_empty());
    assert!(!r.running);
    assert_eq!(r.contact, "");
    assert_eq!(f64::from_bits(r.consensus_weight_fraction), 0.0);
}

#[test]
fn present_fields_are_kept() {
    let mut rr = raw(Some("F00D"));
    rr.nickname = Some("moria1".to_string());
    rr.or_addresses = Some(strings(&["[::1]:1", "128.31.0.34:9101"]));
    rr.country = Some("us".to_string());
    rr.country_name = Some("United States".to_string());
    rr.as_number = Some("AS3".to_string());
    rr.as_name = Some("MIT".to_string());
    rr.flags = Some(strings(&["Authority", "Running"]));
    rr.running = Some(true);
    rr.contact = Some("contact".to_string());
    rr.consensus_weight_fraction = Some(0.0125f64.to_bits());
    let r = relay_info(rr);
    assert_eq!(r.nickname, "moria1");
    assert_eq!(r.address, "128.31.0.34:9101");
    assert_eq!(r.flags, strings(&["Authority", "Running"]));
    assert!(r.running);
    assert_eq!(f64::from_bits(r.consensus_weight_fraction), 0.0125);
}

#[test]
fn relays_without_fingerprint_are_dropped_in_order() {
    let out = relays_from(vec![raw(Some("A")), raw(None), raw(Some("")), raw(Some("B"))]);
    let fps: Vec<String> = out.into_iter().map(|r| r.fingerprint).collect();
    assert_eq!(fps, strings(&["A", "B"]));
    assert!(relays_from(vec![]).is_empty());
}

#[test]
fn directory_and_proxy_urls() {
    assert_eq!(proxy_url(9050), "socks5h://127.0.0.1:9050");
    assert_eq!(
        directory_url(100),
        "https://onionoo.torproject.org/details?fields=fingerprint,nickname,or_addresses,country,country_name,as,as_name,flags,running,contact,consensus_weight_fraction&running=true&order=-consensus_weight&limit=100"
    );
}
