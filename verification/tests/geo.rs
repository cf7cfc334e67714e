use qxchat::json::{Json, JsonNumber};
use qxchat::tor::geo::{
    as_f64_flex, dns_answer, dns_url, lookup_step, mask_ip, Coordinate, GeoPoint, GeoProvider,
    LookupStep,
};
use qxchat::tor::geo::{
    extreme_ip_lookup, freeipapi, geojs, ifconfig, ipapi_co, ipapi_is, ipinfo, ipwhois, ipwhois_app,
};

fn s(v: &str) -> Json {
    Json::String(v.to_string())
}

fn num(int: Option<i64>, value: f64) -> Json {
    Json::Number(JsonNumber { int, bits: value.to_bits() })
}

fn obj(entries: Vec<(&str, Json)>) -> Json {
    Json::Object(entries.into_iter().map(|(k, v)| (k.to_string(), v)).collect())
}

fn coord_text(c: &Option<Coordinate>) -> Option<String> {
    match c {
        Some(Coordinate::Text(t)) => Some(format!("text:{t}")),
        Some(Coordinate::Paired(t)) => Some(format!("paired:{t}")),
        Some(Coordinate::Number(b)) => Some(format!("number:{}", f64::from_bits(*b))),
        None => None,
    }
}

fn summary(p: &Option<GeoPoint>) -> Option<(String, Option<String>, Option<String>, Option<String>, Option<String>)> {
    p.as_ref().map(|p| {
        (
            p.ip.clone(),
            p.country_code.clone(),
            coord_text(&p.latitude),
            coord_text(&p.longitude),
            p.org.clone(),
        )
    })
}

#[test]
fn mask_ip_redacts_last_ipv4_octet() {
    assert_eq!(mask_ip("203.0.113.42"), "203.0.113.xxx");
}

#[test]
fn mask_ip_redacts_last_ipv6_group() {
    assert_eq!(mask_ip("2606:4700::1111"), "2606:4700::xxx");
    assert_eq!(mask_ip("2001:db8:85a3:0:0:8a2e:370:7334"), "2001:db8:85a3:0:0:8a2e:370:xxx");
}

#[test]
fn mask_ip_keeps_text_without_separator() {
    assert_eq!(mask_ip("localhost"), "localhost");
    assert_eq!(mask_ip(""), "");
}

#[test]
fn mask_ip_twice_is_mask_once() {
    for ip in ["203.0.113.42", "2606:4700::1111", "10.0.0.1", "nothing"] {
        let once = mask_ip(ip);
        assert_eq!(mask_ip(&once), once);
    }
}

#[test]
fn flex_reads_numbers_and_strings() {
    assert_eq!(coord_text(&as_f64_flex(&num(None, 37.386))), Some("number:37.386".to_string()));
    assert_eq!(coord_text(&as_f64_flex(&s(" 37.386 "))), Some("text: 37.386 ".to_string()));
    assert_eq!(coord_text(&as_f64_flex(&Json::Bool(true))), None);
    assert_eq!(coord_text(&as_f64_flex(&Json::Null)), None);
}

#[test]
fn ipwhois_reads_success_reply() {
    let v = obj(vec![
        ("success", Json::Bool(true)),
        ("ip", s("203.0.113.42")),
        ("country_code", s("DE")),
        ("latitude", num(None, 50.5)),
        ("longitude", s("8.25")),
        ("connection", obj(vec![("org", s("Hetzner Online GmbH"))])),
    ]);
    assert_eq!(
        summary(&ipwhois::parse(&v)),
        Some((
            "203.0.113.xxx".to_string(),
            Some("DE".to_string()),
            Some("number:50.5".to_string()),
            Some("text:8.25".to_string()),
            Some("Hetzner Online GmbH".to_string()),
        ))
    );
}

#[test]
fn ipwhois_rejects_failed_lookup() {
    let v = obj(vec![("success", Json::Bool(false)), ("ip", s("203.0.113.42"))]);
    assert!(ipwhois::parse(&v).is_none());
    let v = obj(vec![("ip", s("203.0.113.42"))]);
    assert!(ipwhois::parse(&v).is_none());
    let v = obj(vec![("success", Json::Bool(true)), ("ip", num(Some(1), 1.0))]);
    assert!(ipwhois::parse(&v).is_none());
}

#[test]
fn ipapi_co_prefixes_asn_and_falls_back_to_country() {
    let v = obj(vec![
        ("ip", s("198.51.100.7")),
        ("country", s("FR")),
        ("org", s("OVH SAS")),
        ("asn", s("AS16276")),
    ]);
    assert_eq!(
        summary(&ipapi_co::parse(&v)),
        Some(("198.51.100.xxx".to_string(), Some("FR".to_string()), None, None, Some("AS16276 OVH SAS".to_string())))
    );
    let v = obj(vec![
        ("ip", s("198.51.100.7")),
        ("country_code", s("FR")),
        ("country", s("France")),
        ("org", s("AS16276 OVH SAS")),
        ("asn", s("AS16276")),
    ]);
    assert_eq!(
        summary(&ipapi_co::parse(&v)),
        Some(("198.51.100.xxx".to_string(), Some("FR".to_string()), None, None, Some("AS16276 OVH SAS".to_string())))
    );
}

#[test]
fn ipapi_co_rejects_error_true() {
    let v = obj(vec![("error", Json::Bool(true)), ("reason", s("RateLimited")), ("ip", s("1.2.3.4"))]);
    assert!(ipapi_co::parse(&v).is_none());
    let v = obj(vec![("error", Json::Bool(false)), ("ip", s("1.2.3.4"))]);
    assert_eq!(summary(&ipapi_co::parse(&v)).unwrap().0, "1.2.3.xxx");
}

#[test]
fn ipinfo_splits_loc_pair() {
    let v = obj(vec![
        ("ip", s("8.8.8.8")),
        ("country", s("US")),
        ("loc", s("37.4056,-122.0775")),
        ("org", s("AS15169 Google LLC")),
    ]);
    assert_eq!(
        summary(&ipinfo::parse(&v)),
        Some((
            "8.8.8.xxx".to_string(),
            Some("US".to_string()),
            Some("paired:37.4056".to_string()),
            Some("paired:-122.0775".to_string()),
            Some("AS15169 Google LLC".to_string()),
        ))
    );
    let v = obj(vec![("ip", s("8.8.8.8")), ("loc", s("37.4056"))]);
    let p = summary(&ipinfo::parse(&v)).unwrap();
    assert_eq!((p.2, p.3), (None, None));
    let v = obj(vec![("ip", s("8.8.8.8")), ("loc", s("1,2,3"))]);
    let p = summary(&ipinfo::parse(&v)).unwrap();
    assert_eq!((p.2, p.3), (Some("paired:1".to_string()), Some("paired:2,3".to_string())));
}

#[test]
fn ipinfo_rejects_any_error_member() {
    let v = obj(vec![("error", obj(vec![("title", s("Wrong ip"))])), ("ip", s("8.8.8.8"))]);
    assert!(ipinfo::parse(&v).is_none());
}

#[test]
fn ipapi_is_builds_org_from_asn_and_company() {
    let loc = || obj(vec![("country_code", s("DE")), ("latitude", num(None, 49.4)), ("longitude", num(None, 11.1))]);
    let v = obj(vec![
        ("ip", s("49.12.1.1")),
        ("location", loc()),
        ("asn", obj(vec![("asn", num(Some(24940), 24940.0))])),
        ("company", obj(vec![("name", s("Hetzner Online GmbH"))])),
    ]);
    assert_eq!(
        summary(&ipapi_is::parse(&v)),
        Some((
            "49.12.1.xxx".to_string(),
            Some("DE".to_string()),
            Some("number:49.4".to_string()),
            Some("number:11.1".to_string()),
            Some("AS24940 Hetzner Online GmbH".to_string()),
        ))
    );
    let v = obj(vec![("ip", s("49.12.1.1")), ("location", loc()), ("asn", obj(vec![("asn", num(Some(24940), 24940.0))]))]);
    assert_eq!(summary(&ipapi_is::parse(&v)).unwrap().4, Some("AS24940".to_string()));
    let v = obj(vec![("ip", s("49.12.1.1")), ("location", loc()), ("company", obj(vec![("name", s("ACME"))]))]);
    assert_eq!(summary(&ipapi_is::parse(&v)).unwrap().4, Some("ACME".to_string()));
    let v = obj(vec![("ip", s("49.12.1.1")), ("location", loc()), ("asn", obj(vec![("asn", num(Some(-7), -7.0))]))]);
    assert_eq!(summary(&ipapi_is::parse(&v)).unwrap().4, Some("AS-7".to_string()));
    let v = obj(vec![("ip", s("49.12.1.1")), ("location", loc())]);
    assert_eq!(summary(&ipapi_is::parse(&v)).unwrap().4, None);
}

#[test]
fn ipapi_is_needs_location() {
    let v = obj(vec![("ip", s("49.12.1.1"))]);
    assert!(ipapi_is::parse(&v).is_none());
    let v = obj(vec![("error", s("x")), ("ip", s("49.12.1.1")), ("location", obj(vec![]))]);
    assert!(ipapi_is::parse(&v).is_none());
}

#[test]
fn ifconfig_org_cases() {
    let base = |extra: Vec<(&str, Json)>| {
        let mut e = vec![("ip", s("5.6.7.8")), ("country_iso", s("NL"))];
        e.extend(extra);
        obj(e)
    };
    let org = |v: Json| summary(&ifconfig::parse(&v)).unwrap().4;
    assert_eq!(org(base(vec![("asn", s("AS1")), ("asn_org", s("Foo"))])), Some("AS1 Foo".to_string()));
    assert_eq!(org(base(vec![("asn", s("AS1")), ("asn_org", s("AS1 Foo"))])), Some("AS1 Foo".to_string()));
    assert_eq!(org(base(vec![("asn_org", s("Foo"))])), Some("Foo".to_string()));
    assert_eq!(org(base(vec![("asn", s("AS1"))])), Some("AS1".to_string()));
    assert_eq!(org(base(vec![])), None);
    assert_eq!(summary(&ifconfig::parse(&base(vec![]))).unwrap().1, Some("NL".to_string()));
}

#[test]
fn geojs_rejects_empty_ip_and_prefers_organization() {
    let v = obj(vec![("ip", s(""))]);
    assert!(geojs::parse(&v).is_none());
    let v = obj(vec![("ip", s("1.1.1.1")), ("organization", s("AS13335 Cloudflare")), ("asn", s("13335"))]);
    assert_eq!(summary(&geojs::parse(&v)).unwrap().4, Some("AS13335 Cloudflare".to_string()));
    let v = obj(vec![("ip", s("1.1.1.1")), ("asn", s("13335")), ("latitude", s("-33.494"))]);
    let p = summary(&geojs::parse(&v)).unwrap();
    assert_eq!(p.4, Some("13335".to_string()));
    assert_eq!(p.2, Some("text:-33.494".to_string()));
}

#[test]
fn freeipapi_has_no_org() {
    let v = obj(vec![("ipAddress", s("9.9.9.9")), ("countryCode", s("CH")), ("latitude", num(None, 47.0))]);
    assert_eq!(
        summary(&freeipapi::parse(&v)),
        Some(("9.9.9.xxx".to_string(), Some("CH".to_string()), Some("number:47".to_string()), None, None))
    );
    assert!(freeipapi::parse(&obj(vec![("ip", s("9.9.9.9"))])).is_none());
}

#[test]
fn ipwhois_app_needs_success() {
    let v = obj(vec![("success", Json::Bool(true)), ("ip", s("4.4.4.4")), ("connection", obj(vec![("org", s("Level3"))]))]);
    assert_eq!(summary(&ipwhois_app::parse(&v)).unwrap().4, Some("Level3".to_string()));
    let v = obj(vec![("success", s("true")), ("ip", s("4.4.4.4"))]);
    assert!(ipwhois_app::parse(&v).is_none());
}

#[test]
fn extreme_ip_lookup_needs_status_success() {
    let v = obj(vec![
        ("status", s("success")),
        ("query", s("7.7.7.7")),
        ("countryCode", s("US")),
        ("lat", s("40.1")),
        ("lon", num(None, -75.5)),
        ("org", s("Org")),
        ("isp", s("Isp")),
    ]);
    assert_eq!(
        summary(&extreme_ip_lookup::parse(&v)),
        Some((
            "7.7.7.xxx".to_string(),
            Some("US".to_string()),
            Some("text:40.1".to_string()),
            Some("number:-75.5".to_string()),
            Some("Org".to_string()),
        ))
    );
    let v = obj(vec![("status", s("fail")), ("query", s("7.7.7.7"))]);
    assert!(extreme_ip_lookup::parse(&v).is_none());
    let v = obj(vec![("status", s("success")), ("query", s("7.7.7.7")), ("isp", s("Isp"))]);
    assert_eq!(summary(&extreme_ip_lookup::parse(&v)).unwrap().4, Some("Isp".to_string()));
}

#[test]
fn provider_urls() {
    assert_eq!(GeoProvider::IpWhois.url(None), "https://ipwho.is/");
    assert_eq!(GeoProvider::IpWhois.url(Some("1.2.3.4")), "https://ipwho.is/1.2.3.4");
    assert_eq!(GeoProvider::IpapiCo.url(None), "https://ipapi.co/json/");
    assert_eq!(GeoProvider::IpapiCo.url(Some("1.2.3.4")), "https://ipapi.co/1.2.3.4/json/");
    assert_eq!(GeoProvider::IpInfo.url(None), "https://ipinfo.io/json");
    assert_eq!(GeoProvider::IpInfo.url(Some("1.2.3.4")), "https://ipinfo.io/1.2.3.4/json");
    assert_eq!(GeoProvider::IpapiIs.url(None), "https://api.ipapi.is/");
    assert_eq!(GeoProvider::IpapiIs.url(Some("1.2.3.4")), "https://api.ipapi.is/?q=1.2.3.4");
    assert_eq!(GeoProvider::Ifconfig.url(None), "https://ifconfig.co/json");
    assert_eq!(GeoProvider::Ifconfig.url(Some("1.2.3.4")), "https://ifconfig.co/json?ip=1.2.3.4");
    assert_eq!(GeoProvider::GeoJs.url(None), "https://get.geojs.io/v1/ip/geo.json");
    assert_eq!(GeoProvider::GeoJs.url(Some("1.2.3.4")), "https://get.geojs.io/v1/ip/geo/1.2.3.4.json");
    assert_eq!(GeoProvider::FreeIpApi.url(None), "https://freeipapi.com/api/json/");
    assert_eq!(GeoProvider::FreeIpApi.url(Some("1.2.3.4")), "https://freeipapi.com/api/json/1.2.3.4");
    assert_eq!(GeoProvider::IpWhoisApp.url(None), "https://ipwhois.app/json/");
    assert_eq!(GeoProvider::IpWhoisApp.url(Some("1.2.3.4")), "https://ipwhois.app/json/1.2.3.4");
    assert_eq!(GeoProvider::ExtremeIpLookup.url(None), "https://extreme-ip-lookup.com/json/");
    assert_eq!(GeoProvider::ExtremeIpLookup.url(Some("1.2.3.4")), "https://extreme-ip-lookup.com/json/1.2.3.4");
}

#[test]
fn provider_chain_has_nine_in_order() {
    let mut order = vec![GeoProvider::first()];
    while let Some(next) = order.last().unwrap().next() {
        order.push(next);
    }
    assert_eq!(
        order,
        vec![
            GeoProvider::IpWhois,
            GeoProvider::IpapiCo,
            GeoProvider::IpInfo,
            GeoProvider::IpapiIs,
            GeoProvider::Ifconfig,
            GeoProvider::GeoJs,
            GeoProvider::FreeIpApi,
            GeoProvider::IpWhoisApp,
            GeoProvider::ExtremeIpLookup,
        ]
    );
}

#[test]
fn lookup_step_stops_at_first_success() {
    let ok = obj(vec![("success", Json::Bool(true)), ("ip", s("1.2.3.4"))]);
    match lookup_step(GeoProvider::IpWhois, Some(&ok)) {
        LookupStep::Found(p) => assert_eq!(p.ip, "1.2.3.xxx"),
        _ => panic!("expected a location"),
    }
    let bad = obj(vec![("success", Json::Bool(false))]);
    assert!(matches!(lookup_step(GeoProvider::IpWhois, Some(&bad)), LookupStep::Next(GeoProvider::IpapiCo)));
    assert!(matches!(lookup_step(GeoProvider::GeoJs, None), LookupStep::Next(GeoProvider::FreeIpApi)));
    assert!(matches!(lookup_step(GeoProvider::ExtremeIpLookup, None), LookupStep::Exhausted));
}

#[test]
fn dns_query_and_answer() {
    assert_eq!(dns_url("qxch.at"), "https://dns.google/resolve?name=qxch.at&type=A");
    let v = obj(vec![(
        "Answer",
        Json::Array(vec![obj(vec![("data", s("95.216.1.2"))]), obj(vec![("data", s("95.216.1.3"))])]),
    )]);
    assert_eq!(dns_answer(&v), Some("95.216.1.2".to_string()));
    assert_eq!(dns_answer(&obj(vec![("Answer", Json::Array(vec![]))])), None);
    assert_eq!(dns_answer(&obj(vec![("Status", num(Some(3), 3.0))])), None);
    assert_eq!(dns_answer(&obj(vec![("Answer", Json::Array(vec![obj(vec![("data", num(Some(1), 1.0))])]))])), None);
}

#[test]
fn json_get_takes_first_member_of_a_name() {
    let v = obj(vec![("k", s("first")), ("k", s("second"))]);
    assert_eq!(v.get("k").and_then(|x| x.as_str()), Some("first"));
    assert!(v.get("missing").is_none());
    assert!(s("x").get("k").is_none());
    assert_eq!(num(Some(5), 5.0).as_i64(), Some(5));
    assert_eq!(num(None, 5.5).as_i64(), None);
    assert_eq!(Json::Bool(false).as_bool(), Some(false));
}
