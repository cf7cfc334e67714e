//! `ifconfig.co` geolocation provider.

use vstd::prelude::*;
use vstd::string::*;
use crate::json::{Json, field_text, get_str};
use crate::text::{has_prefix, owned, starts_with};
use super::{
    GeoPoint, GeoPointView, coordinate_field, endpoint, endpoint_url, flex_coord, joined, mask_ip,
    opt_point, opt_str, point, text_field,
};

verus! {

pub open spec fn url_for(ip: Option<Seq<char>>) -> Seq<char> {
    endpoint(ip, "https://ifconfig.co/json"@, "https://ifconfig.co/json?ip="@, ""@)
}

/// The organisation from `asn` and `asn_org`: `"<asn> <asn_org>"` unless the
/// name already begins with the AS number, else whichever part is present.
pub open spec fn org_of(v: Json) -> Option<Seq<char>> {
    match (field_text(v, "asn"@), field_text(v, "asn_org"@)) {
        (Some(asn), Some(name)) => Some(if !has_prefix(name, asn) { asn + " "@ + name } else { name }),
        (_, Some(name)) => Some(name),
        (Some(asn), None) => Some(asn),
        (None, None) => None,
    }
}

/// What an `ifconfig.co` reply says: nothing when it has an `error` member or
/// `ip` is not a string.
pub open spec fn reading(v: Json) -> Option<GeoPointView> {
    if v.field("error"@) is Some {
        None
    } else {
        match field_text(v, "ip"@) {
            None => None,
            Some(raw) => Some(
                point(
                    raw,
                    field_text(v, "country_iso"@),
                    flex_coord(v, "latitude"@),
                    flex_coord(v, "longitude"@),
                    org_of(v),
                ),
            ),
        }
    }
}

pub fn url(ip: Option<&str>) -> (r: String)
    ensures
        r@ == url_for(opt_str(ip)),
{
    endpoint_url(ip, "https://ifconfig.co/json", "https://ifconfig.co/json?ip=", "")
}

/// Parses an `ifconfig.co` response. Returns `None` on failure.
pub fn parse(v: &Json) -> (r: Option<GeoPoint>)
    ensures
        opt_point(r) == reading(*v),
{
    if v.get("error").is_some() {
        return None;
    }
    let raw_ip = match get_str(v, "ip") {
        Some(s) => s,
        None => return None,
    };
    let org = match (get_str(v, "asn"), get_str(v, "asn_org")) {
        (Some(asn), Some(name)) => Some(
            if !starts_with(name, asn) { joined(asn, name) } else { owned(name) },
        ),
        (_, Some(name)) => Some(owned(name)),
        (Some(asn), None) => Some(owned(asn)),
        (None, None) => None,
    };
    Some(
        GeoPoint {
            ip: mask_ip(raw_ip),
            country_code: text_field(v, "country_iso"),
            latitude: coordinate_field(v, "latitude"),
            longitude: coordinate_field(v, "longitude"),
            org,
        },
    )
}

} // verus!
