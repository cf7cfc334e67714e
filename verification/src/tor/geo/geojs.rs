//! `geojs.io` geolocation provider.

use vstd::prelude::*;
use crate::json::{Json, field_text, get_str};
use super::{
    GeoPoint, GeoPointView, coordinate_field, endpoint, endpoint_url, flex_coord, mask_ip,
    opt_point, opt_str, point, text_field,
};

verus! {

pub open spec fn url_for(ip: Option<Seq<char>>) -> Seq<char> {
    endpoint(ip, "https://get.geojs.io/v1/ip/geo.json"@, "https://get.geojs.io/v1/ip/geo/"@, ".json"@)
}

/// The organisation: `organization`, else `asn`.
pub open spec fn org_of(v: Json) -> Option<Seq<char>> {
    match field_text(v, "organization"@) {
        Some(o) => Some(o),
        None => field_text(v, "asn"@),
    }
}

/// What a `geojs.io` reply says: nothing when `ip` is not a string or is empty.
pub open spec fn reading(v: Json) -> Option<GeoPointView> {
    match field_text(v, "ip"@) {
        None => None,
        Some(raw) => if raw.len() == 0 {
            None
        } else {
            Some(
                point(
                    raw,
                    field_text(v, "country_code"@),
                    flex_coord(v, "latitude"@),
                    flex_coord(v, "longitude"@),
                    org_of(v),
                ),
            )
        },
    }
}

pub fn url(ip: Option<&str>) -> (r: String)
    ensures
        r@ == url_for(opt_str(ip)),
{
    endpoint_url(ip, "https://get.geojs.io/v1/ip/geo.json", "https://get.geojs.io/v1/ip/geo/", ".json")
}

/// Parses a `geojs.io` response. Returns `None` on failure.
pub fn parse(v: &Json) -> (r: Option<GeoPoint>)
    ensures
        opt_point(r) == reading(*v),
{
    let raw_ip = match get_str(v, "ip") {
        Some(s) => s,
        None => return None,
    };
    if raw_ip.is_empty() {
        return None;
    }
    let org = match text_field(v, "organization") {
        Some(o) => Some(o),
        None => text_field(v, "asn"),
    };
    Some(
        GeoPoint {
            ip: mask_ip(raw_ip),
            country_code: text_field(v, "country_code"),
            latitude: coordinate_field(v, "latitude"),
            longitude: coordinate_field(v, "longitude"),
            org,
        },
    )
}

} // verus!
