//! `extreme-ip-lookup.com` geolocation provider.

use vstd::prelude::*;
use crate::json::{Json, field_text, get_str};
use crate::text::same_text;
use super::{
    GeoPoint, GeoPointView, coordinate_field, endpoint, endpoint_url, flex_coord, mask_ip,
    opt_point, opt_str, point, text_field,
};

verus! {

pub open spec fn url_for(ip: Option<Seq<char>>) -> Seq<char> {
    endpoint(ip, "https://extreme-ip-lookup.com/json/"@, "https://extreme-ip-lookup.com/json/"@, ""@)
}

/// The organisation: `as`, else `org`, else `isp`.
pub open spec fn org_of(v: Json) -> Option<Seq<char>> {
    match field_text(v, "as"@) {
        Some(a) => Some(a),
        None => match field_text(v, "org"@) {
            Some(o) => Some(o),
            None => field_text(v, "isp"@),
        },
    }
}

/// What an `extreme-ip-lookup.com` reply says: nothing unless `status` is the
/// string `"success"` and `query` is a string.
pub open spec fn reading(v: Json) -> Option<GeoPointView> {
    if field_text(v, "status"@) != Some("success"@) {
        None
    } else {
        match field_text(v, "query"@) {
            None => None,
            Some(raw) => Some(
                point(raw, field_text(v, "countryCode"@), flex_coord(v, "lat"@), flex_coord(v, "lon"@), org_of(v)),
            ),
        }
    }
}

pub fn url(ip: Option<&str>) -> (r: String)
    ensures
        r@ == url_for(opt_str(ip)),
{
    endpoint_url(ip, "https://extreme-ip-lookup.com/json/", "https://extreme-ip-lookup.com/json/", "")
}

/// Parses an `extreme-ip-lookup.com` response. Returns `None` on failure.
pub fn parse(v: &Json) -> (r: Option<GeoPoint>)
    ensures
        opt_point(r) == reading(*v),
{
    let success = match get_str(v, "status") {
        Some(s) => same_text(s, "success"),
        None => false,
    };
    if !success {
        return None;
    }
    let raw_ip = match get_str(v, "query") {
        Some(s) => s,
        None => return None,
    };
    let org = match text_field(v, "as") {
        Some(a) => Some(a),
        None => match text_field(v, "org") {
            Some(o) => Some(o),
            None => text_field(v, "isp"),
        },
    };
    Some(
        GeoPoint {
            ip: mask_ip(raw_ip),
            country_code: text_field(v, "countryCode"),
            latitude: coordinate_field(v, "lat"),
            longitude: coordinate_field(v, "lon"),
            org,
        },
    )
}

} // verus!
