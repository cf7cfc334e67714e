//! `ipwho.is` geolocation provider.

use vstd::prelude::*;
use crate::json::{Json, field_text, get_str};
use super::{GeoPoint, GeoPointView, coordinate_field, endpoint, endpoint_url, field_is_true, flex_coord, is_true, mask_ip, nested_text, nested_text_field, opt_point, opt_str, point, text_field};

verus! {

/// The request URL for `ip`, or for the caller's own address.
pub open spec fn url_for(ip: Option<Seq<char>>) -> Seq<char> {
    endpoint(ip, "https://ipwho.is/"@, "https://ipwho.is/"@, ""@)
}

/// What an `ipwho.is` reply says: nothing unless `success` is `true` and `ip`
/// is a string.
pub open spec fn reading(v: Json) -> Option<GeoPointView> {
    if !field_is_true(v, "success"@) {
        None
    } else {
        match field_text(v, "ip"@) {
            None => None,
            Some(raw) => Some(
                point(
                    raw,
                    field_text(v, "country_code"@),
                    flex_coord(v, "latitude"@),
                    flex_coord(v, "longitude"@),
                    nested_text(v, "connection"@, "org"@),
                ),
            ),
        }
    }
}

pub fn url(ip: Option<&str>) -> (r: String)
    ensures
        r@ == url_for(opt_str(ip)),
{
    endpoint_url(ip, "https://ipwho.is/", "https://ipwho.is/", "")
}

/// Parses an `ipwho.is` response. Returns `None` on a failed lookup (bogon,
/// rate limit, unknown IP, …).
pub fn parse(v: &Json) -> (r: Option<GeoPoint>)
    ensures
        opt_point(r) == reading(*v),
{
    if !is_true(v, "success") {
        return None;
    }
    let raw_ip = match get_str(v, "ip") {
        Some(s) => s,
        None => return None,
    };
    Some(
        GeoPoint {
            ip: mask_ip(raw_ip),
            country_code: text_field(v, "country_code"),
            latitude: coordinate_field(v, "latitude"),
            longitude: coordinate_field(v, "longitude"),
            org: nested_text_field(v, "connection", "org"),
        },
    )
}

} // verus!
