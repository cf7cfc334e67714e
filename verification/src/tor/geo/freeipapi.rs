//! `freeipapi.com` geolocation provider. Its free payload carries no AS/org.

use vstd::prelude::*;
use crate::json::{Json, field_text, get_str};
use super::{
    GeoPoint, GeoPointView, coordinate_field, endpoint, endpoint_url, flex_coord, mask_ip,
    opt_point, opt_str, point, text_field,
};

verus! {

pub open spec fn url_for(ip: Option<Seq<char>>) -> Seq<char> {
    endpoint(ip, "https://freeipapi.com/api/json/"@, "https://freeipapi.com/api/json/"@, ""@)
}

/// What a `freeipapi.com` reply says: nothing when `ipAddress` is not a
/// string; never an organisation.
pub open spec fn reading(v: Json) -> Option<GeoPointView> {
    match field_text(v, "ipAddress"@) {
        None => None,
        Some(raw) => Some(
            point(
                raw,
                field_text(v, "countryCode"@),
                flex_coord(v, "latitude"@),
                flex_coord(v, "longitude"@),
                None,
            ),
        ),
    }
}

pub fn url(ip: Option<&str>) -> (r: String)
    ensures
        r@ == url_for(opt_str(ip)),
{
    endpoint_url(ip, "https://freeipapi.com/api/json/", "https://freeipapi.com/api/json/", "")
}

/// Parses a `freeipapi.com` response. Returns `None` on failure.
pub fn parse(v: &Json) -> (r: Option<GeoPoint>)
    ensures
        opt_point(r) == reading(*v),
{
    let raw_ip = match get_str(v, "ipAddress") {
        Some(s) => s,
        None => return None,
    };
    Some(
        GeoPoint {
            ip: mask_ip(raw_ip),
            country_code: text_field(v, "countryCode"),
            latitude: coordinate_field(v, "latitude"),
            longitude: coordinate_field(v, "longitude"),
            org: None,
        },
    )
}

} // verus!
