//! `ipapi.co` geolocation provider.

use vstd::prelude::*;
use vstd::string::*;
use crate::json::{Json, field_text, get_str};
use crate::text::{has_prefix, owned, starts_with};
use super::{
    GeoPoint, GeoPointView, coordinate_field, endpoint, endpoint_url, field_is_true, flex_coord,
    is_true, joined, mask_ip, opt_point, opt_str, point,
};

verus! {

pub open spec fn url_for(ip: Option<Seq<char>>) -> Seq<char> {
    endpoint(ip, "https://ipapi.co/json/"@, "https://ipapi.co/"@, "/json/"@)
}

/// The organisation: `org`, prefixed by `asn` and a space unless it already
/// begins with it.
pub open spec fn org_of(v: Json) -> Option<Seq<char>> {
    match field_text(v, "org"@) {
        Some(name) => Some(
            match field_text(v, "asn"@) {
                Some(asn) => if !has_prefix(name, asn) { asn + " "@ + name } else { name },
                None => name,
            },
        ),
        None => None,
    }
}

/// The country: `country_code`, else `country`.
pub open spec fn country_of(v: Json) -> Option<Seq<char>> {
    match field_text(v, "country_code"@) {
        Some(c) => Some(c),
        None => field_text(v, "country"@),
    }
}

/// What an `ipapi.co` reply says: nothing when `error` is `true` (failures and
/// rate limits) or `ip` is not a string.
pub open spec fn reading(v: Json) -> Option<GeoPointView> {
    if field_is_true(v, "error"@) {
        None
    } else {
        match field_text(v, "ip"@) {
            None => None,
            Some(raw) => Some(
                point(raw, country_of(v), flex_coord(v, "latitude"@), flex_coord(v, "longitude"@), org_of(v)),
            ),
        }
    }
}

pub fn url(ip: Option<&str>) -> (r: String)
    ensures
        r@ == url_for(opt_str(ip)),
{
    endpoint_url(ip, "https://ipapi.co/json/", "https://ipapi.co/", "/json/")
}

/// Parses an `ipapi.co` response. Returns `None` on a failed lookup.
pub fn parse(v: &Json) -> (r: Option<GeoPoint>)
    ensures
        opt_point(r) == reading(*v),
{
    if is_true(v, "error") {
        return None;
    }
    let raw_ip = match get_str(v, "ip") {
        Some(s) => s,
        None => return None,
    };
    let country_code = match get_str(v, "country_code") {
        Some(c) => Some(owned(c)),
        None => match get_str(v, "country") {
            Some(c) => Some(owned(c)),
            None => None,
        },
    };
    let org = match get_str(v, "org") {
        Some(name) => Some(
            match get_str(v, "asn") {
                Some(asn) => if !starts_with(name, asn) { joined(asn, name) } else { owned(name) },
                None => owned(name),
            },
        ),
        None => None,
    };
    Some(
        GeoPoint {
            ip: mask_ip(raw_ip),
            country_code,
            latitude: coordinate_field(v, "latitude"),
            longitude: coordinate_field(v, "longitude"),
            org,
        },
    )
}

} // verus!
