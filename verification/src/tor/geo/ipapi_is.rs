//! `ipapi.is` geolocation provider.

use vstd::prelude::*;
use vstd::string::*;
use crate::json::{Json, field_text, get_str};
use crate::text::{int_text, owned, signed_decimal};
use super::{GeoPoint, GeoPointView, coordinate_field, endpoint, endpoint_url, flex_coord, mask_ip, nested_text, nested_text_field, opt_point, opt_str, point, text_field};

verus! {

pub open spec fn url_for(ip: Option<Seq<char>>) -> Seq<char> {
    endpoint(ip, "https://api.ipapi.is/"@, "https://api.ipapi.is/?q="@, ""@)
}

/// The AS number at `asn.asn`, when it is an integer within `i64`.
pub open spec fn asn_of(v: Json) -> Option<i64> {
    match v.field("asn"@) {
        Some(a) => match a.field("asn"@) {
            Some(n) => n.integer(),
            None => None,
        },
        None => None,
    }
}

/// The organisation: `"AS<asn> <company.name>"`, or whichever of the two parts
/// is present (`"AS<asn>"` alone, or the name alone).
pub open spec fn org_of(v: Json) -> Option<Seq<char>> {
    match (asn_of(v), nested_text(v, "company"@, "name"@)) {
        (Some(asn), Some(name)) => Some("AS"@ + int_text(asn as int) + " "@ + name),
        (_, Some(name)) => Some(name),
        (Some(asn), None) => Some("AS"@ + int_text(asn as int)),
        (None, None) => None,
    }
}

/// What an `ipapi.is` reply says: nothing when it has an `error` member, `ip`
/// is not a string or `location` is missing; the place fields are read from
/// `location`.
pub open spec fn reading(v: Json) -> Option<GeoPointView> {
    if v.field("error"@) is Some {
        None
    } else {
        match field_text(v, "ip"@) {
            None => None,
            Some(raw) => match v.field("location"@) {
                None => None,
                Some(location) => Some(
                    point(
                        raw,
                        field_text(location, "country_code"@),
                        flex_coord(location, "latitude"@),
                        flex_coord(location, "longitude"@),
                        org_of(v),
                    ),
                ),
            },
        }
    }
}

pub fn url(ip: Option<&str>) -> (r: String)
    ensures
        r@ == url_for(opt_str(ip)),
{
    endpoint_url(ip, "https://api.ipapi.is/", "https://api.ipapi.is/?q=", "")
}

fn as_number_text(asn: i64) -> (r: String)
    ensures
        r@ == "AS"@ + int_text(asn as int),
{
    let mut s = owned("AS");
    let digits = signed_decimal(asn);
    s.append(digits.as_str());
    s
}

/// Parses an `ipapi.is` response. Returns `None` on failure.
pub fn parse(v: &Json) -> (r: Option<GeoPoint>)
    ensures
        opt_point(r) == reading(*v),
{
    if v.get("error").is_some() {
        return None;
    }
    let raw_ip = match get_str(v, "ip") {
        Some(s) => s,
        None => return None,
    };
    let location = match v.get("location") {
        Some(l) => l,
        None => return None,
    };
    let org_name = nested_text_field(v, "company", "name");
    let asn = match v.get("asn") {
        Some(a) => match a.get("asn") {
            Some(n) => n.as_i64(),
            None => None,
        },
        None => None,
    };
    let org = match (asn, org_name) {
        (Some(asn), Some(name)) => {
            let mut s = as_number_text(asn);
            s.append(" ");
            s.append(name.as_str());
            Some(s)
        },
        (_, Some(name)) => Some(name),
        (Some(asn), None) => Some(as_number_text(asn)),
        (None, None) => None,
    };
    Some(
        GeoPoint {
            ip: mask_ip(raw_ip),
            country_code: text_field(location, "country_code"),
            latitude: coordinate_field(location, "latitude"),
            longitude: coordinate_field(location, "longitude"),
            org,
        },
    )
}

} // verus!
