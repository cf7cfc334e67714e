//! `ipinfo.io` (tokenless) geolocation provider.

use vstd::prelude::*;
use vstd::string::*;
use crate::json::{Json, field_text, get_str};
use crate::text::{find_first, first_index_of, owned};
use super::{
    Coordinate, CoordinateView, GeoPoint, GeoPointView, endpoint, endpoint_url, mask_ip, opt_coord,
    opt_point, opt_str, point, text_field,
};

verus! {

pub open spec fn url_for(ip: Option<Seq<char>>) -> Seq<char> {
    endpoint(ip, "https://ipinfo.io/json"@, "https://ipinfo.io/"@, "/json"@)
}

/// The two halves of a `"lat,lng"` text around its first comma; none when the
/// text has no comma.
pub open spec fn loc_halves(v: Json) -> (Option<CoordinateView>, Option<CoordinateView>) {
    match field_text(v, "loc"@) {
        Some(loc) => {
            let i = first_index_of(loc, ',');
            if i >= 0 {
                (
                    Some(CoordinateView::Paired(loc.subrange(0, i))),
                    Some(CoordinateView::Paired(loc.subrange(i + 1, loc.len() as int))),
                )
            } else {
                (None, None)
            }
        },
        None => (None, None),
    }
}

/// What an `ipinfo.io` reply says: nothing when it has an `error` member or
/// `ip` is not a string.
pub open spec fn reading(v: Json) -> Option<GeoPointView> {
    if v.field("error"@) is Some {
        None
    } else {
        match field_text(v, "ip"@) {
            None => None,
            Some(raw) => Some(
                point(
                    raw,
                    field_text(v, "country"@),
                    loc_halves(v).0,
                    loc_halves(v).1,
                    field_text(v, "org"@),
                ),
            ),
        }
    }
}

pub fn url(ip: Option<&str>) -> (r: String)
    ensures
        r@ == url_for(opt_str(ip)),
{
    endpoint_url(ip, "https://ipinfo.io/json", "https://ipinfo.io/", "/json")
}

fn split_loc(v: &Json) -> (r: (Option<Coordinate>, Option<Coordinate>))
    ensures
        (opt_coord(r.0), opt_coord(r.1)) == loc_halves(*v),
{
    match get_str(v, "loc") {
        Some(loc) => match find_first(loc, ',') {
            Some(i) => {
                let n = loc.unicode_len();
                (
                    Some(Coordinate::Paired(owned(loc.substring_char(0, i)))),
                    Some(Coordinate::Paired(owned(loc.substring_char(i + 1, n)))),
                )
            },
            None => (None, None),
        },
        None => (None, None),
    }
}

/// Parses an `ipinfo.io` tokenless response. Returns `None` on failure.
pub fn parse(v: &Json) -> (r: Option<GeoPoint>)
    ensures
        opt_point(r) == reading(*v),
{
    if v.get("error").is_some() {
        return None;
    }
    let raw_ip = match get_str(v, "ip") {
        Some(s) => s,
        None => return None,
    };
    let (latitude, longitude) = split_loc(v);
    Some(
        GeoPoint {
            ip: mask_ip(raw_ip),
            country_code: text_field(v, "country"),
            latitude,
            longitude,
            org: text_field(v, "org"),
        },
    )
}

} // verus!
