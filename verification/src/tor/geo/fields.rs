//! Where each provider's reply keeps what a reading shows: the member read for
//! the address, the country, the latitude, the longitude and the
//! organisation, and when a reply counts as an answer at all.

use vstd::prelude::*;
use vstd::string::*;
use crate::json::{Json, field_text};
use crate::text::{first_index_of, has_prefix, int_text, lemma_first_index_bounds, lemma_first_index_found};
use super::{CoordinateView, GeoProvider, flex_coord, masked_ip, nested_text, provider_reading};
use super::ipapi_is::asn_of;

verus! {

/// When a reply counts as an answer, provider by provider: ipwho.is and
/// ipwhois.app need `"success": true`, ipapi.co needs `error` not `true`,
/// ipinfo.io, api.ipapi.is and ifconfig.co need no `error` member (and
/// api.ipapi.is a `location` object), GeoJS needs a non-empty address,
/// extreme-ip-lookup needs `"status": "success"`; and each needs its address
/// member (`ip`, `ipAddress` for freeipapi, `query` for extreme-ip-lookup) to
/// be a string.
pub proof fn provider_answers_when(p: GeoProvider, v: Json)
    ensures
        p == GeoProvider::IpWhois || p == GeoProvider::IpWhoisApp ==> (provider_reading(p, v) is Some
            <==> (v.field("success"@) is Some && (v.field("success"@)->0).flag() == Some(true)
            && field_text(v, "ip"@) is Some)),
        p == GeoProvider::IpapiCo ==> (provider_reading(p, v) is Some <==> (!(v.field("error"@) is Some && (v.field(
            "error"@,
        )->0).flag() == Some(true)) && field_text(v, "ip"@) is Some)),
        p == GeoProvider::IpInfo || p == GeoProvider::Ifconfig ==> (provider_reading(p, v) is Some <==> v.field(
            "error"@,
        ) is None && field_text(v, "ip"@) is Some),
        p == GeoProvider::IpapiIs ==> (provider_reading(p, v) is Some <==> v.field("error"@) is None
            && field_text(v, "ip"@) is Some && v.field("location"@) is Some),
        p == GeoProvider::GeoJs ==> (provider_reading(p, v) is Some <==> (field_text(v, "ip"@) is Some
            && (field_text(v, "ip"@)->0).len() > 0)),
        p == GeoProvider::FreeIpApi ==> (provider_reading(p, v) is Some <==> field_text(v, "ipAddress"@)
            is Some),
        p == GeoProvider::ExtremeIpLookup ==> (provider_reading(p, v) is Some <==> field_text(v, "status"@)
            == Some("success"@) && field_text(v, "query"@) is Some),
{
}

/// Every reading takes each field from the reply member that holds it, never
/// from another: the masked address, the country, the latitude from the
/// latitude member and the longitude from the longitude member (ipinfo.io's
/// paired `loc` is covered by [`ipinfo_loc_is_latitude_then_longitude`]), and
/// the organisation.
pub proof fn reading_members_stay_in_place(p: GeoProvider, v: Json)
    ensures
        provider_reading(p, v) matches Some(pt) ==> (p == GeoProvider::IpWhois || p == GeoProvider::IpWhoisApp
            ==> {
            &&& field_text(v, "ip"@) matches Some(raw) && pt.ip == masked_ip(raw)
            &&& pt.country_code == field_text(v, "country_code"@)
            &&& pt.latitude == flex_coord(v, "latitude"@)
            &&& pt.longitude == flex_coord(v, "longitude"@)
            &&& pt.org == nested_text(v, "connection"@, "org"@)
        }),
        provider_reading(GeoProvider::IpapiCo, v) matches Some(pt) ==> {
            &&& field_text(v, "ip"@) matches Some(raw) && pt.ip == masked_ip(raw)
            &&& field_text(v, "country_code"@) is Some ==> pt.country_code == field_text(v, "country_code"@)
            &&& field_text(v, "country_code"@) is None ==> pt.country_code == field_text(v, "country"@)
            &&& pt.latitude == flex_coord(v, "latitude"@)
            &&& pt.longitude == flex_coord(v, "longitude"@)
            &&& field_text(v, "org"@) is None ==> pt.org is None
            &&& field_text(v, "org"@) is Some && field_text(v, "asn"@) is Some && !has_prefix(
                field_text(v, "org"@)->0,
                field_text(v, "asn"@)->0,
            ) ==> pt.org == Some(field_text(v, "asn"@)->0 + " "@ + field_text(v, "org"@)->0)
            &&& field_text(v, "org"@) is Some && !(field_text(v, "asn"@) is Some && !has_prefix(
                field_text(v, "org"@)->0,
                field_text(v, "asn"@)->0,
            )) ==> pt.org == field_text(v, "org"@)
        },
        provider_reading(GeoProvider::IpInfo, v) matches Some(pt) ==> {
            &&& field_text(v, "ip"@) matches Some(raw) && pt.ip == masked_ip(raw)
            &&& pt.country_code == field_text(v, "country"@)
            &&& pt.org == field_text(v, "org"@)
            &&& !(field_text(v, "loc"@) is Some && (field_text(v, "loc"@)->0).contains(',')) ==> pt.latitude
                is None && pt.longitude is None
        },
        provider_reading(GeoProvider::IpapiIs, v) matches Some(pt) ==> {
            &&& field_text(v, "ip"@) matches Some(raw) && pt.ip == masked_ip(raw)
            &&& v.field("location"@) matches Some(location) && pt.country_code == field_text(
                location,
                "country_code"@,
            ) && pt.latitude == flex_coord(location, "latitude"@) && pt.longitude == flex_coord(
                location,
                "longitude"@,
            )
            &&& asn_of(v) is Some && nested_text(v, "company"@, "name"@) is Some ==> pt.org == Some(
                "AS"@ + int_text(asn_of(v)->0 as int) + " "@ + nested_text(v, "company"@, "name"@)->0,
            )
            &&& asn_of(v) is None ==> pt.org == nested_text(v, "company"@, "name"@)
            &&& asn_of(v) is Some && nested_text(v, "company"@, "name"@) is None ==> pt.org == Some(
                "AS"@ + int_text(asn_of(v)->0 as int),
            )
        },
        provider_reading(GeoProvider::Ifconfig, v) matches Some(pt) ==> {
            &&& field_text(v, "ip"@) matches Some(raw) && pt.ip == masked_ip(raw)
            &&& pt.country_code == field_text(v, "country_iso"@)
            &&& pt.latitude == flex_coord(v, "latitude"@)
            &&& pt.longitude == flex_coord(v, "longitude"@)
            &&& field_text(v, "asn_org"@) is Some && field_text(v, "asn"@) is Some && !has_prefix(
                field_text(v, "asn_org"@)->0,
                field_text(v, "asn"@)->0,
            ) ==> pt.org == Some(field_text(v, "asn"@)->0 + " "@ + field_text(v, "asn_org"@)->0)
            &&& field_text(v, "asn_org"@) is Some && !(field_text(v, "asn"@) is Some && !has_prefix(
                field_text(v, "asn_org"@)->0,
                field_text(v, "asn"@)->0,
            )) ==> pt.org == field_text(v, "asn_org"@)
            &&& field_text(v, "asn_org"@) is None ==> pt.org == field_text(v, "asn"@)
        },
        provider_reading(GeoProvider::GeoJs, v) matches Some(pt) ==> {
            &&& field_text(v, "ip"@) matches Some(raw) && pt.ip == masked_ip(raw)
            &&& pt.country_code == field_text(v, "country_code"@)
            &&& pt.latitude == flex_coord(v, "latitude"@)
            &&& pt.longitude == flex_coord(v, "longitude"@)
            &&& field_text(v, "organization"@) is Some ==> pt.org == field_text(v, "organization"@)
            &&& field_text(v, "organization"@) is None ==> pt.org == field_text(v, "asn"@)
        },
        provider_reading(GeoProvider::FreeIpApi, v) matches Some(pt) ==> {
            &&& field_text(v, "ipAddress"@) matches Some(raw) && pt.ip == masked_ip(raw)
            &&& pt.country_code == field_text(v, "countryCode"@)
            &&& pt.latitude == flex_coord(v, "latitude"@)
            &&& pt.longitude == flex_coord(v, "longitude"@)
            &&& pt.org is None
        },
        provider_reading(GeoProvider::ExtremeIpLookup, v) matches Some(pt) ==> {
            &&& field_text(v, "query"@) matches Some(raw) && pt.ip == masked_ip(raw)
            &&& pt.country_code == field_text(v, "countryCode"@)
            &&& pt.latitude == flex_coord(v, "lat"@)
            &&& pt.longitude == flex_coord(v, "lon"@)
            &&& field_text(v, "as"@) is Some ==> pt.org == field_text(v, "as"@)
            &&& field_text(v, "as"@) is None && field_text(v, "org"@) is Some ==> pt.org == field_text(v, "org"@)
            &&& field_text(v, "as"@) is None && field_text(v, "org"@) is None ==> pt.org == field_text(v, "isp"@)
        },
{
    match field_text(v, "loc"@) {
        Some(loc) => lemma_first_index_bounds(loc, ','),
        None => {},
    }
}

/// ipinfo.io sends its coordinates as one `"lat,lng"` text: the part before the
/// first comma is the latitude and the part after it the longitude.
pub proof fn ipinfo_loc_is_latitude_then_longitude(v: Json, lat: Seq<char>, lng: Seq<char>)
    requires
        field_text(v, "loc"@) == Some(lat + seq![','] + lng),
        !lat.contains(','),
    ensures
        provider_reading(GeoProvider::IpInfo, v) matches Some(pt) ==> pt.latitude == Some(
            CoordinateView::Paired(lat),
        ) && pt.longitude == Some(CoordinateView::Paired(lng)),
{
    let loc = lat + seq![','] + lng;
    let i = lat.len() as int;
    assert(loc[i] == ',');
    assert forall|j: int| 0 <= j < i implies loc[j] != ',' by {
        assert(loc[j] == lat[j]);
    }
    lemma_first_index_found(loc, ',', i);
    assert(first_index_of(loc, ',') == i);
    assert(loc.subrange(0, i) =~= lat);
    assert(loc.subrange(i + 1, loc.len() as int) =~= lng);
}

} // verus!
