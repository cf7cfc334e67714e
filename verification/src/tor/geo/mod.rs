//! Client/server geo-location for the Tor map.
//!
//! Several key-free geolocation services are tried in a fixed order and the
//! first successful answer wins. Every public IP is masked (last octet or last
//! hextet group replaced by `xxx`) before it leaves this module, so the UI only
//! ever sees location and AS, never the full address.
//!
//! Coordinates are carried as the number's `f64` bit pattern or as the text the
//! provider sent; the application reads them into floating-point values.

pub mod ipwhois;
pub mod ipapi_co;
pub mod ipinfo;
pub mod ipapi_is;
pub mod ifconfig;
pub mod geojs;
pub mod freeipapi;
pub mod ipwhois_app;
pub mod extreme_ip_lookup;
pub mod fields;

use vstd::prelude::*;
use vstd::string::*;
use crate::json::{Json, field_text, get_str};
use crate::text::{find_last, last_index_of, owned};

verus! {

/// A latitude or longitude as a provider reported it.
pub enum Coordinate {
    /// A JSON number, as the bit pattern of its `f64` value.
    Number(u64),
    /// A JSON string, to be read as a decimal number after trimming white space
    /// (absent when it does not read as one).
    Text(String),
    /// One half of a `"lat,lng"` pair: read like `Text`, but the pair is kept
    /// only when both halves read as numbers, and dropped together otherwise.
    Paired(String),
}

pub enum CoordinateView {
    Number(u64),
    Text(Seq<char>),
    Paired(Seq<char>),
}

impl View for Coordinate {
    type V = CoordinateView;

    open spec fn view(&self) -> CoordinateView {
        match self {
            Coordinate::Number(b) => CoordinateView::Number(*b),
            Coordinate::Text(s) => CoordinateView::Text(s@),
            Coordinate::Paired(s) => CoordinateView::Paired(s@),
        }
    }
}

/// A coarse location of one public endpoint.
pub struct GeoPoint {
    /// Masked public IP (e.g. "203.0.113.xxx" / "2606:4700::xxx").
    pub ip: String,
    pub country_code: Option<String>,
    pub latitude: Option<Coordinate>,
    pub longitude: Option<Coordinate>,
    /// AS + organization name (e.g. "AS24940 Hetzner Online GmbH").
    pub org: Option<String>,
}

pub struct GeoPointView {
    pub ip: Seq<char>,
    pub country_code: Option<Seq<char>>,
    pub latitude: Option<CoordinateView>,
    pub longitude: Option<CoordinateView>,
    pub org: Option<Seq<char>>,
}

pub open spec fn opt_text(o: Option<String>) -> Option<Seq<char>> {
    match o {
        Some(s) => Some(s@),
        None => None,
    }
}

pub open spec fn opt_coord(o: Option<Coordinate>) -> Option<CoordinateView> {
    match o {
        Some(c) => Some(c@),
        None => None,
    }
}

impl View for GeoPoint {
    type V = GeoPointView;

    open spec fn view(&self) -> GeoPointView {
        GeoPointView {
            ip: self.ip@,
            country_code: opt_text(self.country_code),
            latitude: opt_coord(self.latitude),
            longitude: opt_coord(self.longitude),
            org: opt_text(self.org),
        }
    }
}

pub open spec fn opt_point(o: Option<GeoPoint>) -> Option<GeoPointView> {
    match o {
        Some(p) => Some(p@),
        None => None,
    }
}

/// Client and server locations; an unresolvable point is `None`.
pub struct GeoInfo {
    pub client: Option<GeoPoint>,
    pub server: Option<GeoPoint>,
}

pub struct GeoInfoView {
    pub client: Option<GeoPointView>,
    pub server: Option<GeoPointView>,
}

impl View for GeoInfo {
    type V = GeoInfoView;

    open spec fn view(&self) -> GeoInfoView {
        GeoInfoView { client: opt_point(self.client), server: opt_point(self.server) }
    }
}

fn copy_opt_text(o: &Option<String>) -> (r: Option<String>)
    ensures
        opt_text(r) == opt_text(*o),
{
    match o {
        Some(s) => Some(owned(s.as_str())),
        None => None,
    }
}

impl Coordinate {
    /// A copy of this coordinate.
    pub fn duplicate(&self) -> (r: Coordinate)
        ensures
            r@ == self@,
    {
        match self {
            Coordinate::Number(b) => Coordinate::Number(*b),
            Coordinate::Text(s) => Coordinate::Text(owned(s.as_str())),
            Coordinate::Paired(s) => Coordinate::Paired(owned(s.as_str())),
        }
    }
}

fn copy_opt_coord(o: &Option<Coordinate>) -> (r: Option<Coordinate>)
    ensures
        opt_coord(r) == opt_coord(*o),
{
    match o {
        Some(c) => Some(c.duplicate()),
        None => None,
    }
}

impl GeoPoint {
    /// A field-for-field copy.
    pub fn duplicate(&self) -> (r: GeoPoint)
        ensures
            r@ == self@,
    {
        GeoPoint {
            ip: owned(self.ip.as_str()),
            country_code: copy_opt_text(&self.country_code),
            latitude: copy_opt_coord(&self.latitude),
            longitude: copy_opt_coord(&self.longitude),
            org: copy_opt_text(&self.org),
        }
    }
}

fn copy_opt_point(o: &Option<GeoPoint>) -> (r: Option<GeoPoint>)
    ensures
        opt_point(r) == opt_point(*o),
{
    match o {
        Some(p) => Some(p.duplicate()),
        None => None,
    }
}

impl GeoInfo {
    /// A copy of both points.
    pub fn duplicate(&self) -> (r: GeoInfo)
        ensures
            r@ == self@,
    {
        GeoInfo { client: copy_opt_point(&self.client), server: copy_opt_point(&self.server) }
    }
}

/// The host whose location is shown as "server" on the map.
pub const SERVER_HOST: &'static str = "qxch.at";

// ----- masking -------------------------------------------------------------

/// The masked form of a public IP: for IPv6 (any `:`) everything after the last
/// `:` becomes `xxx`; for IPv4 everything after the last `.`; text with neither
/// is returned unchanged.
pub open spec fn masked_ip(ip: Seq<char>) -> Seq<char> {
    let colon = last_index_of(ip, ':');
    let dot = last_index_of(ip, '.');
    if colon >= 0 {
        ip.subrange(0, colon + 1) + "xxx"@
    } else if dot >= 0 {
        ip.subrange(0, dot + 1) + "xxx"@
    } else {
        ip
    }
}

/// Masks the last octet (IPv4) or last hextet group (IPv6) of a public IP so
/// the full address never reaches the UI.
pub fn mask_ip(ip: &str) -> (r: String)
    ensures
        r@ == masked_ip(ip@),
{
    match find_last(ip, ':') {
        Some(i) => {
            let mut s = owned(ip.substring_char(0, i + 1));
            s.append("xxx");
            s
        },
        None => match find_last(ip, '.') {
            Some(i) => {
                let mut s = owned(ip.substring_char(0, i + 1));
                s.append("xxx");
                s
            },
            None => owned(ip),
        },
    }
}

// ----- field readers -------------------------------------------------------

/// A coordinate that may be a JSON number or a JSON string.
pub open spec fn flex_coord(v: Json, key: Seq<char>) -> Option<CoordinateView> {
    match v.field(key) {
        Some(Json::Number(n)) => Some(CoordinateView::Number(n.bits)),
        Some(Json::String(s)) => Some(CoordinateView::Text(s@)),
        _ => None,
    }
}

/// The string at `outer.inner`.
pub open spec fn nested_text(v: Json, outer: Seq<char>, inner: Seq<char>) -> Option<Seq<char>> {
    match v.field(outer) {
        Some(o) => field_text(o, inner),
        None => None,
    }
}

/// Whether member `key` is the JSON boolean `true`.
pub open spec fn field_is_true(v: Json, key: Seq<char>) -> bool {
    match v.field(key) {
        Some(x) => x.flag() == Some(true),
        None => false,
    }
}

/// Reads a number that may be encoded as a JSON number or as a string
/// (`as_f64_flex`): the coordinate to read, or `None` for any other value.
pub fn as_f64_flex(v: &Json) -> (r: Option<Coordinate>)
    ensures
        opt_coord(r) == (match *v {
            Json::Number(n) => Some(CoordinateView::Number(n.bits)),
            Json::String(s) => Some(CoordinateView::Text(s@)),
            _ => None,
        }),
{
    match v {
        Json::Number(n) => Some(Coordinate::Number(n.bits)),
        Json::String(s) => Some(Coordinate::Text(owned(s.as_str()))),
        _ => None,
    }
}

pub(crate) fn coordinate_field(v: &Json, key: &str) -> (r: Option<Coordinate>)
    ensures
        opt_coord(r) == flex_coord(*v, key@),
{
    match v.get(key) {
        Some(x) => as_f64_flex(x),
        None => None,
    }
}

pub(crate) fn text_field(v: &Json, key: &str) -> (r: Option<String>)
    ensures
        opt_text(r) == field_text(*v, key@),
{
    match get_str(v, key) {
        Some(s) => Some(owned(s)),
        None => None,
    }
}

pub(crate) fn nested_text_field(v: &Json, outer: &str, inner: &str) -> (r: Option<String>)
    ensures
        opt_text(r) == nested_text(*v, outer@, inner@),
{
    match v.get(outer) {
        Some(o) => text_field(o, inner),
        None => None,
    }
}

pub(crate) fn is_true(v: &Json, key: &str) -> (r: bool)
    ensures
        r == field_is_true(*v, key@),
{
    match v.get(key) {
        Some(x) => match x.as_bool() {
            Some(b) => b,
            None => false,
        },
        None => false,
    }
}

/// `a + " " + b`.
pub(crate) fn joined(a: &str, b: &str) -> (r: String)
    ensures
        r@ == a@ + " "@ + b@,
{
    let mut s = owned(a);
    s.append(" ");
    s.append(b);
    s
}

/// The reading of a provider's reply: the masked IP and the fields found.
pub open spec fn point(
    raw_ip: Seq<char>,
    country_code: Option<Seq<char>>,
    latitude: Option<CoordinateView>,
    longitude: Option<CoordinateView>,
    org: Option<Seq<char>>,
) -> GeoPointView {
    GeoPointView { ip: masked_ip(raw_ip), country_code, latitude, longitude, org }
}

/// A provider endpoint: `base` for the caller's own address, `base + ip + tail`
/// for a given one.
pub open spec fn endpoint(ip: Option<Seq<char>>, own: Seq<char>, base: Seq<char>, tail: Seq<char>) -> Seq<char> {
    match ip {
        Some(ip) => base + ip + tail,
        None => own,
    }
}

pub open spec fn opt_str(ip: Option<&str>) -> Option<Seq<char>> {
    match ip {
        Some(s) => Some(s@),
        None => None,
    }
}

/// Builds `endpoint(ip, own, base, tail)`.
pub(crate) fn endpoint_url(ip: Option<&str>, own: &str, base: &str, tail: &str) -> (r: String)
    ensures
        r@ == endpoint(opt_str(ip), own@, base@, tail@),
{
    match ip {
        Some(ip) => {
            let mut s = owned(base);
            s.append(ip);
            s.append(tail);
            s
        },
        None => owned(own),
    }
}

// ----- the provider chain ----------------------------------------------------

/// The geolocation services, in the order they are tried.
#[derive(Clone, Copy, PartialEq, Eq, Debug, Structural)]
pub enum GeoProvider {
    IpWhois,
    IpapiCo,
    IpInfo,
    IpapiIs,
    Ifconfig,
    GeoJs,
    FreeIpApi,
    IpWhoisApp,
    ExtremeIpLookup,
}

/// Position of a provider in the chain (0 is tried first).
pub open spec fn provider_index(p: GeoProvider) -> nat {
    match p {
        GeoProvider::IpWhois => 0,
        GeoProvider::IpapiCo => 1,
        GeoProvider::IpInfo => 2,
        GeoProvider::IpapiIs => 3,
        GeoProvider::Ifconfig => 4,
        GeoProvider::GeoJs => 5,
        GeoProvider::FreeIpApi => 6,
        GeoProvider::IpWhoisApp => 7,
        GeoProvider::ExtremeIpLookup => 8,
    }
}

/// The provider tried after `p`, if any.
pub open spec fn provider_after(p: GeoProvider) -> Option<GeoProvider> {
    match p {
        GeoProvider::IpWhois => Some(GeoProvider::IpapiCo),
        GeoProvider::IpapiCo => Some(GeoProvider::IpInfo),
        GeoProvider::IpInfo => Some(GeoProvider::IpapiIs),
        GeoProvider::IpapiIs => Some(GeoProvider::Ifconfig),
        GeoProvider::Ifconfig => Some(GeoProvider::GeoJs),
        GeoProvider::GeoJs => Some(GeoProvider::FreeIpApi),
        GeoProvider::FreeIpApi => Some(GeoProvider::IpWhoisApp),
        GeoProvider::IpWhoisApp => Some(GeoProvider::ExtremeIpLookup),
        GeoProvider::ExtremeIpLookup => None,
    }
}

/// The request URL of provider `p` for `ip` (`None`: the caller's own address).
pub open spec fn provider_url(p: GeoProvider, ip: Option<Seq<char>>) -> Seq<char> {
    match p {
        GeoProvider::IpWhois => ipwhois::url_for(ip),
        GeoProvider::IpapiCo => ipapi_co::url_for(ip),
        GeoProvider::IpInfo => ipinfo::url_for(ip),
        GeoProvider::IpapiIs => ipapi_is::url_for(ip),
        GeoProvider::Ifconfig => ifconfig::url_for(ip),
        GeoProvider::GeoJs => geojs::url_for(ip),
        GeoProvider::FreeIpApi => freeipapi::url_for(ip),
        GeoProvider::IpWhoisApp => ipwhois_app::url_for(ip),
        GeoProvider::ExtremeIpLookup => extreme_ip_lookup::url_for(ip),
    }
}

/// What provider `p` reads from reply `v`.
pub open spec fn provider_reading(p: GeoProvider, v: Json) -> Option<GeoPointView> {
    match p {
        GeoProvider::IpWhois => ipwhois::reading(v),
        GeoProvider::IpapiCo => ipapi_co::reading(v),
        GeoProvider::IpInfo => ipinfo::reading(v),
        GeoProvider::IpapiIs => ipapi_is::reading(v),
        GeoProvider::Ifconfig => ifconfig::reading(v),
        GeoProvider::GeoJs => geojs::reading(v),
        GeoProvider::FreeIpApi => freeipapi::reading(v),
        GeoProvider::IpWhoisApp => ipwhois_app::reading(v),
        GeoProvider::ExtremeIpLookup => extreme_ip_lookup::reading(v),
    }
}

impl GeoProvider {
    /// The provider tried first.
    pub fn first() -> (r: GeoProvider)
        ensures
            provider_index(r) == 0,
    {
        GeoProvider::IpWhois
    }

    /// The provider tried after this one; `None` after the last.
    pub fn next(&self) -> (r: Option<GeoProvider>)
        ensures
            r == provider_after(*self),
    {
        match self {
            GeoProvider::IpWhois => Some(GeoProvider::IpapiCo),
            GeoProvider::IpapiCo => Some(GeoProvider::IpInfo),
            GeoProvider::IpInfo => Some(GeoProvider::IpapiIs),
            GeoProvider::IpapiIs => Some(GeoProvider::Ifconfig),
            GeoProvider::Ifconfig => Some(GeoProvider::GeoJs),
            GeoProvider::GeoJs => Some(GeoProvider::FreeIpApi),
            GeoProvider::FreeIpApi => Some(GeoProvider::IpWhoisApp),
            GeoProvider::IpWhoisApp => Some(GeoProvider::ExtremeIpLookup),
            GeoProvider::ExtremeIpLookup => None,
        }
    }

    /// The request URL for `ip`, or for the caller's own address.
    pub fn url(&self, ip: Option<&str>) -> (r: String)
        ensures
            r@ == provider_url(*self, opt_str(ip)),
    {
        match self {
            GeoProvider::IpWhois => ipwhois::url(ip),
            GeoProvider::IpapiCo => ipapi_co::url(ip),
            GeoProvider::IpInfo => ipinfo::url(ip),
            GeoProvider::IpapiIs => ipapi_is::url(ip),
            GeoProvider::Ifconfig => ifconfig::url(ip),
            GeoProvider::GeoJs => geojs::url(ip),
            GeoProvider::FreeIpApi => freeipapi::url(ip),
            GeoProvider::IpWhoisApp => ipwhois_app::url(ip),
            GeoProvider::ExtremeIpLookup => extreme_ip_lookup::url(ip),
        }
    }

    /// Reads this provider's reply.
    pub fn parse(&self, v: &Json) -> (r: Option<GeoPoint>)
        ensures
            opt_point(r) == provider_reading(*self, *v),
    {
        match self {
            GeoProvider::IpWhois => ipwhois::parse(v),
            GeoProvider::IpapiCo => ipapi_co::parse(v),
            GeoProvider::IpInfo => ipinfo::parse(v),
            GeoProvider::IpapiIs => ipapi_is::parse(v),
            GeoProvider::Ifconfig => ifconfig::parse(v),
            GeoProvider::GeoJs => geojs::parse(v),
            GeoProvider::FreeIpApi => freeipapi::parse(v),
            GeoProvider::IpWhoisApp => ipwhois_app::parse(v),
            GeoProvider::ExtremeIpLookup => extreme_ip_lookup::parse(v),
        }
    }
}

/// What the chain does after asking one provider.
pub enum LookupStep {
    /// The provider answered with a location: the lookup is over.
    Found(GeoPoint),
    /// Ask this provider next.
    Next(GeoProvider),
    /// Every provider has been asked without success.
    Exhausted,
}

/// What provider `p` made of its reply (`None` when there was no usable reply).
pub open spec fn reply_reading(p: GeoProvider, reply: Option<Json>) -> Option<GeoPointView> {
    match reply {
        Some(v) => provider_reading(p, v),
        None => None,
    }
}

pub open spec fn opt_json(reply: Option<&Json>) -> Option<Json> {
    match reply {
        Some(v) => Some(*v),
        None => None,
    }
}

/// One step of the lookup (`lookup_geo`): `reply` is the JSON that provider `p`
/// answered (`None` when the request failed, the status was not a success or
/// the body was not JSON). A location ends the lookup; otherwise the next
/// provider is asked, and after the last one the lookup gives up.
pub fn lookup_step(p: GeoProvider, reply: Option<&Json>) -> (r: LookupStep)
    ensures
        match reply_reading(p, opt_json(reply)) {
            Some(pt) => r matches LookupStep::Found(g) && g@ == pt,
            None => match provider_after(p) {
                Some(q) => r matches LookupStep::Next(n) && n == q,
                None => r is Exhausted,
            },
        },
{
    let found = match reply {
        Some(v) => p.parse(v),
        None => None,
    };
    match found {
        Some(g) => LookupStep::Found(g),
        None => match p.next() {
            Some(q) => LookupStep::Next(q),
            None => LookupStep::Exhausted,
        },
    }
}

/// The chain asks the nine providers one after another, each exactly once: the
/// first is at position 0, each next one is one position further, and only the
/// one at the last position has no successor.
pub proof fn provider_chain_visits_each_once(p: GeoProvider)
    ensures
        provider_index(p) < 9,
        provider_index(GeoProvider::IpWhois) == 0,
        match provider_after(p) {
            Some(q) => provider_index(q) == provider_index(p) + 1,
            None => provider_index(p) == 8,
        },
        forall|q: GeoProvider| provider_index(q) == provider_index(p) ==> q == p,
{
}

/// The provider at position `i` of the chain.
pub open spec fn provider_at(i: int) -> GeoProvider {
    if i <= 0 {
        GeoProvider::IpWhois
    } else if i == 1 {
        GeoProvider::IpapiCo
    } else if i == 2 {
        GeoProvider::IpInfo
    } else if i == 3 {
        GeoProvider::IpapiIs
    } else if i == 4 {
        GeoProvider::Ifconfig
    } else if i == 5 {
        GeoProvider::GeoJs
    } else if i == 6 {
        GeoProvider::FreeIpApi
    } else if i == 7 {
        GeoProvider::IpWhoisApp
    } else {
        GeoProvider::ExtremeIpLookup
    }
}

/// What the reply of the provider at position `i` says (`replies[i]` is what
/// that provider answered).
pub open spec fn reading_at(replies: Seq<Option<Json>>, i: int) -> Option<GeoPointView> {
    reply_reading(provider_at(i), replies[i])
}

/// The outcome of repeating [`lookup_step`] from provider `p`, the provider at
/// position `i` answering `replies[i]`.
pub open spec fn chain_outcome(p: GeoProvider, replies: Seq<Option<Json>>) -> Option<GeoPointView>
    decreases 9 - provider_index(p),
{
    match reply_reading(p, replies[provider_index(p) as int]) {
        Some(pt) => Some(pt),
        None => match provider_after(p) {
            Some(q) => chain_outcome(q, replies),
            None => None,
        },
    }
}

proof fn lemma_chain_from(p: GeoProvider, replies: Seq<Option<Json>>)
    requires
        replies.len() == 9,
    ensures
        chain_outcome(p, replies) is None ==> forall|j: int|
            provider_index(p) <= j < 9 ==> (#[trigger] reading_at(replies, j)) is None,
        chain_outcome(p, replies) matches Some(pt) ==> exists|i: int|
            provider_index(p) <= i < 9 && reading_at(replies, i) == Some(pt) && forall|j: int|
                provider_index(p) <= j < i ==> (#[trigger] reading_at(replies, j)) is None,
    decreases 9 - provider_index(p),
{
    assert(provider_at(provider_index(p) as int) == p);
    match provider_after(p) {
        Some(q) => {
            assert(provider_at(provider_index(q) as int) == q);
            lemma_chain_from(q, replies);
            match reply_reading(p, replies[provider_index(p) as int]) {
                Some(pt) => {
                    assert(reading_at(replies, provider_index(p) as int) == Some(pt));
                },
                None => {
                    assert(reading_at(replies, provider_index(p) as int) is None);
                    if chain_outcome(p, replies) is None {
                        assert forall|j: int| provider_index(p) <= j < 9 implies (#[trigger] reading_at(
                            replies,
                            j,
                        )) is None by {
                            if j > provider_index(p) {
                                assert(provider_index(q) <= j);
                            }
                        }
                    }
                    if chain_outcome(p, replies) is Some {
                        let pt = chain_outcome(p, replies).unwrap();
                        let i = choose|i: int|
                            provider_index(q) <= i < 9 && reading_at(replies, i) == Some(pt) && forall|j: int|
                                provider_index(q) <= j < i ==> (#[trigger] reading_at(replies, j)) is None;
                        assert forall|j: int| provider_index(p) <= j < i implies (#[trigger] reading_at(
                            replies,
                            j,
                        )) is None by {
                            if j > provider_index(p) {
                                assert(provider_index(q) <= j);
                            }
                        }
                    }
                },
            }
        },
        None => {
            assert(provider_index(p) == 8);
            if reply_reading(p, replies[8]) is Some {
                assert(reading_at(replies, 8) == reply_reading(p, replies[8]));
            }
        },
    }
}

/// The lookup answers with the reading of the first provider whose reply it
/// could read, and with nothing only when no provider's reply could be read.
pub proof fn lookup_returns_first_success(replies: Seq<Option<Json>>)
    requires
        replies.len() == 9,
    ensures
        chain_outcome(GeoProvider::IpWhois, replies) is None <==> forall|j: int|
            0 <= j < 9 ==> (#[trigger] reading_at(replies, j)) is None,
        chain_outcome(GeoProvider::IpWhois, replies) matches Some(pt) ==> exists|i: int|
            0 <= i < 9 && reading_at(replies, i) == Some(pt) && forall|j: int|
                0 <= j < i ==> (#[trigger] reading_at(replies, j)) is None,
{
    lemma_chain_from(GeoProvider::IpWhois, replies);
    if chain_outcome(GeoProvider::IpWhois, replies) is Some {
        let pt = chain_outcome(GeoProvider::IpWhois, replies).unwrap();
        let i = choose|i: int|
            0 <= i < 9 && reading_at(replies, i) == Some(pt) && forall|j: int|
                0 <= j < i ==> (#[trigger] reading_at(replies, j)) is None;
        assert(reading_at(replies, i) is Some);
    }
}

// ----- DNS-over-HTTPS --------------------------------------------------------

/// The DNS-over-HTTPS query for the A record of `host`.
pub open spec fn dns_query_url(host: Seq<char>) -> Seq<char> {
    "https://dns.google/resolve?name="@ + host + "&type=A"@
}

/// The `data` text of the first element of `Answer`.
pub open spec fn dns_answer_of(v: Json) -> Option<Seq<char>> {
    match v.field("Answer"@) {
        Some(a) => match a.items() {
            Some(xs) => if xs.len() > 0 { field_text(xs[0], "data"@) } else { None },
            None => None,
        },
        None => None,
    }
}

/// The URL that `resolve_host` queries.
pub fn dns_url(host: &str) -> (r: String)
    ensures
        r@ == dns_query_url(host@),
{
    let mut s = owned("https://dns.google/resolve?name=");
    s.append(host);
    s.append("&type=A");
    s
}

/// The address in a DNS-over-HTTPS reply (`resolve_host` after the request).
pub fn dns_answer(v: &Json) -> (r: Option<String>)
    ensures
        opt_text(r) == dns_answer_of(*v),
{
    match v.get("Answer") {
        Some(a) => match a.as_array() {
            Some(xs) => if xs.len() > 0 { text_field(&xs[0], "data") } else { None },
            None => None,
        },
        None => None,
    }
}

// ----- laws -------------------------------------------------------------------

/// Whatever provider answered, the IP of a location is the masked form of some
/// address: no reading ever carries an unmasked IP.
pub proof fn every_provider_masks_the_ip(p: GeoProvider, v: Json)
    ensures
        provider_reading(p, v) matches Some(pt) ==> exists|raw: Seq<char>| pt.ip == masked_ip(raw),
{
    match provider_reading(p, v) {
        Some(pt) => {
            let raw = match p {
                GeoProvider::FreeIpApi => field_text(v, "ipAddress"@).unwrap(),
                GeoProvider::ExtremeIpLookup => field_text(v, "query"@).unwrap(),
                _ => field_text(v, "ip"@).unwrap(),
            };
            assert(pt.ip == masked_ip(raw));
        },
        None => {},
    }
}

proof fn lemma_last_index_append(a: Seq<char>, b: Seq<char>, c: char)
    requires
        !b.contains(c),
    ensures
        last_index_of(a + b, c) == last_index_of(a, c),
    decreases b.len(),
{
    if b.len() == 0 {
        assert(a + b =~= a);
    } else {
        assert(b.last() != c) by {
            assert(b[b.len() - 1] == b.last());
        }
        assert((a + b).drop_last() =~= a + b.drop_last());
        assert(!b.drop_last().contains(c)) by {
            if b.drop_last().contains(c) {
                let k = choose|k: int| 0 <= k < b.drop_last().len() && b.drop_last()[k] == c;
                assert(b[k] == c);
            }
        }
        lemma_last_index_append(a, b.drop_last(), c);
    }
}

proof fn lemma_last_index_in_range(s: Seq<char>, c: char)
    ensures
        -1 <= last_index_of(s, c) < s.len(),
        last_index_of(s, c) >= 0 ==> s[last_index_of(s, c)] == c,
        last_index_of(s, c) == -1 ==> !s.contains(c),
    decreases s.len(),
{
    if s.len() > 0 {
        lemma_last_index_in_range(s.drop_last(), c);
        if s.last() != c && s.contains(c) {
            let k = choose|k: int| 0 <= k < s.len() && s[k] == c;
            assert(k != s.len() - 1);
            assert(s.drop_last()[k] == c);
        }
    }
}

proof fn lemma_prefix_last_index(s: Seq<char>, c: char)
    requires
        last_index_of(s, c) >= 0,
    ensures
        last_index_of(s.subrange(0, last_index_of(s, c) + 1), c) == last_index_of(s, c),
{
    lemma_last_index_in_range(s, c);
    let i = last_index_of(s, c);
    let t = s.subrange(0, i + 1);
    assert(t.last() == c);
}

/// Masking keeps an address up to and including its last separator and
/// replaces the rest with `xxx`: the last octet of an IPv4 address (last `.`,
/// no `:` anywhere), the last group of an IPv6 address (last `:`); text with
/// neither separator is shown as it is.
pub proof fn masking_hides_only_the_last_group(head: Seq<char>, tail: Seq<char>)
    ensures
        !tail.contains(':') ==> masked_ip(head + seq![':'] + tail) == head + seq![':'] + "xxx"@,
        !tail.contains('.') && !head.contains(':') && !tail.contains(':') ==> masked_ip(head + seq!['.'] + tail)
            == head + seq!['.'] + "xxx"@,
        !head.contains(':') && !head.contains('.') ==> masked_ip(head) == head,
{
    let v6 = head + seq![':'];
    let v4 = head + seq!['.'];
    assert(last_index_of(v6, ':') == head.len());
    assert(last_index_of(v4, '.') == head.len());
    if !tail.contains(':') {
        lemma_last_index_append(v6, tail, ':');
        assert((v6 + tail).subrange(0, head.len() as int + 1) =~= v6);
    }
    if !tail.contains('.') && !head.contains(':') && !tail.contains(':') {
        lemma_last_index_append(v4, tail, '.');
        assert(!v4.contains(':')) by {
            if v4.contains(':') {
                let k = choose|k: int| 0 <= k < v4.len() && v4[k] == ':';
                assert(k < head.len());
                assert(head[k] == ':');
            }
        }
        assert(!(v4 + tail).contains(':')) by {
            if (v4 + tail).contains(':') {
                let k = choose|k: int| 0 <= k < (v4 + tail).len() && (v4 + tail)[k] == ':';
                if k < v4.len() {
                    assert(v4[k] == ':');
                } else {
                    assert(tail[k - v4.len()] == ':');
                }
            }
        }
        lemma_last_index_in_range(v4 + tail, ':');
        assert((v4 + tail).subrange(0, head.len() as int + 1) =~= v4);
    }
    lemma_last_index_in_range(head, ':');
    lemma_last_index_in_range(head, '.');
}

/// Masking an already masked IP changes nothing.
pub proof fn mask_ip_is_idempotent(ip: Seq<char>)
    ensures
        masked_ip(masked_ip(ip)) == masked_ip(ip),
{
    reveal_strlit("xxx");
    let x = "xxx"@;
    assert(!x.contains(':')) by {
        if x.contains(':') {
            let k = choose|k: int| 0 <= k < x.len() && x[k] == ':';
            assert(x[k] == 'x');
        }
    }
    assert(!x.contains('.')) by {
        if x.contains('.') {
            let k = choose|k: int| 0 <= k < x.len() && x[k] == '.';
            assert(x[k] == 'x');
        }
    }
    lemma_last_index_in_range(ip, ':');
    lemma_last_index_in_range(ip, '.');
    let colon = last_index_of(ip, ':');
    let dot = last_index_of(ip, '.');
    if colon >= 0 {
        let pre = ip.subrange(0, colon + 1);
        lemma_prefix_last_index(ip, ':');
        lemma_last_index_append(pre, x, ':');
    } else if dot >= 0 {
        let pre = ip.subrange(0, dot + 1);
        lemma_prefix_last_index(ip, '.');
        lemma_last_index_append(pre, x, '.');
        assert(!pre.contains(':')) by {
            if pre.contains(':') {
                let k = choose|k: int| 0 <= k < pre.len() && pre[k] == ':';
                assert(ip[k] == ':');
            }
        }
        lemma_last_index_in_range(pre + x, ':');
        lemma_last_index_append(pre, x, ':');
        lemma_last_index_in_range(pre, ':');
    }
}

} // verus!
