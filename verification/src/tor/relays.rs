//! The relay directory (Onionoo), fetched through the local Tor SOCKS5 proxy.
//!
//! The request goes through Tor with `socks5h` (names resolved by Tor, so no
//! local DNS leak). Each raw record is completed with defaults and records
//! without a fingerprint are dropped. The consensus weight fraction is carried
//! as the bit pattern of its `f64` value.

use vstd::prelude::*;
use vstd::string::*;
use crate::text::{decimal, find_first, nat_text, owned};

verus! {

/// A relay record as the directory sent it; every field may be missing.
pub struct RawRelay {
    pub fingerprint: Option<String>,
    pub nickname: Option<String>,
    pub or_addresses: Option<Vec<String>>,
    pub country: Option<String>,
    pub country_name: Option<String>,
    pub as_number: Option<String>,
    pub as_name: Option<String>,
    pub flags: Option<Vec<String>>,
    pub running: Option<bool>,
    pub contact: Option<String>,
    /// Bit pattern of the `f64` fraction.
    pub consensus_weight_fraction: Option<u64>,
}

/// A relay as presented to the frontend.
pub struct TorRelayInfo {
    pub fingerprint: String,
    pub nickname: String,
    pub address: String,
    pub country: String,
    pub country_name: String,
    pub as_number: String,
    pub as_name: String,
    pub flags: Vec<String>,
    pub running: bool,
    pub contact: String,
    /// Bit pattern of the `f64` fraction (0 is `0.0`).
    pub consensus_weight_fraction: u64,
}

pub struct RelayView {
    pub fingerprint: Seq<char>,
    pub nickname: Seq<char>,
    pub address: Seq<char>,
    pub country: Seq<char>,
    pub country_name: Seq<char>,
    pub as_number: Seq<char>,
    pub as_name: Seq<char>,
    pub flags: Seq<Seq<char>>,
    pub running: bool,
    pub contact: Seq<char>,
    pub consensus_weight_fraction: u64,
}

pub open spec fn texts(v: Vec<String>) -> Seq<Seq<char>> {
    v@.map_values(|s: String| s@)
}

impl View for TorRelayInfo {
    type V = RelayView;

    open spec fn view(&self) -> RelayView {
        RelayView {
            fingerprint: self.fingerprint@,
            nickname: self.nickname@,
            address: self.address@,
            country: self.country@,
            country_name: self.country_name@,
            as_number: self.as_number@,
            as_name: self.as_name@,
            flags: texts(self.flags),
            running: self.running,
            contact: self.contact@,
            consensus_weight_fraction: self.consensus_weight_fraction,
        }
    }
}

/// Index of the first address containing a `.`, or -1.
pub open spec fn first_dotted(addrs: Seq<Seq<char>>) -> int
    decreases addrs.len(),
{
    if addrs.len() == 0 {
        -1
    } else if addrs[0].contains('.') {
        0
    } else {
        let r = first_dotted(addrs.drop_first());
        if r < 0 { -1 } else { r + 1 }
    }
}

/// The address to show: the first one containing a `.` (IPv4), else the first
/// one, else empty.
pub open spec fn chosen_address(addrs: Seq<Seq<char>>) -> Seq<char> {
    let i = first_dotted(addrs);
    if i >= 0 {
        addrs[i]
    } else if addrs.len() > 0 {
        addrs[0]
    } else {
        Seq::empty()
    }
}

proof fn lemma_first_dotted(addrs: Seq<Seq<char>>, i: int)
    requires
        0 <= i <= addrs.len(),
        forall|j: int| 0 <= j < i ==> !(#[trigger] addrs[j]).contains('.'),
    ensures
        i < addrs.len() && addrs[i].contains('.') ==> first_dotted(addrs) == i,
        i == addrs.len() ==> first_dotted(addrs) == -1,
    decreases i,
{
    if i > 0 {
        lemma_first_dotted(addrs.drop_first(), i - 1);
    }
    if i == addrs.len() && addrs.len() > 0 {
        lemma_all_undotted(addrs);
    }
}

proof fn lemma_all_undotted(addrs: Seq<Seq<char>>)
    requires
        forall|j: int| 0 <= j < addrs.len() ==> !(#[trigger] addrs[j]).contains('.'),
    ensures
        first_dotted(addrs) == -1,
    decreases addrs.len(),
{
    if addrs.len() > 0 {
        lemma_all_undotted(addrs.drop_first());
    }
}

fn has_dot(s: &str) -> (r: bool)
    ensures
        r == s@.contains('.'),
{
    let i = find_first(s, '.');
    proof {
        crate::text::lemma_first_index_bounds(s@, '.');
    }
    i.is_some()
}

/// The address to show for a relay (`first_address`).
pub fn first_address(addrs: &[String]) -> (r: String)
    ensures
        r@ == chosen_address(addrs@.map_values(|s: String| s@)),
{
    let ghost views = addrs@.map_values(|s: String| s@);
    let n = addrs.len();
    let mut i: usize = 0;
    while i < n
        invariant
            n == addrs@.len(),
            views == addrs@.map_values(|s: String| s@),
            i <= n,
            forall|j: int| 0 <= j < i ==> !(#[trigger] views[j]).contains('.'),
        decreases n - i,
    {
        if has_dot(addrs[i].as_str()) {
            proof {
                lemma_first_dotted(views, i as int);
            }
            return owned(addrs[i].as_str());
        }
        i = i + 1;
    }
    proof {
        lemma_first_dotted(views, n as int);
    }
    if n > 0 {
        owned(addrs[0].as_str())
    } else {
        String::new()
    }
}

pub open spec fn text_or(o: Option<String>, default: Seq<char>) -> Seq<char> {
    match o {
        Some(s) => s@,
        None => default,
    }
}

/// The presented relay for a raw record: missing fields become empty (the
/// nickname `Unnamed`, `running` false, the weight 0).
pub open spec fn relay_of(r: RawRelay) -> RelayView {
    RelayView {
        fingerprint: text_or(r.fingerprint, Seq::empty()),
        nickname: text_or(r.nickname, "Unnamed"@),
        address: chosen_address(
            match r.or_addresses {
                Some(v) => texts(v),
                None => Seq::empty(),
            },
        ),
        country: text_or(r.country, Seq::empty()),
        country_name: text_or(r.country_name, Seq::empty()),
        as_number: text_or(r.as_number, Seq::empty()),
        as_name: text_or(r.as_name, Seq::empty()),
        flags: match r.flags {
            Some(v) => texts(v),
            None => Seq::empty(),
        },
        running: match r.running {
            Some(b) => b,
            None => false,
        },
        contact: text_or(r.contact, Seq::empty()),
        consensus_weight_fraction: match r.consensus_weight_fraction {
            Some(w) => w,
            None => 0,
        },
    }
}

fn or_empty(o: Option<String>) -> (r: String)
    ensures
        r@ == text_or(o, Seq::empty()),
{
    match o {
        Some(s) => s,
        None => String::new(),
    }
}

/// Completes a raw record with defaults.
pub fn relay_info(r: RawRelay) -> (out: TorRelayInfo)
    ensures
        out@ == relay_of(r),
{
    let address = match &r.or_addresses {
        Some(v) => first_address(v.as_slice()),
        None => String::new(),
    };
    let flags = match r.flags {
        Some(v) => v,
        None => Vec::new(),
    };
    let out = TorRelayInfo {
        fingerprint: or_empty(r.fingerprint),
        nickname: match r.nickname {
            Some(s) => s,
            None => owned("Unnamed"),
        },
        address,
        country: or_empty(r.country),
        country_name: or_empty(r.country_name),
        as_number: or_empty(r.as_number),
        as_name: or_empty(r.as_name),
        flags,
        running: match r.running {
            Some(b) => b,
            None => false,
        },
        contact: or_empty(r.contact),
        consensus_weight_fraction: match r.consensus_weight_fraction {
            Some(w) => w,
            None => 0,
        },
    };
    proof {
        assert(texts(flags) =~= (match r.flags {
            Some(v) => texts(v),
            None => Seq::<Seq<char>>::empty(),
        }));
    }
    out
}

/// The presented relays of the first `k` raw records, in order, without those
/// whose fingerprint is empty.
pub open spec fn presented(raws: Seq<RawRelay>, k: int) -> Seq<RelayView>
    decreases k,
{
    if k <= 0 {
        Seq::empty()
    } else {
        let prev = presented(raws, k - 1);
        let r = relay_of(raws[k - 1]);
        if r.fingerprint.len() == 0 {
            prev
        } else {
            prev.push(r)
        }
    }
}

/// The relay list for the frontend (`fetch_relays` after the download).
pub fn relays_from(raws: Vec<RawRelay>) -> (out: Vec<TorRelayInfo>)
    ensures
        out@.map_values(|r: TorRelayInfo| r@) == presented(raws@, raws@.len() as int),
{
    let ghost all = raws@;
    let mut out: Vec<TorRelayInfo> = Vec::new();
    let mut rest = raws;
    let ghost n = all.len();
    while rest.len() > 0
        invariant
            n == all.len(),
            rest@.len() <= n,
            rest@ == all.subrange(n - rest@.len(), n as int),
            out@.map_values(|r: TorRelayInfo| r@) == presented(all, n - rest@.len()),
        decreases rest@.len(),
    {
        let ghost k = n - rest@.len();
        let raw = rest.remove(0);
        assert(raw == all[k]);
        let info = relay_info(raw);
        let ghost before = out@;
        if info.fingerprint.as_str().unicode_len() > 0 {
            out.push(info);
            assert(out@.map_values(|r: TorRelayInfo| r@) =~= before.map_values(|r: TorRelayInfo| r@).push(info@));
        }
        assert(rest@ =~= all.subrange(n - rest@.len(), n as int));
    }
    out
}

/// The proxy that the directory request goes through.
pub open spec fn proxy_url_of(port: u16) -> Seq<char> {
    "socks5h://127.0.0.1:"@ + nat_text(port as nat)
}

/// The Onionoo query for the `limit` most weighted running relays.
pub open spec fn directory_url_of(limit: usize) -> Seq<char> {
    DIRECTORY_QUERY@ + nat_text(limit as nat)
}

/// The Onionoo details query, up to its `limit=` parameter.
pub const DIRECTORY_QUERY: &'static str = "https://onionoo.torproject.org/details?fields=fingerprint,nickname,or_addresses,country,country_name,as,as_name,flags,running,contact,consensus_weight_fraction&running=true&order=-consensus_weight&limit=";

pub fn proxy_url(port: u16) -> (r: String)
    ensures
        r@ == proxy_url_of(port),
{
    let mut s = owned("socks5h://127.0.0.1:");
    s.append(decimal(port as u64).as_str());
    s
}

pub fn directory_url(limit: usize) -> (r: String)
    ensures
        r@ == directory_url_of(limit),
{
    let mut s = owned(DIRECTORY_QUERY);
    s.append(decimal(limit as u64).as_str());
    s
}

/// Every relay handed to the frontend has a non-empty fingerprint, and no more
/// relays come out than went in.
pub proof fn presented_relays_have_fingerprints(raws: Seq<RawRelay>, k: int)
    requires
        0 <= k <= raws.len(),
    ensures
        presented(raws, k).len() <= k,
        forall|i: int| 0 <= i < presented(raws, k).len() ==> (#[trigger] presented(raws, k)[i]).fingerprint.len() > 0,
    decreases k,
{
    if k > 0 {
        presented_relays_have_fingerprints(raws, k - 1);
    }
}

/// Each presented relay keeps every field of the raw record in its own place:
/// a field that is present is copied unchanged, a missing one becomes empty
/// (the nickname `Unnamed`, `running` false, the weight 0).
pub proof fn relay_fields_stay_in_place(r: RawRelay)
    ensures
        r.fingerprint matches Some(f) ==> relay_of(r).fingerprint == f@,
        r.fingerprint is None ==> relay_of(r).fingerprint.len() == 0,
        r.nickname matches Some(n) ==> relay_of(r).nickname == n@,
        r.nickname is None ==> relay_of(r).nickname == "Unnamed"@,
        r.country matches Some(c) ==> relay_of(r).country == c@,
        r.country is None ==> relay_of(r).country.len() == 0,
        r.country_name matches Some(c) ==> relay_of(r).country_name == c@,
        r.country_name is None ==> relay_of(r).country_name.len() == 0,
        r.as_number matches Some(a) ==> relay_of(r).as_number == a@,
        r.as_number is None ==> relay_of(r).as_number.len() == 0,
        r.as_name matches Some(a) ==> relay_of(r).as_name == a@,
        r.as_name is None ==> relay_of(r).as_name.len() == 0,
        r.contact matches Some(c) ==> relay_of(r).contact == c@,
        r.contact is None ==> relay_of(r).contact.len() == 0,
        r.flags matches Some(fl) ==> relay_of(r).flags == fl@.map_values(|x: String| x@),
        r.flags is None ==> relay_of(r).flags.len() == 0,
        r.running matches Some(b) ==> relay_of(r).running == b,
        r.running is None ==> !relay_of(r).running,
        r.consensus_weight_fraction matches Some(w) ==> relay_of(r).consensus_weight_fraction == w,
        r.consensus_weight_fraction is None ==> relay_of(r).consensus_weight_fraction == 0,
        r.or_addresses matches Some(v) ==> relay_of(r).address == chosen_address(v@.map_values(|x: String| x@)),
        r.or_addresses is None ==> relay_of(r).address.len() == 0,
{
}

/// The address shown is the first one (in the record's order) that contains a
/// `.`, an IPv4 address; when none does, the first address; with none, empty.
/// Here the first `k` addresses have no `.`.
pub proof fn address_is_first_ipv4(addrs: Seq<Seq<char>>, k: int)
    requires
        0 <= k <= addrs.len(),
        forall|j: int| 0 <= j < k ==> !(#[trigger] addrs[j]).contains('.'),
    ensures
        k < addrs.len() && addrs[k].contains('.') ==> chosen_address(addrs) == addrs[k],
        k == addrs.len() && addrs.len() > 0 ==> chosen_address(addrs) == addrs[0],
        addrs.len() == 0 ==> chosen_address(addrs).len() == 0,
{
    lemma_first_dotted(addrs, k);
}

/// The relays handed to the frontend are the completed records, in the
/// directory's order, keeping exactly those with a non-empty fingerprint.
pub proof fn presented_relays_are_the_fingerprinted_records(raws: Seq<RawRelay>, k: int)
    requires
        0 <= k <= raws.len(),
    ensures
        presented(raws, k) == raws.take(k).map_values(|r: RawRelay| relay_of(r)).filter(
            |v: RelayView| v.fingerprint.len() > 0,
        ),
    decreases k,
{
    let all = raws.take(k).map_values(|r: RawRelay| relay_of(r));
    let keep = |v: RelayView| v.fingerprint.len() > 0;
    reveal(Seq::filter);
    if k == 0 {
        assert(all =~= Seq::<RelayView>::empty());
        assert(all.filter(keep) =~= Seq::<RelayView>::empty());
    } else {
        presented_relays_are_the_fingerprinted_records(raws, k - 1);
        let before = raws.take(k - 1).map_values(|r: RawRelay| relay_of(r));
        assert(all.len() == k);
        assert(all.drop_last() =~= before);
        assert(all.last() == relay_of(raws[k - 1]));
        assert(all.filter(keep) == (if keep(all.last()) {
            all.drop_last().filter(keep).push(all.last())
        } else {
            all.drop_last().filter(keep)
        }));
    }
}

} // verus!
