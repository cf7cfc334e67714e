//! The lifecycle stage shared between the proxy engine and the status layer,
//! and the circuit display assembled from a live Tor stream.
//!
//! The engine itself (the embedded Tor client and the always-on local SOCKS5
//! listener) runs in the application; it reports what it observes here.

use vstd::prelude::*;
use vstd::string::*;
use crate::tor::TorPhase;
use crate::text::owned;

verus! {

/// A single hop of the live circuit, with the fields the circuit display shows.
pub struct CircuitHopInfo {
    pub role: &'static str,
    pub ip: Option<String>,
    pub nickname: String,
    pub country: Option<String>,
    pub ed25519: Option<String>,
    pub rsa: Option<String>,
}

pub struct HopView {
    pub role: Seq<char>,
    pub ip: Option<Seq<char>>,
    pub nickname: Seq<char>,
    pub country: Option<Seq<char>>,
    pub ed25519: Option<Seq<char>>,
    pub rsa: Option<Seq<char>>,
}

pub open spec fn opt_chars(o: Option<String>) -> Option<Seq<char>> {
    match o {
        Some(s) => Some(s@),
        None => None,
    }
}

impl View for CircuitHopInfo {
    type V = HopView;

    open spec fn view(&self) -> HopView {
        HopView {
            role: self.role@,
            ip: opt_chars(self.ip),
            nickname: self.nickname@,
            country: opt_chars(self.country),
            ed25519: opt_chars(self.ed25519),
            rsa: opt_chars(self.rsa),
        }
    }
}

/// The currently-active circuit (guard → middle → exit).
pub struct CircuitPath {
    pub hops: Vec<CircuitHopInfo>,
}

impl View for CircuitPath {
    type V = Seq<HopView>;

    open spec fn view(&self) -> Seq<HopView> {
        self.hops@.map_values(|h: CircuitHopInfo| h@)
    }
}

pub open spec fn opt_path(o: Option<CircuitPath>) -> Option<Seq<HopView>> {
    match o {
        Some(p) => Some(p@),
        None => None,
    }
}

/// A copy of an optional string.
pub fn copy_text(o: &Option<String>) -> (r: Option<String>)
    ensures
        opt_chars(r) == opt_chars(*o),
{
    match o {
        Some(s) => Some(owned(s.as_str())),
        None => None,
    }
}

impl CircuitHopInfo {
    /// A field-for-field copy.
    pub fn duplicate(&self) -> (r: CircuitHopInfo)
        ensures
            r@ == self@,
    {
        CircuitHopInfo {
            role: self.role,
            ip: copy_text(&self.ip),
            nickname: owned(self.nickname.as_str()),
            country: copy_text(&self.country),
            ed25519: copy_text(&self.ed25519),
            rsa: copy_text(&self.rsa),
        }
    }
}

impl CircuitPath {
    /// A hop-for-hop copy.
    pub fn duplicate(&self) -> (r: CircuitPath)
        ensures
            r@ == self@,
    {
        let mut hops: Vec<CircuitHopInfo> = Vec::new();
        let n = self.hops.len();
        let mut i: usize = 0;
        while i < n
            invariant
                n == self.hops@.len(),
                i <= n,
                hops@.len() == i,
                forall|j: int| 0 <= j < i ==> #[trigger] hops@[j]@ == self.hops@[j]@,
            decreases n - i,
        {
            hops.push(self.hops[i].duplicate());
            i = i + 1;
        }
        let r = CircuitPath { hops };
        assert(r@ =~= self@);
        r
    }
}

/// Shared lifecycle state: the phase, the latest error message and the latest
/// circuit.
pub struct Stage {
    phase: TorPhase,
    error: Option<String>,
    circuit: Option<CircuitPath>,
}

pub struct StageView {
    pub phase: TorPhase,
    pub error: Option<Seq<char>>,
    pub circuit: Option<Seq<HopView>>,
}

impl View for Stage {
    type V = StageView;

    closed spec fn view(&self) -> StageView {
        StageView {
            phase: self.phase,
            error: opt_chars(self.error),
            circuit: opt_path(self.circuit),
        }
    }
}

impl Stage {
    /// A stage in `phase`, with no error and no circuit.
    pub fn new(phase: TorPhase) -> (r: Stage)
        ensures
            r@ == (StageView { phase, error: None, circuit: None }),
    {
        Stage { phase, error: None, circuit: None }
    }

    pub fn phase(&self) -> (r: TorPhase)
        ensures
            r == self@.phase,
    {
        self.phase
    }

    pub fn set_phase(&mut self, phase: TorPhase)
        ensures
            final(self)@ == (StageView { phase, ..old(self)@ }),
    {
        self.phase = phase;
    }

    /// Sets (or clears, with `None`) the current error message.
    pub fn set_error(&mut self, msg: Option<String>)
        ensures
            final(self)@ == (StageView { error: opt_chars(msg), ..old(self)@ }),
    {
        self.error = msg;
    }

    pub fn error(&self) -> (r: Option<String>)
        ensures
            opt_chars(r) == self@.error,
    {
        copy_text(&self.error)
    }

    pub fn set_circuit(&mut self, path: CircuitPath)
        ensures
            final(self)@ == (StageView { circuit: Some(path@), ..old(self)@ }),
    {
        self.circuit = Some(path);
    }

    pub fn circuit(&self) -> (r: Option<CircuitPath>)
        ensures
            opt_path(r) == self@.circuit,
    {
        match &self.circuit {
            Some(p) => Some(p.duplicate()),
            None => None,
        }
    }
}

// ----- circuit resolution ----------------------------------------------------

/// What the directory says of a relay.
pub struct RelayFacts {
    pub nickname: String,
    pub ip: Option<String>,
}

/// What a circuit entry that is a channel target tells about its relay: its
/// identities, its first listed address, and the directory record found for its
/// Ed25519 identity (present only when a timely directory was available and
/// knew the relay).
pub struct HopFacts {
    pub ed25519: Option<String>,
    pub rsa: Option<String>,
    pub addr_ip: Option<String>,
    pub relay: Option<RelayFacts>,
}

/// The role of the hop at position `i` of an `n`-hop circuit.
pub open spec fn hop_role(i: int, n: int) -> Seq<char> {
    if i == 0 {
        "guard"@
    } else if i == n - 1 {
        "exit"@
    } else {
        "middle"@
    }
}

/// The display of the hop at position `i` of an `n`-hop circuit: the address
/// falls back to the directory's, the nickname is the directory's or
/// `Unnamed`, and the country is never filled in (the frontend geolocates hop
/// addresses itself).
pub open spec fn hop_view(f: HopFacts, i: int, n: int) -> HopView {
    HopView {
        role: hop_role(i, n),
        ip: match f.addr_ip {
            Some(a) => Some(a@),
            None => match f.relay {
                Some(r) => opt_chars(r.ip),
                None => None,
            },
        },
        nickname: match f.relay {
            Some(r) => r.nickname@,
            None => "Unnamed"@,
        },
        country: None,
        ed25519: opt_chars(f.ed25519),
        rsa: opt_chars(f.rsa),
    }
}

/// The hops displayed for the first `k` entries of an `n`-entry circuit;
/// entries that are not channel targets (`None`) are skipped but keep their
/// position.
pub open spec fn resolved_prefix(entries: Seq<Option<HopFacts>>, k: int, n: int) -> Seq<HopView>
    decreases k,
{
    if k <= 0 {
        Seq::empty()
    } else {
        let prev = resolved_prefix(entries, k - 1, n);
        match entries[k - 1] {
            Some(f) => prev.push(hop_view(f, k - 1, n)),
            None => prev,
        }
    }
}

/// The circuit display for `entries`, or `None` for a circuit of fewer than two
/// hops (nothing worth showing).
pub open spec fn resolved_circuit(entries: Seq<Option<HopFacts>>) -> Option<Seq<HopView>> {
    if entries.len() < 2 {
        None
    } else {
        Some(resolved_prefix(entries, entries.len() as int, entries.len() as int))
    }
}

fn hop_info(f: &HopFacts, i: usize, n: usize) -> (r: CircuitHopInfo)
    requires
        i < n,
    ensures
        r@ == hop_view(*f, i as int, n as int),
{
    let role: &'static str = if i == 0 {
        "guard"
    } else if i == n - 1 {
        "exit"
    } else {
        "middle"
    };
    let ip = match &f.addr_ip {
        Some(a) => Some(owned(a.as_str())),
        None => match &f.relay {
            Some(r) => copy_text(&r.ip),
            None => None,
        },
    };
    let nickname = match &f.relay {
        Some(r) => owned(r.nickname.as_str()),
        None => owned("Unnamed"),
    };
    CircuitHopInfo {
        role,
        ip,
        nickname,
        country: None,
        ed25519: copy_text(&f.ed25519),
        rsa: copy_text(&f.rsa),
    }
}

/// Resolves the entries of a stream's circuit path (in path order) into the
/// circuit display (`publish_circuit` after the directory lookups).
pub fn resolve_circuit(entries: &Vec<Option<HopFacts>>) -> (r: Option<CircuitPath>)
    ensures
        opt_path(r) == resolved_circuit(entries@),
{
    let n = entries.len();
    if n < 2 {
        return None;
    }
    let mut hops: Vec<CircuitHopInfo> = Vec::new();
    let mut i: usize = 0;
    while i < n
        invariant
            n == entries@.len(),
            i <= n,
            hops@.map_values(|h: CircuitHopInfo| h@) == resolved_prefix(entries@, i as int, n as int),
        decreases n - i,
    {
        match &entries[i] {
            Some(f) => {
                let h = hop_info(f, i, n);
                let ghost before = hops@;
                hops.push(h);
                assert(hops@.map_values(|h: CircuitHopInfo| h@) =~= before.map_values(
                    |h: CircuitHopInfo| h@,
                ).push(h@));
            },
            None => {},
        }
        i = i + 1;
    }
    Some(CircuitPath { hops })
}

/// Stores the circuit of a fresh stream on `stage`; a circuit of fewer than two
/// hops leaves the stage as it was.
pub fn publish_circuit(stage: &mut Stage, entries: &Vec<Option<HopFacts>>)
    ensures
        final(stage)@ == (match resolved_circuit(entries@) {
            Some(c) => StageView { circuit: Some(c), ..old(stage)@ },
            None => old(stage)@,
        }),
{
    match resolve_circuit(entries) {
        Some(path) => stage.set_circuit(path),
        None => {},
    }
}

// ----- laws -------------------------------------------------------------------

/// What the stage reads back is what was last written to it.
pub proof fn stage_reads_back_writes(st: StageView, phase: TorPhase, error: Option<Seq<char>>, path: Seq<HopView>)
    ensures
        (StageView { phase, ..st }).phase == phase,
        (StageView { error, ..st }).error == error,
        (StageView { circuit: Some(path), ..st }).circuit == Some(path),
        (StageView { phase, ..st }).error == st.error,
        (StageView { error, ..st }).phase == st.phase,
{
}

proof fn lemma_all_targets_prefix(entries: Seq<Option<HopFacts>>, k: int, n: int)
    requires
        0 <= k <= entries.len(),
        forall|i: int| 0 <= i < entries.len() ==> (#[trigger] entries[i]) is Some,
    ensures
        resolved_prefix(entries, k, n).len() == k,
        forall|i: int| 0 <= i < k ==> #[trigger] resolved_prefix(entries, k, n)[i] == hop_view(
            entries[i].unwrap(),
            i,
            n,
        ),
    decreases k,
{
    if k > 0 {
        lemma_all_targets_prefix(entries, k - 1, n);
        assert(entries[k - 1] is Some);
    }
}

/// When every entry of a circuit of two or more hops is a relay, the display
/// has one hop per entry in path order: the first is the guard, the last the
/// exit, and every hop in between a middle relay.
pub proof fn circuit_roles_follow_the_path(entries: Seq<Option<HopFacts>>)
    requires
        entries.len() >= 2,
        forall|i: int| 0 <= i < entries.len() ==> (#[trigger] entries[i]) is Some,
    ensures
        resolved_circuit(entries) matches Some(hops) && hops.len() == entries.len() && hops[0].role
            == "guard"@ && hops[entries.len() - 1].role == "exit"@ && (forall|i: int|
            0 < i < entries.len() - 1 ==> (#[trigger] hops[i]).role == "middle"@),
{
    let n = entries.len() as int;
    lemma_all_targets_prefix(entries, n, n);
    let hops = resolved_prefix(entries, n, n);
    assert(hops[0] == hop_view(entries[0].unwrap(), 0, n));
    assert(hops[n - 1] == hop_view(entries[n - 1].unwrap(), n - 1, n));
    assert forall|i: int| 0 < i < n - 1 implies (#[trigger] hops[i]).role == "middle"@ by {
        assert(hops[i] == hop_view(entries[i].unwrap(), i, n));
    }
}

/// When every entry of a circuit of two or more hops is a relay, hop `i` of
/// the display shows what entry `i` tells about its relay: its Ed25519 and
/// RSA identities, its own address (else the directory's), the directory's
/// nickname (else `Unnamed`), and no country.
pub proof fn displayed_hops_carry_entry_identities(entries: Seq<Option<HopFacts>>)
    requires
        entries.len() >= 2,
        forall|i: int| 0 <= i < entries.len() ==> (#[trigger] entries[i]) is Some,
    ensures
        resolved_circuit(entries) matches Some(hops) && hops.len() == entries.len() && forall|i: int|
            0 <= i < entries.len() ==> {
                let f = entries[i]->0;
                &&& (#[trigger] hops[i]).ed25519 == opt_chars(f.ed25519)
                &&& hops[i].rsa == opt_chars(f.rsa)
                &&& f.addr_ip is Some ==> hops[i].ip == Some((f.addr_ip->0)@)
                &&& f.addr_ip is None && f.relay is Some ==> hops[i].ip == opt_chars((f.relay->0).ip)
                &&& f.addr_ip is None && f.relay is None ==> hops[i].ip is None
                &&& f.relay is Some ==> hops[i].nickname == (f.relay->0).nickname@
                &&& f.relay is None ==> hops[i].nickname == "Unnamed"@
                &&& hops[i].country is None
            },
{
    let n = entries.len() as int;
    lemma_all_targets_prefix(entries, n, n);
}

/// How many of the first `k` entries are relays (channel targets).
pub open spec fn relays_before(entries: Seq<Option<HopFacts>>, k: int) -> nat
    decreases k,
{
    if k <= 0 {
        0
    } else {
        relays_before(entries, k - 1) + (if entries[k - 1] is Some { 1nat } else { 0nat })
    }
}

proof fn lemma_resolved_prefix_positions(entries: Seq<Option<HopFacts>>, k: int, n: int)
    requires
        0 <= k <= entries.len(),
    ensures
        resolved_prefix(entries, k, n).len() == relays_before(entries, k),
        forall|i: int|
            0 <= i < k && (#[trigger] entries[i]) is Some ==> relays_before(entries, i) < relays_before(entries, k)
                && resolved_prefix(entries, k, n)[relays_before(entries, i) as int] == hop_view(
                entries[i]->0,
                i,
                n,
            ),
    decreases k,
{
    if k > 0 {
        lemma_resolved_prefix_positions(entries, k - 1, n);
        assert forall|i: int|
            0 <= i < k && (#[trigger] entries[i]) is Some implies relays_before(entries, i) < relays_before(
                entries,
                k,
            ) && resolved_prefix(entries, k, n)[relays_before(entries, i) as int] == hop_view(
                entries[i]->0,
                i,
                n,
            ) by {
            if i < k - 1 {
            } else {
                assert(i == k - 1);
            }
        }
    }
}

/// Whatever the path holds, the display has one hop per relay entry, in path
/// order, and each hop's role comes from the entry's position in the whole
/// path (first: guard, last: exit, otherwise middle), even when entries that
/// are not relays are skipped; each hop carries its entry's identities.
pub proof fn hops_keep_their_path_positions(entries: Seq<Option<HopFacts>>)
    requires
        entries.len() >= 2,
    ensures
        resolved_circuit(entries) matches Some(hops) && hops.len() == relays_before(entries, entries.len() as int)
            && forall|i: int|
            0 <= i < entries.len() && (#[trigger] entries[i]) is Some ==> {
                let h = hops[relays_before(entries, i) as int];
                &&& h.role == (if i == 0 {
                    "guard"@
                } else if i == entries.len() - 1 {
                    "exit"@
                } else {
                    "middle"@
                })
                &&& h.ed25519 == opt_chars((entries[i]->0).ed25519)
                &&& h.rsa == opt_chars((entries[i]->0).rsa)
            },
{
    let n = entries.len() as int;
    lemma_resolved_prefix_positions(entries, n, n);
}

} // verus!
