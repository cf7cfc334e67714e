//! The server side of the SOCKS5 handshake spoken by the permanent local proxy.
//!
//! The proxy reads a connection's bytes in the chunks this module asks for:
//! greeting → method list → (reply "no authentication") → request header →
//! destination address → destination port. Each chunk is one [`socks_step`];
//! the handshake ends with the destination to connect to, or with a failure
//! (and the reply to send before closing, when the protocol has one).

use vstd::prelude::*;
use crate::text::{decimal, nat_text, utf8_lossy, lossy_text};

verus! {

/// Where the handshake stands: which bytes come next.
pub enum SocksPhase {
    /// Version and method count (2 bytes).
    Greeting,
    /// The offered authentication methods (as many bytes as announced).
    Methods(u8),
    /// Version, command, reserved, address type (4 bytes).
    Request,
    /// An IPv4 destination address (4 bytes).
    Ipv4Addr,
    /// The port after an IPv4 address (2 bytes).
    Ipv4Port(u8, u8, u8, u8),
    /// The length of a domain name (1 byte).
    DomainLen,
    /// A domain name of the given length.
    Domain(u8),
    /// The port after a domain name (2 bytes).
    DomainPort(Vec<u8>),
}

/// The destination a client asked for.
pub enum SocksHost {
    Ipv4(u8, u8, u8, u8),
    /// The raw bytes of a domain name.
    Domain(Vec<u8>),
}

/// Why a handshake was refused.
#[derive(Clone, Copy, PartialEq, Eq, Debug, Structural)]
pub enum SocksError {
    NotSocks5,
    UnsupportedCommand,
    UnsupportedAddressType,
}

/// The outcome of one chunk.
pub enum SocksStep {
    /// Write `reply` (if any), then read the chunk that `next` asks for.
    Read { next: SocksPhase, reply: Option<Vec<u8>> },
    /// The handshake is complete: connect to this destination.
    Connect { host: SocksHost, port: u16 },
    /// Refuse the connection, writing `reply` (if any) first.
    Fail { error: SocksError, reply: Option<Vec<u8>> },
}

pub enum PhaseView {
    Greeting,
    Methods(u8),
    Request,
    Ipv4Addr,
    Ipv4Port(u8, u8, u8, u8),
    DomainLen,
    Domain(u8),
    DomainPort(Seq<u8>),
}

pub enum HostView {
    Ipv4(u8, u8, u8, u8),
    Domain(Seq<u8>),
}

pub enum StepView {
    Read { next: PhaseView, reply: Option<Seq<u8>> },
    Connect { host: HostView, port: u16 },
    Fail { error: SocksError, reply: Option<Seq<u8>> },
}

impl View for SocksPhase {
    type V = PhaseView;

    open spec fn view(&self) -> PhaseView {
        match self {
            SocksPhase::Greeting => PhaseView::Greeting,
            SocksPhase::Methods(n) => PhaseView::Methods(*n),
            SocksPhase::Request => PhaseView::Request,
            SocksPhase::Ipv4Addr => PhaseView::Ipv4Addr,
            SocksPhase::Ipv4Port(a, b, c, d) => PhaseView::Ipv4Port(*a, *b, *c, *d),
            SocksPhase::DomainLen => PhaseView::DomainLen,
            SocksPhase::Domain(n) => PhaseView::Domain(*n),
            SocksPhase::DomainPort(d) => PhaseView::DomainPort(d@),
        }
    }
}

impl View for SocksHost {
    type V = HostView;

    open spec fn view(&self) -> HostView {
        match self {
            SocksHost::Ipv4(a, b, c, d) => HostView::Ipv4(*a, *b, *c, *d),
            SocksHost::Domain(d) => HostView::Domain(d@),
        }
    }
}

pub open spec fn opt_bytes(o: Option<Vec<u8>>) -> Option<Seq<u8>> {
    match o {
        Some(v) => Some(v@),
        None => None,
    }
}

impl View for SocksStep {
    type V = StepView;

    open spec fn view(&self) -> StepView {
        match self {
            SocksStep::Read { next, reply } => StepView::Read { next: next@, reply: opt_bytes(*reply) },
            SocksStep::Connect { host, port } => StepView::Connect { host: host@, port: *port },
            SocksStep::Fail { error, reply } => StepView::Fail { error: *error, reply: opt_bytes(*reply) },
        }
    }
}

/// The reply code for a successful connection.
pub const REPLY_SUCCEEDED: u8 = 0x00;
/// The reply code when the destination refused (or Tor could not connect).
pub const REPLY_CONNECTION_REFUSED: u8 = 0x05;
/// The reply code for a command other than CONNECT.
pub const REPLY_COMMAND_NOT_SUPPORTED: u8 = 0x07;
/// The reply code for an address type other than IPv4 or a domain name.
pub const REPLY_ADDRESS_TYPE_NOT_SUPPORTED: u8 = 0x08;

/// A reply to a request: version 5, `code`, and an all-zero IPv4 bound address.
pub open spec fn reply_of(code: u8) -> Seq<u8> {
    seq![0x05u8, code, 0x00u8, 0x01u8, 0u8, 0u8, 0u8, 0u8, 0u8, 0u8]
}

/// The method-selection reply: version 5, "no authentication required".
pub open spec fn method_reply() -> Seq<u8> {
    seq![0x05u8, 0x00u8]
}

/// How many bytes the phase reads.
pub open spec fn needed(p: PhaseView) -> nat {
    match p {
        PhaseView::Greeting => 2,
        PhaseView::Methods(n) => n as nat,
        PhaseView::Request => 4,
        PhaseView::Ipv4Addr => 4,
        PhaseView::Ipv4Port(..) => 2,
        PhaseView::DomainLen => 1,
        PhaseView::Domain(n) => n as nat,
        PhaseView::DomainPort(_) => 2,
    }
}

/// A big-endian port.
pub open spec fn be_port(hi: u8, lo: u8) -> u16 {
    (hi as nat * 256 + lo as nat) as u16
}

/// What the server does with the chunk `input` read in phase `p`.
pub open spec fn step_of(p: PhaseView, input: Seq<u8>) -> StepView {
    match p {
        PhaseView::Greeting => if input[0] != 0x05u8 {
            StepView::Fail { error: SocksError::NotSocks5, reply: None }
        } else {
            StepView::Read { next: PhaseView::Methods(input[1]), reply: None }
        },
        PhaseView::Methods(_) => StepView::Read { next: PhaseView::Request, reply: Some(method_reply()) },
        PhaseView::Request => if input[0] != 0x05u8 || input[1] != 0x01u8 {
            StepView::Fail {
                error: SocksError::UnsupportedCommand,
                reply: Some(reply_of(REPLY_COMMAND_NOT_SUPPORTED)),
            }
        } else if input[3] == 0x01u8 {
            StepView::Read { next: PhaseView::Ipv4Addr, reply: None }
        } else if input[3] == 0x03u8 {
            StepView::Read { next: PhaseView::DomainLen, reply: None }
        } else {
            StepView::Fail {
                error: SocksError::UnsupportedAddressType,
                reply: Some(reply_of(REPLY_ADDRESS_TYPE_NOT_SUPPORTED)),
            }
        },
        PhaseView::Ipv4Addr => StepView::Read {
            next: PhaseView::Ipv4Port(input[0], input[1], input[2], input[3]),
            reply: None,
        },
        PhaseView::Ipv4Port(a, b, c, d) => StepView::Connect {
            host: HostView::Ipv4(a, b, c, d),
            port: be_port(input[0], input[1]),
        },
        PhaseView::DomainLen => StepView::Read { next: PhaseView::Domain(input[0]), reply: None },
        PhaseView::Domain(_) => StepView::Read { next: PhaseView::DomainPort(input), reply: None },
        PhaseView::DomainPort(d) => StepView::Connect { host: HostView::Domain(d), port: be_port(input[0], input[1]) },
    }
}

/// The request reply with `code`.
pub fn reply(code: u8) -> (r: Vec<u8>)
    ensures
        r@ == reply_of(code),
{
    let r = vec![0x05u8, code, 0x00u8, 0x01u8, 0u8, 0u8, 0u8, 0u8, 0u8, 0u8];
    assert(r@ =~= reply_of(code));
    r
}

fn method_selection() -> (r: Vec<u8>)
    ensures
        r@ == method_reply(),
{
    let r = vec![0x05u8, 0x00u8];
    assert(r@ =~= method_reply());
    r
}

/// How many bytes to read in `phase`.
pub fn bytes_needed(phase: &SocksPhase) -> (r: usize)
    ensures
        r == needed(phase@),
{
    match phase {
        SocksPhase::Greeting => 2,
        SocksPhase::Methods(n) => *n as usize,
        SocksPhase::Request => 4,
        SocksPhase::Ipv4Addr => 4,
        SocksPhase::Ipv4Port(..) => 2,
        SocksPhase::DomainLen => 1,
        SocksPhase::Domain(n) => *n as usize,
        SocksPhase::DomainPort(_) => 2,
    }
}

/// The error text when the chunk of `phase` could not be read.
pub open spec fn read_failure_text(p: PhaseView) -> Seq<char> {
    match p {
        PhaseView::Greeting => "read greeting"@,
        PhaseView::Methods(_) => "read methods"@,
        PhaseView::Request => "read request"@,
        PhaseView::Ipv4Addr => "read ipv4"@,
        PhaseView::Ipv4Port(..) => "read ipv4 port"@,
        PhaseView::DomainLen => "read domain len"@,
        PhaseView::Domain(_) => "read domain"@,
        PhaseView::DomainPort(_) => "read domain port"@,
    }
}

/// The error text of a refused handshake.
pub open spec fn error_text(e: SocksError) -> Seq<char> {
    match e {
        SocksError::NotSocks5 => "not socks5"@,
        SocksError::UnsupportedCommand => "unsupported command"@,
        SocksError::UnsupportedAddressType => "unsupported address type"@,
    }
}

pub fn read_failure(phase: &SocksPhase) -> (r: &'static str)
    ensures
        r@ == read_failure_text(phase@),
{
    match phase {
        SocksPhase::Greeting => "read greeting",
        SocksPhase::Methods(_) => "read methods",
        SocksPhase::Request => "read request",
        SocksPhase::Ipv4Addr => "read ipv4",
        SocksPhase::Ipv4Port(..) => "read ipv4 port",
        SocksPhase::DomainLen => "read domain len",
        SocksPhase::Domain(_) => "read domain",
        SocksPhase::DomainPort(_) => "read domain port",
    }
}

impl SocksError {
    /// The error text of a refused handshake.
    pub fn message(&self) -> (r: &'static str)
        ensures
            r@ == error_text(*self),
    {
        match self {
            SocksError::NotSocks5 => "not socks5",
            SocksError::UnsupportedCommand => "unsupported command",
            SocksError::UnsupportedAddressType => "unsupported address type",
        }
    }
}

fn port_of(hi: u8, lo: u8) -> (r: u16)
    ensures
        r == be_port(hi, lo),
{
    (hi as u16) * 256 + (lo as u16)
}

/// Handles the chunk `input` read in `phase` (`handle_socks_conn`).
pub fn socks_step(phase: SocksPhase, input: &[u8]) -> (r: SocksStep)
    requires
        input@.len() == needed(phase@),
    ensures
        r@ == step_of(phase@, input@),
{
    match phase {
        SocksPhase::Greeting => {
            if input[0] != 0x05u8 {
                SocksStep::Fail { error: SocksError::NotSocks5, reply: None }
            } else {
                SocksStep::Read { next: SocksPhase::Methods(input[1]), reply: None }
            }
        },
        SocksPhase::Methods(_) => SocksStep::Read {
            next: SocksPhase::Request,
            reply: Some(method_selection()),
        },
        SocksPhase::Request => {
            if input[0] != 0x05u8 || input[1] != 0x01u8 {
                SocksStep::Fail {
                    error: SocksError::UnsupportedCommand,
                    reply: Some(reply(REPLY_COMMAND_NOT_SUPPORTED)),
                }
            } else if input[3] == 0x01u8 {
                SocksStep::Read { next: SocksPhase::Ipv4Addr, reply: None }
            } else if input[3] == 0x03u8 {
                SocksStep::Read { next: SocksPhase::DomainLen, reply: None }
            } else {
                SocksStep::Fail {
                    error: SocksError::UnsupportedAddressType,
                    reply: Some(reply(REPLY_ADDRESS_TYPE_NOT_SUPPORTED)),
                }
            }
        },
        SocksPhase::Ipv4Addr => SocksStep::Read {
            next: SocksPhase::Ipv4Port(input[0], input[1], input[2], input[3]),
            reply: None,
        },
        SocksPhase::Ipv4Port(a, b, c, d) => SocksStep::Connect {
            host: SocksHost::Ipv4(a, b, c, d),
            port: port_of(input[0], input[1]),
        },
        SocksPhase::DomainLen => SocksStep::Read { next: SocksPhase::Domain(input[0]), reply: None },
        SocksPhase::Domain(_) => {
            let mut d: Vec<u8> = Vec::new();
            let n = input.len();
            let mut i: usize = 0;
            while i < n
                invariant
                    n == input@.len(),
                    i <= n,
                    d@ == input@.subrange(0, i as int),
                decreases n - i,
            {
                d.push(input[i]);
                i = i + 1;
                assert(d@ =~= input@.subrange(0, i as int));
            }
            assert(input@.subrange(0, n as int) =~= input@);
            SocksStep::Read { next: SocksPhase::DomainPort(d), reply: None }
        },
        SocksPhase::DomainPort(d) => SocksStep::Connect {
            host: SocksHost::Domain(d),
            port: port_of(input[0], input[1]),
        },
    }
}

/// Dotted-decimal text of an IPv4 address.
pub open spec fn ipv4_text(a: u8, b: u8, c: u8, d: u8) -> Seq<char> {
    nat_text(a as nat) + seq!['.'] + nat_text(b as nat) + seq!['.'] + nat_text(c as nat) + seq!['.']
        + nat_text(d as nat)
}

/// The host text a destination is connected to: dotted decimal for IPv4, the
/// domain's bytes decoded as UTF-8 (invalid sequences replaced) otherwise.
pub open spec fn host_text(h: HostView) -> Seq<char> {
    match h {
        HostView::Ipv4(a, b, c, d) => ipv4_text(a, b, c, d),
        HostView::Domain(bytes) => lossy_text(bytes),
    }
}

impl SocksHost {
    /// The host text to connect to.
    pub fn text(&self) -> (r: String)
        ensures
            r@ == host_text(self@),
    {
        match self {
            SocksHost::Ipv4(a, b, c, d) => {
                let mut s = decimal(*a as u64);
                s.append(".");
                s.append(decimal(*b as u64).as_str());
                s.append(".");
                s.append(decimal(*c as u64).as_str());
                s.append(".");
                s.append(decimal(*d as u64).as_str());
                proof {
                    reveal_strlit(".");
                    assert(s@ =~= ipv4_text(*a, *b, *c, *d));
                }
                s
            },
            SocksHost::Domain(d) => utf8_lossy(d.as_slice()),
        }
    }
}

/// Feeds `stream` to the handshake from phase `p`, chunk by chunk: the step
/// that ends it (connect or failure), or `None` when the bytes run out first
/// (or after `fuel` chunks).
pub open spec fn run_handshake(p: PhaseView, stream: Seq<u8>, fuel: nat) -> Option<StepView>
    decreases fuel,
{
    if fuel == 0 || stream.len() < needed(p) {
        None
    } else {
        let s = step_of(p, stream.take(needed(p) as int));
        match s {
            StepView::Read { next, .. } => run_handshake(next, stream.skip(needed(p) as int), (fuel - 1) as nat),
            _ => Some(s),
        }
    }
}

/// What a client sends first: version 5 and its method list.
pub open spec fn client_greeting(methods: Seq<u8>) -> Seq<u8> {
    seq![0x05u8, methods.len() as u8] + methods
}

/// A CONNECT request for `host` and `port` (big-endian).
pub open spec fn connect_request(host: HostView, port: u16) -> Seq<u8> {
    seq![0x05u8, 0x01u8, 0x00u8] + match host {
        HostView::Ipv4(a, b, c, d) => seq![0x01u8, a, b, c, d],
        HostView::Domain(d) => seq![0x03u8, d.len() as u8] + d,
    } + seq![(port / 256) as u8, (port % 256) as u8]
}

/// A client that greets with any method list and asks to CONNECT to any IPv4
/// address or domain name (up to 255 bytes) gets exactly that destination and
/// port out of the handshake.
pub proof fn handshake_yields_requested_destination(methods: Seq<u8>, host: HostView, port: u16)
    requires
        methods.len() <= 255,
        host matches HostView::Domain(d) ==> d.len() <= 255,
    ensures
        run_handshake(
            PhaseView::Greeting,
            client_greeting(methods) + connect_request(host, port),
            8,
        ) == Some(StepView::Connect { host, port }),
{
    let m = methods.len();
    let s0 = client_greeting(methods) + connect_request(host, port);
    let hi = (port / 256) as u8;
    let lo = (port % 256) as u8;
    assert(be_port(hi, lo) == port);
    assert(s0.take(2) =~= seq![0x05u8, m as u8]);
    let s1 = s0.skip(2);
    assert(s1 =~= methods + connect_request(host, port));
    assert(s1.take(m as int) =~= methods);
    let s2 = s1.skip(m as int);
    assert(s2 =~= connect_request(host, port));
    match host {
        HostView::Ipv4(a, b, c, d) => {
            assert(s2.take(4) =~= seq![0x05u8, 0x01u8, 0x00u8, 0x01u8]);
            let s3 = s2.skip(4);
            assert(s3 =~= seq![a, b, c, d, hi, lo]);
            assert(s3.take(4) =~= seq![a, b, c, d]);
            let s4 = s3.skip(4);
            assert(s4 =~= seq![hi, lo]);
            assert(s4.take(2) =~= seq![hi, lo]);
            reveal_with_fuel(run_handshake, 6);
        },
        HostView::Domain(dom) => {
            let l = dom.len();
            assert(s2.take(4) =~= seq![0x05u8, 0x01u8, 0x00u8, 0x03u8]);
            let s3 = s2.skip(4);
            assert(s3 =~= seq![l as u8] + dom + seq![hi, lo]);
            assert(s3.take(1) =~= seq![l as u8]);
            let s4 = s3.skip(1);
            assert(s4 =~= dom + seq![hi, lo]);
            assert(s4.take(l as int) =~= dom);
            let s5 = s4.skip(l as int);
            assert(s5 =~= seq![hi, lo]);
            assert(s5.take(2) =~= seq![hi, lo]);
            reveal_with_fuel(run_handshake, 7);
        },
    }
}

/// The server's answers, byte for byte: a greeting of another version than 5
/// fails without a reply; the method list is answered `05 00` (no
/// authentication); a request that is not version 5 with CONNECT (`01`) fails
/// with reply code `07`, an address type other than IPv4 (`01`) or domain
/// (`03`) with code `08`; every request reply is `05`, the code, `00`, then an
/// all-zero IPv4 bound address and port.
pub proof fn socks_replies_follow_the_protocol(input: Seq<u8>, n: u8, code: u8)
    requires
        input.len() >= 4,
    ensures
        input[0] != 5 ==> step_of(PhaseView::Greeting, input) == (StepView::Fail {
            error: SocksError::NotSocks5,
            reply: None,
        }),
        input[0] == 5 ==> step_of(PhaseView::Greeting, input) == (StepView::Read {
            next: PhaseView::Methods(input[1]),
            reply: None,
        }),
        step_of(PhaseView::Methods(n), input) == (StepView::Read {
            next: PhaseView::Request,
            reply: Some(seq![5u8, 0u8]),
        }),
        input[0] != 5 || input[1] != 1 ==> step_of(PhaseView::Request, input) == (StepView::Fail {
            error: SocksError::UnsupportedCommand,
            reply: Some(seq![5u8, 7u8, 0u8, 1u8, 0u8, 0u8, 0u8, 0u8, 0u8, 0u8]),
        }),
        input[0] == 5 && input[1] == 1 && input[3] != 1 && input[3] != 3 ==> step_of(PhaseView::Request, input)
            == (StepView::Fail {
            error: SocksError::UnsupportedAddressType,
            reply: Some(seq![5u8, 8u8, 0u8, 1u8, 0u8, 0u8, 0u8, 0u8, 0u8, 0u8]),
        }),
        input[0] == 5 && input[1] == 1 && input[3] == 1 ==> step_of(PhaseView::Request, input) == (StepView::Read {
            next: PhaseView::Ipv4Addr,
            reply: None,
        }),
        input[0] == 5 && input[1] == 1 && input[3] == 3 ==> step_of(PhaseView::Request, input) == (StepView::Read {
            next: PhaseView::DomainLen,
            reply: None,
        }),
        reply_of(code) == seq![5u8, code, 0u8, 1u8, 0u8, 0u8, 0u8, 0u8, 0u8, 0u8],
        needed(PhaseView::Greeting) == 2 && needed(PhaseView::Methods(n)) == n && needed(PhaseView::Request) == 4
            && needed(PhaseView::Ipv4Addr) == 4 && needed(PhaseView::DomainLen) == 1 && needed(PhaseView::Domain(n))
            == n,
{
}

} // verus!
