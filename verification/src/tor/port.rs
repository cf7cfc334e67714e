//! Local SOCKS5 port probing, and the outcome of killing the process that
//! holds the port.
//!
//! A foreign Tor (system daemon, Tor Browser, …) may already be bound to the
//! application's SOCKS5 port. It is detected by a real SOCKS5 greeting, not
//! just an open TCP port. Freeing the port runs the platform's tooling
//! (`fuser`, `lsof`/`kill`, `netstat`/`taskkill`); this module reads what the
//! tools report.

use vstd::prelude::*;
use vstd::string::*;
use vstd::utf8::*;
use crate::text::{utf8_lossy, utf8_strict, lossy_text,
    contains_substring, contains_text, decimal, find_first, first_index_of, is_white_space, lemma_first_index_bounds, nat_text, owned, trim, trim_end, trimmed, white_space};

verus! {

/// The SOCKS5 greeting sent by the probe: version 5, one method, "no
/// authentication required".
pub open spec fn probe_greeting() -> Seq<u8> {
    seq![0x05u8, 0x01u8, 0x00u8]
}

pub fn socks5_greeting() -> (r: Vec<u8>)
    ensures
        r@ == probe_greeting(),
{
    let r = vec![0x05u8, 0x01u8, 0x00u8];
    assert(r@ =~= probe_greeting());
    r
}

/// Whether the two reply bytes are a valid method selection ("no
/// authentication"); only then is the port taken to serve SOCKS5.
pub fn is_socks5_reply(reply: &[u8]) -> (r: bool)
    ensures
        r == (reply@ == seq![0x05u8, 0x00u8]),
{
    if reply.len() == 2 && reply[0] == 0x05u8 && reply[1] == 0x00u8 {
        assert(reply@ =~= seq![0x05u8, 0x00u8]);
        true
    } else {
        false
    }
}

/// `127.0.0.1:{port}`.
pub open spec fn loopback_of(port: u16) -> Seq<char> {
    "127.0.0.1:"@ + nat_text(port as nat)
}

/// The loopback address of `port` (what the probe connects to, and what the
/// Windows lookup searches for).
pub fn loopback(port: u16) -> (r: String)
    ensures
        r@ == loopback_of(port),
{
    let mut s = owned("127.0.0.1:");
    s.append(decimal(port as u64).as_str());
    s
}

/// `fuser -k {port}/tcp` — the argument naming the TCP port.
pub open spec fn fuser_target_of(port: u16) -> Seq<char> {
    nat_text(port as nat) + "/tcp"@
}

pub fn fuser_target(port: u16) -> (r: String)
    ensures
        r@ == fuser_target_of(port),
{
    let mut s = decimal(port as u64);
    s.append("/tcp");
    s
}

/// What `fuser -k` reported: success, or no complaint on stderr (nothing was
/// holding the port any more), is fine; otherwise the trimmed complaint.
pub fn fuser_outcome(success: bool, stderr: &str) -> (r: Result<(), String>)
    ensures
        success ==> r is Ok,
        !success && trimmed(stderr@).len() == 0 ==> r is Ok,
        !success && trimmed(stderr@).len() > 0 ==> (r matches Err(e) && e@ == "fuser: "@ + trimmed(
            stderr@,
        )),
{
    if success {
        return Ok(());
    }
    let t = trim(stderr);
    if t.as_str().unicode_len() == 0 {
        Ok(())
    } else {
        let mut e = owned("fuser: ");
        e.append(t.as_str());
        Err(e)
    }
}

/// What a kill command (`lsof … | xargs kill`, `taskkill`) reported: success,
/// or its trimmed stderr as the error.
pub fn kill_outcome(success: bool, stderr: &str) -> (r: Result<(), String>)
    ensures
        success ==> r is Ok,
        !success ==> (r matches Err(e) && e@ == trimmed(stderr@)),
{
    if success {
        Ok(())
    } else {
        Err(trim(stderr))
    }
}

/// The stderr text that `fuser -k` is judged by: its UTF-8 text, or nothing
/// when the bytes are not UTF-8.
pub open spec fn fuser_stderr(bytes: Seq<u8>) -> Seq<char> {
    if valid_utf8(bytes) {
        decode_utf8(bytes)
    } else {
        Seq::empty()
    }
}

/// [`fuser_outcome`] on the raw stderr bytes of `fuser -k`: stderr that is
/// not UTF-8 counts as empty.
pub fn fuser_report(success: bool, stderr: &[u8]) -> (r: Result<(), String>)
    ensures
        success ==> r is Ok,
        !success && trimmed(fuser_stderr(stderr@)).len() == 0 ==> r is Ok,
        !success && trimmed(fuser_stderr(stderr@)).len() > 0 ==> (r matches Err(e) && e@ == "fuser: "@
            + trimmed(fuser_stderr(stderr@))),
{
    let text = match utf8_strict(stderr) {
        Some(t) => t,
        None => String::new(),
    };
    fuser_outcome(success, text.as_str())
}

/// [`kill_outcome`] on the raw stderr bytes of a kill command, decoded
/// lossily.
pub fn kill_report(success: bool, stderr: &[u8]) -> (r: Result<(), String>)
    ensures
        success ==> r is Ok,
        !success ==> (r matches Err(e) && e@ == trimmed(lossy_text(stderr@))),
        !success && valid_utf8(stderr@) ==> (r matches Err(e) && e@ == trimmed(decode_utf8(stderr@))),
{
    let text = utf8_lossy(stderr);
    kill_outcome(success, text.as_str())
}

// ----- reading `netstat -ano -p tcp` -----------------------------------------

/// A line without the `\r` of a `\r\n` ending.
pub open spec fn strip_cr(l: Seq<char>) -> Seq<char> {
    if l.len() > 0 && l.last() == '\r' {
        l.drop_last()
    } else {
        l
    }
}

/// The lines of `s` (`str::lines`): split at `\n`, a `\r` right before the
/// `\n` dropped, no empty line after a final `\n`.
pub open spec fn lines_of(s: Seq<char>) -> Seq<Seq<char>>
    decreases s.len(),
{
    if s.len() == 0 {
        Seq::empty()
    } else {
        let i = first_index_of(s, '\n');
        if i < 0 {
            seq![s]
        } else {
            proof {
                lemma_first_index_bounds(s, '\n');
            }
            seq![strip_cr(s.take(i))] + lines_of(s.skip(i + 1))
        }
    }
}

/// The line starts with `TCP` in any ASCII case (`to_ascii_uppercase()
/// .starts_with("TCP")`).
pub open spec fn tcp_line(l: Seq<char>) -> bool {
    l.len() >= 3 && (l[0] == 'T' || l[0] == 't') && (l[1] == 'C' || l[1] == 'c') && (l[2] == 'P' || l[2]
        == 'p')
}

/// The first line that mentions `needle` and starts with `TCP`.
pub open spec fn first_tcp_line(ls: Seq<Seq<char>>, needle: Seq<char>) -> Option<Seq<char>>
    decreases ls.len(),
{
    if ls.len() == 0 {
        None
    } else if contains_text(ls[0], needle) && tcp_line(ls[0]) {
        Some(ls[0])
    } else {
        first_tcp_line(ls.drop_first(), needle)
    }
}

/// Index of the last white-space character of `t`, or -1.
pub open spec fn last_space(t: Seq<char>) -> int
    decreases t.len(),
{
    if t.len() == 0 {
        -1
    } else if white_space(t.last()) {
        t.len() - 1
    } else {
        last_space(t.drop_last())
    }
}

/// The last white-space separated token of `l`, if any.
pub open spec fn last_token(l: Seq<char>) -> Option<Seq<char>> {
    let t = trim_end(l);
    if t.len() == 0 {
        None
    } else {
        Some(t.subrange(last_space(t) + 1, t.len() as int))
    }
}

pub open spec fn is_digit(c: char) -> bool {
    '0' <= c && c <= '9'
}

pub open spec fn digits_value(ds: Seq<char>) -> nat
    decreases ds.len(),
{
    if ds.len() == 0 {
        0
    } else {
        digits_value(ds.drop_last()) * 10 + ((ds.last() as u32) - ('0' as u32)) as nat
    }
}

/// The digits of a number: the text without one leading `+`.
pub open spec fn digits_part(s: Seq<char>) -> Seq<char> {
    if s.len() > 0 && s[0] == '+' {
        s.drop_first()
    } else {
        s
    }
}

pub open spec fn all_digits(ds: Seq<char>) -> bool {
    forall|i: int| 0 <= i < ds.len() ==> is_digit(#[trigger] ds[i])
}

/// A `u32` written in decimal with an optional leading `+` (`str::parse::<u32>`).
pub open spec fn parsed_u32(s: Seq<char>) -> Option<u32> {
    let ds = digits_part(s);
    if ds.len() > 0 && all_digits(ds) && digits_value(ds) <= u32::MAX {
        Some(digits_value(ds) as u32)
    } else {
        None
    }
}

/// The PID owning `needle` in a `netstat -ano` listing: the last column of the
/// first TCP line that mentions it, when that column is a number.
pub open spec fn netstat_owner(text: Seq<char>, needle: Seq<char>) -> Option<u32> {
    match first_tcp_line(lines_of(text), needle) {
        Some(l) => match last_token(l) {
            Some(t) => parsed_u32(t),
            None => None,
        },
        None => None,
    }
}

/// The lines of `s`.
pub fn split_lines(s: &str) -> (r: Vec<String>)
    ensures
        r@.map_values(|x: String| x@) == lines_of(s@),
{
    let n = s.unicode_len();
    let mut out: Vec<String> = Vec::new();
    let mut start: usize = 0;
    assert(s@.skip(0) =~= s@);
    while start < n
        invariant
            n == s@.len(),
            start <= n,
            lines_of(s@) == out@.map_values(|x: String| x@) + lines_of(s@.skip(start as int)),
        decreases n - start,
    {
        let rest = s.substring_char(start, n);
        assert(rest@ =~= s@.skip(start as int));
        let ghost before = out@.map_values(|x: String| x@);
        match find_first(rest, '\n') {
            Some(i) => {
                proof {
                    lemma_first_index_bounds(rest@, '\n');
                }
                let mut line = owned(rest.substring_char(0, i));
                if i > 0 && rest.get_char(i - 1) == '\r' {
                    line = owned(rest.substring_char(0, i - 1));
                    assert(line@ =~= strip_cr(rest@.take(i as int)));
                } else {
                    assert(line@ =~= strip_cr(rest@.take(i as int)));
                }
                out.push(line);
                assert(s@.skip(start + i + 1) =~= rest@.skip(i + 1));
                start = start + i + 1;
                assert(out@.map_values(|x: String| x@) =~= before.push(line@));
                assert(lines_of(s@) =~= out@.map_values(|x: String| x@) + lines_of(s@.skip(start as int)));
            },
            None => {
                let line = owned(rest);
                out.push(line);
                start = n;
                assert(s@.skip(n as int).len() == 0);
                assert(out@.map_values(|x: String| x@) =~= before.push(line@));
                assert(lines_of(s@) =~= out@.map_values(|x: String| x@) + lines_of(s@.skip(start as int)));
            },
        }
    }
    assert(s@.skip(n as int).len() == 0);
    assert(lines_of(s@).len() == out@.len());
    assert(out@.map_values(|x: String| x@) =~= lines_of(s@));
    out
}

/// Whether the line starts with `TCP` in any ASCII case.
pub fn is_tcp_line(l: &str) -> (r: bool)
    ensures
        r == tcp_line(l@),
{
    let n = l.unicode_len();
    if n < 3 {
        return false;
    }
    let a = l.get_char(0);
    let b = l.get_char(1);
    let c = l.get_char(2);
    (a == 'T' || a == 't') && (b == 'C' || b == 'c') && (c == 'P' || c == 'p')
}

proof fn lemma_trim_end_take(s: Seq<char>, j: int)
    requires
        0 < j <= s.len(),
        white_space(s[j - 1]),
    ensures
        trim_end(s.take(j)) == trim_end(s.take(j - 1)),
{
    assert(s.take(j).drop_last() =~= s.take(j - 1));
}

proof fn lemma_last_space_found(t: Seq<char>, k: int)
    requires
        0 <= k < t.len(),
        white_space(t[k]),
        forall|j: int| k < j < t.len() ==> !white_space(#[trigger] t[j]),
    ensures
        last_space(t) == k,
    decreases t.len(),
{
    if !white_space(t.last()) {
        lemma_last_space_found(t.drop_last(), k);
    }
}

proof fn lemma_last_space_absent(t: Seq<char>)
    requires
        forall|j: int| 0 <= j < t.len() ==> !white_space(#[trigger] t[j]),
    ensures
        last_space(t) == -1,
    decreases t.len(),
{
    if t.len() > 0 {
        lemma_last_space_absent(t.drop_last());
    }
}

/// The last white-space separated token (`split_whitespace().last()`).
pub fn last_word(l: &str) -> (r: Option<String>)
    ensures
        match r {
            Some(t) => last_token(l@) == Some(t@),
            None => last_token(l@) is None,
        },
{
    let n = l.unicode_len();
    let mut j: usize = n;
    assert(l@.take(n as int) =~= l@);
    while j > 0 && is_white_space(l.get_char(j - 1))
        invariant
            n == l@.len(),
            j <= n,
            trim_end(l@) == trim_end(l@.take(j as int)),
        decreases j,
    {
        proof {
            lemma_trim_end_take(l@, j as int);
        }
        j = j - 1;
    }
    let ghost t = l@.take(j as int);
    proof {
        if j > 0 {
            assert(t.last() == l@[j - 1]);
        }
        assert(trim_end(t) == t);
    }
    if j == 0 {
        return None;
    }
    let mut k: usize = j;
    while k > 0 && !is_white_space(l.get_char(k - 1))
        invariant
            n == l@.len(),
            0 < j <= n,
            t == l@.take(j as int),
            k <= j,
            forall|x: int| k <= x < j ==> !white_space(#[trigger] t[x]),
        decreases k,
    {
        assert(t[k - 1] == l@[k - 1]);
        k = k - 1;
    }
    proof {
        if k > 0 {
            assert(t[k - 1] == l@[k - 1]);
            lemma_last_space_found(t, k - 1);
        } else {
            lemma_last_space_absent(t);
        }
    }
    let r = owned(l.substring_char(k, j));
    assert(r@ =~= t.subrange(last_space(t) + 1, t.len() as int));
    Some(r)
}

proof fn lemma_digits_prefix(ds: Seq<char>, k: int)
    requires
        0 <= k <= ds.len(),
        forall|i: int| 0 <= i < ds.len() ==> is_digit(#[trigger] ds[i]),
    ensures
        digits_value(ds.take(k)) <= digits_value(ds),
    decreases ds.len() - k,
{
    if k < ds.len() {
        lemma_digits_prefix(ds, k + 1);
        assert(ds.take(k + 1).drop_last() =~= ds.take(k));
    } else {
        assert(ds.take(k) =~= ds);
    }
}

/// Parses a decimal `u32` with an optional leading `+` (`str::parse::<u32>`).
pub fn parse_u32(s: &str) -> (r: Option<u32>)
    ensures
        r == parsed_u32(s@),
{
    let n = s.unicode_len();
    let start: usize = if n > 0 && s.get_char(0) == '+' { 1 } else { 0 };
    let ghost ds = digits_part(s@);
    assert(ds =~= s@.skip(start as int));
    if start == n {
        return None;
    }
    let mut acc: u64 = 0;
    let mut i: usize = start;
    assert(ds.take(0) =~= Seq::<char>::empty());
    while i < n
        invariant
            n == s@.len(),
            start <= i <= n,
            ds == s@.skip(start as int),
            ds == digits_part(s@),
            acc as nat == digits_value(ds.take(i - start)),
            acc <= u32::MAX,
            forall|x: int| 0 <= x < i - start ==> is_digit(#[trigger] ds[x]),
        decreases n - i,
    {
        let c = s.get_char(i);
        assert(c == ds[i - start]);
        if !('0' <= c && c <= '9') {
            assert(!is_digit(ds[i - start]));
            return None;
        }
        let d = ((c as u32) - ('0' as u32)) as u64;
        assert(ds.take(i - start + 1).drop_last() =~= ds.take(i - start));
        let next = acc * 10 + d;
        assert(ds.take(i - start + 1).last() == c);
        assert(next as nat == digits_value(ds.take(i - start + 1)));
        if next > 4294967295u64 {
            proof {
                if all_digits(ds) {
                    lemma_digits_prefix(ds, i - start + 1);
                }
            }
            return None;
        }
        acc = next;
        i = i + 1;
    }
    assert(ds.take(n - start) =~= ds);
    Some(acc as u32)
}

proof fn lemma_first_tcp_line(ls: Seq<Seq<char>>, needle: Seq<char>, i: int)
    requires
        0 <= i <= ls.len(),
        forall|j: int| 0 <= j < i ==> !(contains_text(#[trigger] ls[j], needle) && tcp_line(ls[j])),
    ensures
        first_tcp_line(ls, needle) == first_tcp_line(ls.skip(i), needle),
    decreases i,
{
    if i > 0 {
        lemma_first_tcp_line(ls.drop_first(), needle, i - 1);
        assert(ls.drop_first().skip(i - 1) =~= ls.skip(i));
    } else {
        assert(ls.skip(0) =~= ls);
    }
}

/// The PID listening on `127.0.0.1:{port}` according to a `netstat -ano -p tcp`
/// listing; `None` means nothing is listening any more.
pub fn netstat_owner_pid(text: &str, port: u16) -> (r: Option<u32>)
    ensures
        r == netstat_owner(text@, loopback_of(port)),
{
    let needle = loopback(port);
    let lines = split_lines(text);
    let ghost ls = lines@.map_values(|x: String| x@);
    let n = lines.len();
    let mut i: usize = 0;
    while i < n
        invariant
            n == lines@.len(),
            ls == lines@.map_values(|x: String| x@),
            ls == lines_of(text@),
            needle@ == loopback_of(port),
            i <= n,
            forall|j: int| 0 <= j < i ==> !(contains_text(#[trigger] ls[j], needle@) && tcp_line(ls[j])),
        decreases n - i,
    {
        let l = lines[i].as_str();
        assert(l@ == ls[i as int]);
        if contains_substring(l, needle.as_str()) && is_tcp_line(l) {
            proof {
                lemma_first_tcp_line(ls, needle@, i as int);
                assert(ls.skip(i as int)[0] == ls[i as int]);
                assert(first_tcp_line(ls, needle@) == Some(l@));
            }
            return match last_word(l) {
                Some(t) => parse_u32(t.as_str()),
                None => None,
            };
        }
        i = i + 1;
    }
    proof {
        lemma_first_tcp_line(ls, needle@, n as int);
    }
    None
}

/// Decimal text reads back as the number it was written from: every port or
/// PID written by `decimal` parses to itself, so the lookup for
/// `127.0.0.1:{port}` and the PID column agree on the digits.
pub proof fn decimal_text_reads_back(n: nat)
    ensures
        all_digits(nat_text(n)),
        nat_text(n).len() > 0,
        digits_value(nat_text(n)) == n,
        n <= u32::MAX ==> parsed_u32(nat_text(n)) == Some(n as u32),
    decreases n,
{
    let t = nat_text(n);
    if n < 10 {
        assert(t == seq![crate::text::digit_char(n)]);
        assert(t.drop_last() =~= Seq::<char>::empty());
        assert(t.last() == t[0]);
        assert((t.last() as u32) - ('0' as u32) == n);
        assert(digits_value(t.drop_last()) == 0);
        assert(digits_value(t) == n);
        assert(is_digit(t[0]));
    } else {
        decimal_text_reads_back(n / 10);
        let d = n % 10;
        assert(t.drop_last() == nat_text(n / 10));
        assert(t.last() == crate::text::digit_char(d));
        assert((t.last() as u32) - ('0' as u32) == d);
        assert((n / 10) * 10 + d == n);
        assert(digits_value(t) == digits_value(t.drop_last()) * 10 + ((t.last() as u32) - ('0' as u32)) as nat);
        assert forall|i: int| 0 <= i < t.len() implies is_digit(#[trigger] t[i]) by {
            if i < t.len() - 1 {
                assert(t[i] == nat_text(n / 10)[i]);
            }
        }
    }
    if n <= u32::MAX {
        assert(t.len() > 0 && t[0] != '+');
        assert(digits_part(t) == t);
    }
}

/// The owner of the port is read from the first line of the listing, in
/// listing order, that starts with `TCP` (in any ASCII case) and mentions
/// `127.0.0.1:{port}`: its last white-space separated column, read as a `u32`.
/// With no such line there is no owner. Here none of the first `k` lines is
/// such a line.
pub proof fn netstat_owner_is_first_listing_line(text: Seq<char>, port: u16, k: int)
    requires
        0 <= k <= lines_of(text).len(),
        forall|j: int|
            0 <= j < k ==> !({
                let l = #[trigger] lines_of(text)[j];
                &&& contains_text(l, "127.0.0.1:"@ + nat_text(port as nat))
                &&& l.len() >= 3
                &&& l[0] == 'T' || l[0] == 't'
                &&& l[1] == 'C' || l[1] == 'c'
                &&& l[2] == 'P' || l[2] == 'p'
            }),
    ensures
        k < lines_of(text).len() && ({
            let l = lines_of(text)[k];
            &&& contains_text(l, "127.0.0.1:"@ + nat_text(port as nat))
            &&& l.len() >= 3
            &&& l[0] == 'T' || l[0] == 't'
            &&& l[1] == 'C' || l[1] == 'c'
            &&& l[2] == 'P' || l[2] == 'p'
        }) ==> netstat_owner(text, loopback_of(port)) == (match last_token(lines_of(text)[k]) {
            Some(t) => parsed_u32(t),
            None => None,
        }),
        k == lines_of(text).len() ==> netstat_owner(text, loopback_of(port)) is None,
{
    let ls = lines_of(text);
    let needle = loopback_of(port);
    assert(needle == "127.0.0.1:"@ + nat_text(port as nat));
    lemma_first_tcp_line(ls, needle, k);
    if k < ls.len() {
        assert(ls.skip(k)[0] == ls[k]);
    } else {
        assert(ls.skip(k).len() == 0);
    }
}

/// [`netstat_owner_pid`] on the raw stdout bytes of `netstat -ano -p tcp`,
/// decoded lossily.
pub fn netstat_owner_in(stdout: &[u8], port: u16) -> (r: Option<u32>)
    ensures
        r == netstat_owner(lossy_text(stdout@), loopback_of(port)),
        valid_utf8(stdout@) ==> r == netstat_owner(decode_utf8(stdout@), loopback_of(port)),
{
    let text = utf8_lossy(stdout);
    netstat_owner_pid(text.as_str(), port)
}

} // verus!
