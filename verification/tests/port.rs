use qxchat::text::{decimal, signed_decimal, trim};
use qxchat::tor::port::{
    fuser_outcome, fuser_report, fuser_target, is_socks5_reply, is_tcp_line, kill_outcome, kill_report,
    last_word, loopback, netstat_owner_in, netstat_owner_pid, parse_u32, socks5_greeting, split_lines,
};

#[test]
fn probe_greeting_and_reply() {
    assert_eq!(socks5_greeting(), vec![5, 1, 0]);
    assert!(is_socks5_reply(&[5, 0]));
    assert!(!is_socks5_reply(&[5, 0xFF]));
    assert!(!is_socks5_reply(&[4, 0]));
    assert_eq!(loopback(9050), "127.0.0.1:9050");
}

#[test]
fn fuser_results() {
    assert_eq!(fuser_target(9050), "9050/tcp");
    assert_eq!(fuser_outcome(true, "anything"), Ok(()));
    assert_eq!(fuser_outcome(false, "  \n"), Ok(()));
    assert_eq!(fuser_outcome(false, ""), Ok(()));
    assert_eq!(fuser_outcome(false, " Cannot stat\n"), Err("fuser: Cannot stat".to_string()));
}

#[test]
fn kill_results() {
    assert_eq!(kill_outcome(true, "x"), Ok(()));
    assert_eq!(kill_outcome(false, "\tkill: denied \r\n"), Err("kill: denied".to_string()));
}

#[test]
fn trim_matches_std() {
    for s in ["  a b  ", "\u{3000}x\u{00A0}", "", "   ", "\t\r\nz"] {
        assert_eq!(trim(s), s.trim());
    }
}

#[test]
fn lines_match_std() {
    for s in ["a\nb", "a\r\nb\r\n", "", "\n", "x\r", "one\n\ntwo\n"] {
        let ours = split_lines(s);
        let std: Vec<String> = s.lines().map(|l| l.to_string()).collect();
        assert_eq!(ours, std, "input {:?}", s);
    }
}

#[test]
fn parse_u32_matches_std() {
    for s in ["0", "42", "+7", "4294967295", "4294967296", "", "+", "-1", "12a", "00012"] {
        assert_eq!(parse_u32(s), s.parse::<u32>().ok(), "input {:?}", s);
    }
}

#[test]
fn tcp_lines_and_last_word() {
    assert!(is_tcp_line("  TCP".trim()));
    assert!(is_tcp_line("tcp 1.2.3.4"));
    assert!(!is_tcp_line("UDP"));
    assert!(!is_tcp_line("TC"));
    assert_eq!(last_word("  TCP  a  b  4242  "), Some("4242".to_string()));
    assert_eq!(last_word("   "), None);
}

#[test]
fn netstat_pid_lookup() {
    let text = "\r\nActive Connections\r\n\r\n  Proto  Local Address          Foreign Address        State           PID\r\n  TCP    0.0.0.0:135            0.0.0.0:0              LISTENING       1000\r\n  TCP    127.0.0.1:9050         0.0.0.0:0              LISTENING       4242\r\n";
    // lines start with spaces, so the TCP check fails for them: nothing found
    assert_eq!(netstat_owner_pid(text, 9050), None);
    let text = "TCP    0.0.0.0:135     0.0.0.0:0   LISTENING   1000\r\nTCP    127.0.0.1:9050  0.0.0.0:0   LISTENING   4242\r\n";
    assert_eq!(netstat_owner_pid(text, 9050), Some(4242));
    assert_eq!(netstat_owner_pid(text, 9051), None);
    let text = "tcp 127.0.0.1:9050 x LISTENING\n";
    assert_eq!(netstat_owner_pid(text, 9050), None);
}

#[test]
fn decimal_texts() {
    assert_eq!(decimal(0), "0");
    assert_eq!(decimal(9050), "9050");
    assert_eq!(decimal(u64::MAX), u64::MAX.to_string());
    assert_eq!(signed_decimal(-42), "-42");
    assert_eq!(signed_decimal(i64::MIN), i64::MIN.to_string());
}

#[test]
fn tool_output_read_from_bytes() {
    // fuser: stderr that is not UTF-8 counts as empty
    assert_eq!(fuser_report(false, b"\xff\xfe busy"), Ok(()));
    assert_eq!(fuser_report(false, b" Cannot stat\n"), Err("fuser: Cannot stat".to_string()));
    assert_eq!(fuser_report(true, b"whatever"), Ok(()));
    // kill: stderr decoded lossily
    assert_eq!(kill_report(false, b" denied\n"), Err("denied".to_string()));
    assert_eq!(kill_report(false, b"bad \xff"), Err("bad \u{FFFD}".to_string()));
    assert_eq!(kill_report(true, b"\xff"), Ok(()));
    // netstat: stdout decoded lossily
    let text: &[u8] = b"TCP    127.0.0.1:9050   0.0.0.0:0   LISTENING   4242\r\n\xff";
    assert_eq!(netstat_owner_in(text, 9050), Some(4242));
    assert_eq!(netstat_owner_in(b"\xff\xfe", 9050), None);
}
