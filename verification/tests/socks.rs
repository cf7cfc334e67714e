use qxchat::tor::socks::{
    bytes_needed, read_failure, reply, socks_step, SocksError, SocksHost, SocksPhase, SocksStep,
    REPLY_ADDRESS_TYPE_NOT_SUPPORTED, REPLY_COMMAND_NOT_SUPPORTED, REPLY_CONNECTION_REFUSED,
    REPLY_SUCCEEDED,
};

/// Runs the handshake over `stream`, returning the replies written and the end.
fn run(stream: &[u8]) -> (Vec<Vec<u8>>, Option<SocksStep>) {
    let mut phase = SocksPhase::Greeting;
    let mut pos = 0;
    let mut replies = Vec::new();
    loop {
        let n = bytes_needed(&phase);
        if pos + n > stream.len() {
            return (replies, None);
        }
        match socks_step(phase, &stream[pos..pos + n]) {
            SocksStep::Read { next, reply } => {
                if let Some(r) = reply {
                    replies.push(r);
                }
                phase = next;
                pos += n;
            }
            end => return (replies, Some(end)),
        }
    }
}

#[test]
fn ipv4_connect_handshake() {
    let (replies, end) = run(&[5, 1, 0, 5, 1, 0, 1, 93, 184, 216, 34, 0x01, 0xBB]);
    assert_eq!(replies, vec![vec![5, 0]]);
    match end {
        Some(SocksStep::Connect { host, port }) => {
            assert_eq!(port, 443);
            assert_eq!(host.text(), "93.184.216.34");
        }
        _ => panic!("expected connect"),
    }
}

#[test]
fn domain_connect_handshake() {
    let mut bytes = vec![5, 2, 0, 2, 5, 1, 0, 3, 11];
    bytes.extend_from_slice(b"example.org");
    bytes.extend_from_slice(&[0x00, 0x50]);
    let (replies, end) = run(&bytes);
    assert_eq!(replies, vec![vec![5, 0]]);
    match end {
        Some(SocksStep::Connect { host: SocksHost::Domain(d), port }) => {
            assert_eq!(d, b"example.org".to_vec());
            assert_eq!(port, 80);
            assert_eq!(SocksHost::Domain(d).text(), "example.org");
        }
        _ => panic!("expected connect"),
    }
}

#[test]
fn zero_methods_still_gets_method_reply() {
    let (replies, end) = run(&[5, 0, 5, 1, 0, 1, 127, 0, 0, 1, 0x23, 0x82]);
    assert_eq!(replies, vec![vec![5, 0]]);
    assert!(matches!(end, Some(SocksStep::Connect { port: 9090, .. })));
}

#[test]
fn refusals_and_replies() {
    let (_, end) = run(&[4, 1]);
    assert!(matches!(end, Some(SocksStep::Fail { error: SocksError::NotSocks5, reply: None })));
    let (_, end) = run(&[5, 1, 0, 5, 2, 0, 1]);
    match end {
        Some(SocksStep::Fail { error, reply: Some(r) }) => {
            assert_eq!(error, SocksError::UnsupportedCommand);
            assert_eq!(r, vec![5, 7, 0, 1, 0, 0, 0, 0, 0, 0]);
            assert_eq!(error.message(), "unsupported command");
        }
        _ => panic!("expected failure"),
    }
    let (_, end) = run(&[5, 1, 0, 5, 1, 0, 4]);
    match end {
        Some(SocksStep::Fail { error, reply: Some(r) }) => {
            assert_eq!(error, SocksError::UnsupportedAddressType);
            assert_eq!(r, vec![5, 8, 0, 1, 0, 0, 0, 0, 0, 0]);
            assert_eq!(error.message(), "unsupported address type");
        }
        _ => panic!("expected failure"),
    }
    assert_eq!(SocksError::NotSocks5.message(), "not socks5");
}

#[test]
fn truncated_stream_does_not_finish() {
    let (_, end) = run(&[5, 1, 0, 5, 1, 0, 1, 10, 0]);
    assert!(end.is_none());
}

#[test]
fn reply_codes() {
    assert_eq!(reply(REPLY_SUCCEEDED), vec![5, 0, 0, 1, 0, 0, 0, 0, 0, 0]);
    assert_eq!(reply(REPLY_CONNECTION_REFUSED), vec![5, 5, 0, 1, 0, 0, 0, 0, 0, 0]);
    assert_eq!(REPLY_COMMAND_NOT_SUPPORTED, 7);
    assert_eq!(REPLY_ADDRESS_TYPE_NOT_SUPPORTED, 8);
}

#[test]
fn read_failure_texts() {
    assert_eq!(read_failure(&SocksPhase::Greeting), "read greeting");
    assert_eq!(read_failure(&SocksPhase::Methods(1)), "read methods");
    assert_eq!(read_failure(&SocksPhase::Request), "read request");
    assert_eq!(read_failure(&SocksPhase::Ipv4Addr), "read ipv4");
    assert_eq!(read_failure(&SocksPhase::Ipv4Port(1, 2, 3, 4)), "read ipv4 port");
    assert_eq!(read_failure(&SocksPhase::DomainLen), "read domain len");
    assert_eq!(read_failure(&SocksPhase::Domain(3)), "read domain");
    assert_eq!(read_failure(&SocksPhase::DomainPort(vec![])), "read domain port");
}

#[test]
fn invalid_utf8_domain_is_replaced() {
    let host = SocksHost::Domain(vec![b'a', 0xFF, b'b']);
    assert_eq!(host.text(), "a\u{FFFD}b");
    assert_eq!(SocksHost::Ipv4(0, 0, 0, 0).text(), "0.0.0.0");
    assert_eq!(SocksHost::Ipv4(255, 10, 100, 9).text(), "255.10.100.9");
}
