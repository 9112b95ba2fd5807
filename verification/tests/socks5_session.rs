use torlite::socks5::{format_ipv4, Socks5Error, Socks5Next, Socks5Session, Socks5Step};

fn success_reply() -> Vec<u8> {
    vec![5, 0, 0, 1, 0, 0, 0, 0, 0, 0]
}

/// Feeds `input` to the session, chunk by chunk as it asks, until it asks for
/// something other than bytes; returns the replies written and the last step.
fn feed(session: &mut Socks5Session, first: Socks5Step, input: &[u8]) -> (Vec<Vec<u8>>, Socks5Step) {
    let mut replies = Vec::new();
    let mut step = first;
    let mut pos = 0;
    loop {
        if let Some(r) = step.reply.take() {
            replies.push(r);
        }
        match step.next {
            Socks5Next::Read(n) => {
                assert!(pos + n <= input.len(), "session asked for more bytes than given");
                assert_eq!(session.wanted(), Some(n));
                let chunk = &input[pos..pos + n];
                pos += n;
                step = session.on_bytes(chunk);
            }
            _ => {
                assert_eq!(pos, input.len(), "bytes left unread");
                return (replies, step);
            }
        }
    }
}

#[test]
fn domain_connect_request_is_forwarded() {
    let (mut s, first) = Socks5Session::start();
    let mut input = vec![5, 1, 0, 5, 1, 0, 3, 11];
    input.extend_from_slice(b"example.com");
    input.extend_from_slice(&[0x01, 0xBB]);
    let (replies, step) = feed(&mut s, first, &input);
    assert_eq!(replies, vec![vec![5, 0]]);
    match step.next {
        Socks5Next::Connect { host, port } => {
            assert_eq!(host, "example.com");
            assert_eq!(port, 443);
        }
        _ => panic!("expected a connect step"),
    }
    let done = s.on_connect_result(true);
    assert_eq!(done.reply, Some(success_reply()));
    assert!(!done.reply_may_fail);
    assert!(matches!(done.next, Socks5Next::Relay));
}

#[test]
fn failed_tor_connection_is_reported_and_ends_well() {
    let (mut s, first) = Socks5Session::start();
    let mut input = vec![5, 2, 2, 0, 5, 1, 0, 3, 3];
    input.extend_from_slice(b"a.b");
    input.extend_from_slice(&[0, 80]);
    let (_, step) = feed(&mut s, first, &input);
    assert!(matches!(step.next, Socks5Next::Connect { port: 80, .. }));
    let done = s.on_connect_result(false);
    assert_eq!(done.reply, Some(vec![5, 4, 0, 1, 0, 0, 0, 0, 0, 0]));
    assert!(done.reply_may_fail);
    assert!(matches!(done.next, Socks5Next::Finish(Ok(()))));
}

#[test]
fn ipv4_request_is_forwarded_to_dotted_address() {
    let (mut s, first) = Socks5Session::start();
    let input = vec![5, 1, 0, 5, 1, 0, 1, 192, 168, 0, 1, 0x1F, 0x90];
    let (replies, step) = feed(&mut s, first, &input);
    assert_eq!(replies, vec![vec![5, 0]]);
    match step.next {
        Socks5Next::Connect { host, port } => {
            assert_eq!(host, "192.168.0.1");
            assert_eq!(port, 8080);
        }
        _ => panic!("expected a connect step"),
    }
}

#[test]
fn ipv6_request_waits_for_address_text() {
    let (mut s, first) = Socks5Session::start();
    let mut ip = [0u8; 16];
    ip[15] = 1;
    let mut input = vec![5, 1, 0, 5, 1, 0, 4];
    input.extend_from_slice(&ip);
    let (replies, step) = feed(&mut s, first, &input);
    assert_eq!(replies, vec![vec![5, 0]]);
    match step.next {
        Socks5Next::FormatIpv6(bytes) => assert_eq!(bytes, ip.to_vec()),
        _ => panic!("expected a format step"),
    }
    assert_eq!(s.wanted(), None);
    let next = s.on_host_text("::1".to_string());
    assert!(matches!(next.next, Socks5Next::Read(2)));
    let step = s.on_bytes(&[0, 22]);
    match step.next {
        Socks5Next::Connect { host, port } => {
            assert_eq!(host, "::1");
            assert_eq!(port, 22);
        }
        _ => panic!("expected a connect step"),
    }
}

#[test]
fn new_tab_host_is_answered_locally() {
    let (mut s, first) = Socks5Session::start();
    let mut input = vec![5, 1, 0, 5, 1, 0, 3, 15];
    input.extend_from_slice(b"newwindow.local");
    input.extend_from_slice(&[0, 80]);
    let (replies, step) = feed(&mut s, first, &input);
    assert_eq!(replies, vec![vec![5, 0], success_reply()]);
    assert!(step.reply_may_fail || step.reply.is_none());
    assert!(matches!(step.next, Socks5Next::Finish(Ok(()))));
}

#[test]
fn new_tab_reply_write_failure_is_ignored() {
    let (mut s, _) = Socks5Session::start();
    s.on_bytes(&[5, 1]);
    s.on_bytes(&[0]);
    s.on_bytes(&[5, 1, 0, 3]);
    s.on_bytes(&[15]);
    s.on_bytes(b"newwindow.local");
    let step = s.on_bytes(&[0, 80]);
    assert_eq!(step.reply, Some(success_reply()));
    assert!(step.reply_may_fail);
}

#[test]
fn wrong_greeting_version_is_refused_silently() {
    let (mut s, first) = Socks5Session::start();
    let (replies, step) = feed(&mut s, first, &[4, 1]);
    assert!(replies.is_empty());
    assert!(matches!(step.next, Socks5Next::Finish(Err(Socks5Error::InvalidVersion))));
}

#[test]
fn missing_no_auth_method_is_refused() {
    let (mut s, first) = Socks5Session::start();
    let (replies, step) = feed(&mut s, first, &[5, 2, 1, 2]);
    assert_eq!(replies, vec![vec![5, 0xFF]]);
    assert!(matches!(step.next, Socks5Next::Finish(Err(Socks5Error::NoAcceptableAuth))));
}

#[test]
fn empty_method_list_is_refused() {
    let (mut s, first) = Socks5Session::start();
    let (replies, step) = feed(&mut s, first, &[5, 0]);
    assert_eq!(replies, vec![vec![5, 0xFF]]);
    assert!(matches!(step.next, Socks5Next::Finish(Err(Socks5Error::NoAcceptableAuth))));
}

#[test]
fn wrong_request_version_is_refused_silently() {
    let (mut s, first) = Socks5Session::start();
    let (replies, step) = feed(&mut s, first, &[5, 1, 0, 4, 1, 0, 3]);
    assert_eq!(replies, vec![vec![5, 0]]);
    assert!(matches!(step.next, Socks5Next::Finish(Err(Socks5Error::InvalidRequestVersion))));
}

#[test]
fn bind_command_is_refused() {
    let (mut s, first) = Socks5Session::start();
    let (replies, step) = feed(&mut s, first, &[5, 1, 0, 5, 2, 0, 1]);
    assert_eq!(replies, vec![vec![5, 0], vec![5, 7, 0, 1, 0, 0, 0, 0, 0, 0]]);
    assert!(matches!(step.next, Socks5Next::Finish(Err(Socks5Error::UnsupportedCommand))));
}

#[test]
fn unknown_address_type_is_refused() {
    let (mut s, first) = Socks5Session::start();
    let (replies, step) = feed(&mut s, first, &[5, 1, 0, 5, 1, 0, 2]);
    assert_eq!(replies, vec![vec![5, 0], vec![5, 8, 0, 1, 0, 0, 0, 0, 0, 0]]);
    assert!(matches!(step.next, Socks5Next::Finish(Err(Socks5Error::UnsupportedAddressType))));
}

#[test]
fn invalid_utf8_domain_is_refused() {
    let (mut s, first) = Socks5Session::start();
    let (replies, step) = feed(&mut s, first, &[5, 1, 0, 5, 1, 0, 3, 2, 0xFF, 0xFE]);
    assert_eq!(replies, vec![vec![5, 0]]);
    assert!(matches!(step.next, Socks5Next::Finish(Err(Socks5Error::InvalidDomain))));
}

#[test]
fn utf8_domain_is_decoded() {
    let (mut s, first) = Socks5Session::start();
    let name = "bücher.de";
    let mut input = vec![5, 1, 0, 5, 1, 0, 3, name.len() as u8];
    input.extend_from_slice(name.as_bytes());
    input.extend_from_slice(&[0, 80]);
    let (_, step) = feed(&mut s, first, &input);
    match step.next {
        Socks5Next::Connect { host, .. } => assert_eq!(host, name),
        _ => panic!("expected a connect step"),
    }
}

#[test]
fn error_messages() {
    assert_eq!(Socks5Error::InvalidVersion.message(), "Invalid SOCKS version");
    assert_eq!(Socks5Error::NoAcceptableAuth.message(), "No acceptable auth methods");
    assert_eq!(Socks5Error::InvalidRequestVersion.message(), "Invalid SOCKS version in request");
    assert_eq!(Socks5Error::UnsupportedCommand.message(), "Unsupported SOCKS command");
    assert_eq!(Socks5Error::InvalidDomain.message(), "Invalid UTF-8 domain");
    assert_eq!(Socks5Error::UnsupportedAddressType.message(), "Unsupported address type");
}

#[test]
fn ipv4_text() {
    assert_eq!(format_ipv4(&[0, 0, 0, 0]), "0.0.0.0");
    assert_eq!(format_ipv4(&[255, 10, 1, 100]), "255.10.1.100");
    assert_eq!(format_ipv4(&[127, 0, 0, 1]), "127.0.0.1");
}

#[test]
fn wanted_follows_phase() {
    let (mut s, _) = Socks5Session::start();
    assert_eq!(s.wanted(), Some(2));
    s.on_bytes(&[5, 3]);
    assert_eq!(s.wanted(), Some(3));
    s.on_bytes(&[1, 2, 0]);
    assert_eq!(s.wanted(), Some(4));
    s.on_bytes(&[5, 1, 0, 3]);
    assert_eq!(s.wanted(), Some(1));
    s.on_bytes(&[7]);
    assert_eq!(s.wanted(), Some(7));
}
