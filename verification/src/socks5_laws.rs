//! What the SOCKS5 session does with whole client messages: a well-formed
//! CONNECT request is forwarded to the host and port it names, the page
//! host that stands for "open a new tab" is answered locally, and malformed
//! greetings are refused as the protocol requires.

use vstd::prelude::*;
use vstd::utf8::{decode_utf8, valid_utf8};
use crate::socks5::{
    drive, method_selection, new_window_host, port_from_bytes, NextModel, PhaseModel, ATYP_DOMAIN,
    ATYP_IPV4, CMD_CONNECT, METHOD_NO_AUTH, METHOD_NONE_ACCEPTABLE, SOCKS_VERSION, dotted_quad,
    reply_message, Socks5Error, REP_SUCCEEDED, REP_COMMAND_NOT_SUPPORTED, ATYP_IPV6, on_connect_spec,
    StepModel,
};
use crate::text::{decimal, digits_value, is_canonical_numeral, lemma_decimal_reads_back};

verus! {

/// The greeting a client sends: version, number of methods, the methods.
pub open spec fn greeting_bytes(methods: Seq<u8>) -> Seq<u8> {
    seq![SOCKS_VERSION, methods.len() as u8] + methods
}

/// A port in network (big-endian) order.
pub open spec fn port_bytes(port: u16) -> Seq<u8> {
    seq![(port / 256) as u8, (port % 256) as u8]
}

/// A CONNECT request for a domain name.
pub open spec fn domain_request_bytes(domain: Seq<u8>, port: u16) -> Seq<u8> {
    seq![SOCKS_VERSION, CMD_CONNECT, 0u8, ATYP_DOMAIN, domain.len() as u8] + domain + port_bytes(port)
}

/// A CONNECT request for an IPv4 address.
pub open spec fn ipv4_request_bytes(ip: Seq<u8>, port: u16) -> Seq<u8> {
    seq![SOCKS_VERSION, CMD_CONNECT, 0u8, ATYP_IPV4] + ip + port_bytes(port)
}

/// Reading a port back from its two bytes gives the port.
pub proof fn lemma_port_roundtrip(port: u16)
    ensures
        port_from_bytes(port_bytes(port)) == port,
{
}

/// A client that offers "no authentication" and asks to CONNECT to a domain
/// name is told that no authentication is needed and is then forwarded to
/// exactly that name and port, with nothing left unread, unless the name is
/// the new-tab host.
pub proof fn lemma_domain_request_connects(methods: Seq<u8>, domain: Seq<u8>, port: u16)
    requires
        methods.len() <= 255,
        methods.contains(METHOD_NO_AUTH),
        domain.len() <= 255,
        valid_utf8(domain),
        decode_utf8(domain) != "newwindow.local"@,
    ensures
        drive(
            PhaseModel::Greeting,
            NextModel::Read(2),
            greeting_bytes(methods) + domain_request_bytes(domain, port),
            8,
        ) == (
            PhaseModel::Connecting { host: decode_utf8(domain), port: port },
            seq![method_selection(METHOD_NO_AUTH)],
            NextModel::Connect { host: decode_utf8(domain), port: port },
            Seq::<u8>::empty(),
        ),
{
    let n = methods.len();
    let d = domain.len();
    let s0 = greeting_bytes(methods) + domain_request_bytes(domain, port);
    let s1 = s0.skip(2);
    let s2 = s1.skip(n as int);
    let s3 = s2.skip(4);
    let s4 = s3.skip(1);
    let s5 = s4.skip(d as int);
    let s6 = s5.skip(2);
    assert(s0.take(2) =~= seq![SOCKS_VERSION, n as u8]);
    assert(s1.take(n as int) =~= methods);
    assert(s2.take(4) =~= seq![SOCKS_VERSION, CMD_CONNECT, 0u8, ATYP_DOMAIN]);
    assert(s3.take(1) =~= seq![d as u8]);
    assert(s4.take(d as int) =~= domain);
    assert(s5.take(2) =~= port_bytes(port));
    assert(s6 =~= Seq::<u8>::empty());
    lemma_port_roundtrip(port);
    reveal_with_fuel(drive, 8);
    assert(seq![method_selection(METHOD_NO_AUTH)] =~= seq![method_selection(METHOD_NO_AUTH)] + Seq::<Seq<u8>>::empty());
}

/// A client that asks to CONNECT to an IPv4 address is forwarded to the
/// dotted-decimal text of that address and to that port.
pub proof fn lemma_ipv4_request_connects(methods: Seq<u8>, ip: Seq<u8>, port: u16)
    requires
        methods.len() <= 255,
        methods.contains(METHOD_NO_AUTH),
        ip.len() == 4,
    ensures
        drive(
            PhaseModel::Greeting,
            NextModel::Read(2),
            greeting_bytes(methods) + ipv4_request_bytes(ip, port),
            8,
        ) == (
            PhaseModel::Connecting { host: dotted_quad(ip), port: port },
            seq![method_selection(METHOD_NO_AUTH)],
            NextModel::Connect { host: dotted_quad(ip), port: port },
            Seq::<u8>::empty(),
        ),
{
    let n = methods.len();
    let s0 = greeting_bytes(methods) + ipv4_request_bytes(ip, port);
    let s1 = s0.skip(2);
    let s2 = s1.skip(n as int);
    let s3 = s2.skip(4);
    let s4 = s3.skip(4);
    let s5 = s4.skip(2);
    assert(s0.take(2) =~= seq![SOCKS_VERSION, n as u8]);
    assert(s1.take(n as int) =~= methods);
    assert(s2.take(4) =~= seq![SOCKS_VERSION, CMD_CONNECT, 0u8, ATYP_IPV4]);
    assert(s3.take(4) =~= ip);
    assert(s4.take(2) =~= port_bytes(port));
    assert(s5 =~= Seq::<u8>::empty());
    lemma_port_roundtrip(port);
    let host = dotted_quad(ip);
    assert(host != new_window_host()) by {
        reveal_strlit("newwindow.local");
        crate::text::lemma_decimal_digits(ip[0] as nat);
        crate::text::lemma_decimal_digits(ip[1] as nat);
        if host == new_window_host() {
            assert(host[0] == 'n');
            assert(crate::text::is_digit(host[0]));
        }
    }
    reveal_with_fuel(drive, 8);
    assert(seq![method_selection(METHOD_NO_AUTH)] =~= seq![method_selection(METHOD_NO_AUTH)] + Seq::<Seq<u8>>::empty());
}

/// A request for the new-tab host is answered with success and the session
/// ends well, without any Tor stream being opened.
pub proof fn lemma_new_tab_host_answered_locally(methods: Seq<u8>, domain: Seq<u8>, port: u16)
    requires
        methods.len() <= 255,
        methods.contains(METHOD_NO_AUTH),
        domain.len() <= 255,
        valid_utf8(domain),
        decode_utf8(domain) == "newwindow.local"@,
    ensures
        drive(
            PhaseModel::Greeting,
            NextModel::Read(2),
            greeting_bytes(methods) + domain_request_bytes(domain, port),
            8,
        ) == (
            PhaseModel::Closed,
            seq![method_selection(METHOD_NO_AUTH), reply_message(REP_SUCCEEDED)],
            NextModel::Finish(Ok(())),
            Seq::<u8>::empty(),
        ),
{
    let n = methods.len();
    let d = domain.len();
    let s0 = greeting_bytes(methods) + domain_request_bytes(domain, port);
    let s1 = s0.skip(2);
    let s2 = s1.skip(n as int);
    let s3 = s2.skip(4);
    let s4 = s3.skip(1);
    let s5 = s4.skip(d as int);
    let s6 = s5.skip(2);
    assert(s0.take(2) =~= seq![SOCKS_VERSION, n as u8]);
    assert(s1.take(n as int) =~= methods);
    assert(s2.take(4) =~= seq![SOCKS_VERSION, CMD_CONNECT, 0u8, ATYP_DOMAIN]);
    assert(s3.take(1) =~= seq![d as u8]);
    assert(s4.take(d as int) =~= domain);
    assert(s5.take(2) =~= port_bytes(port));
    assert(s6 =~= Seq::<u8>::empty());
    reveal_with_fuel(drive, 8);
    assert(seq![method_selection(METHOD_NO_AUTH), reply_message(REP_SUCCEEDED)] =~= seq![
        method_selection(METHOD_NO_AUTH),
    ] + (seq![reply_message(REP_SUCCEEDED)] + Seq::<Seq<u8>>::empty()));
}

/// A greeting whose version byte is not 5 ends the session with
/// `InvalidVersion` before anything is written back.
pub proof fn lemma_wrong_version_refused(input: Seq<u8>)
    requires
        input.len() >= 2,
        input[0] != SOCKS_VERSION,
    ensures
        drive(PhaseModel::Greeting, NextModel::Read(2), input, 8) == (
            PhaseModel::Closed,
            Seq::<Seq<u8>>::empty(),
            NextModel::Finish(Err(Socks5Error::InvalidVersion)),
            input.skip(2),
        ),
{
    reveal_with_fuel(drive, 2);
    assert(input.take(2)[0] == input[0]);
    assert(Seq::<Seq<u8>>::empty() =~= Seq::<Seq<u8>>::empty() + Seq::<Seq<u8>>::empty());
}

/// A client that does not offer "no authentication" is told that no method
/// is acceptable and the session ends with `NoAcceptableAuth`.
pub proof fn lemma_no_acceptable_method_refused(methods: Seq<u8>, rest: Seq<u8>)
    requires
        methods.len() <= 255,
        !methods.contains(METHOD_NO_AUTH),
    ensures
        drive(PhaseModel::Greeting, NextModel::Read(2), greeting_bytes(methods) + rest, 8) == (
            PhaseModel::Closed,
            seq![method_selection(METHOD_NONE_ACCEPTABLE)],
            NextModel::Finish(Err(Socks5Error::NoAcceptableAuth)),
            rest,
        ),
{
    let n = methods.len();
    let s0 = greeting_bytes(methods) + rest;
    let s1 = s0.skip(2);
    assert(s0.take(2) =~= seq![SOCKS_VERSION, n as u8]);
    assert(s1.take(n as int) =~= methods);
    assert(s1.skip(n as int) =~= rest);
    reveal_with_fuel(drive, 3);
    assert(seq![method_selection(METHOD_NONE_ACCEPTABLE)] =~= seq![method_selection(METHOD_NONE_ACCEPTABLE)] + Seq::<Seq<u8>>::empty());
}

/// A request for any command other than CONNECT is answered with "command
/// not supported" and the session ends with `UnsupportedCommand`.
pub proof fn lemma_other_command_refused(methods: Seq<u8>, cmd: u8, rsv: u8, atyp: u8, rest: Seq<u8>)
    requires
        methods.len() <= 255,
        methods.contains(METHOD_NO_AUTH),
        cmd != CMD_CONNECT,
    ensures
        drive(
            PhaseModel::Greeting,
            NextModel::Read(2),
            greeting_bytes(methods) + seq![SOCKS_VERSION, cmd, rsv, atyp] + rest,
            8,
        ) == (
            PhaseModel::Closed,
            seq![method_selection(METHOD_NO_AUTH), reply_message(REP_COMMAND_NOT_SUPPORTED)],
            NextModel::Finish(Err(Socks5Error::UnsupportedCommand)),
            rest,
        ),
{
    let n = methods.len();
    let s0 = greeting_bytes(methods) + seq![SOCKS_VERSION, cmd, rsv, atyp] + rest;
    let s1 = s0.skip(2);
    let s2 = s1.skip(n as int);
    assert(s0.take(2) =~= seq![SOCKS_VERSION, n as u8]);
    assert(s1.take(n as int) =~= methods);
    assert(s2.take(4) =~= seq![SOCKS_VERSION, cmd, rsv, atyp]);
    assert(s2.skip(4) =~= rest);
    reveal_with_fuel(drive, 4);
    assert(seq![method_selection(METHOD_NO_AUTH), reply_message(REP_COMMAND_NOT_SUPPORTED)] =~= seq![
        method_selection(METHOD_NO_AUTH),
    ] + (seq![reply_message(REP_COMMAND_NOT_SUPPORTED)] + Seq::<Seq<u8>>::empty()));
}

/// A request for an IPv6 address hands the sixteen address bytes out to be
/// formatted, and waits for their text before reading the port.
pub proof fn lemma_ipv6_request_asks_for_text(methods: Seq<u8>, ip: Seq<u8>, rest: Seq<u8>)
    requires
        methods.len() <= 255,
        methods.contains(METHOD_NO_AUTH),
        ip.len() == 16,
    ensures
        drive(
            PhaseModel::Greeting,
            NextModel::Read(2),
            greeting_bytes(methods) + seq![SOCKS_VERSION, CMD_CONNECT, 0u8, ATYP_IPV6] + ip + rest,
            8,
        ) == (
            PhaseModel::Ipv6Text,
            seq![method_selection(METHOD_NO_AUTH)],
            NextModel::FormatIpv6(ip),
            rest,
        ),
{
    let n = methods.len();
    let s0 = greeting_bytes(methods) + seq![SOCKS_VERSION, CMD_CONNECT, 0u8, ATYP_IPV6] + ip + rest;
    let s1 = s0.skip(2);
    let s2 = s1.skip(n as int);
    let s3 = s2.skip(4);
    assert(s0.take(2) =~= seq![SOCKS_VERSION, n as u8]);
    assert(s1.take(n as int) =~= methods);
    assert(s2.take(4) =~= seq![SOCKS_VERSION, CMD_CONNECT, 0u8, ATYP_IPV6]);
    assert(s3.take(16) =~= ip);
    assert(s3.skip(16) =~= rest);
    reveal_with_fuel(drive, 5);
    assert(seq![method_selection(METHOD_NO_AUTH)] =~= seq![method_selection(METHOD_NO_AUTH)] + Seq::<Seq<u8>>::empty());
}

/// The host text of an IPv4 address is four canonical decimal numerals
/// joined by dots, and reading each numeral back gives the address byte in
/// that place: the text names exactly the address the client asked for.
pub proof fn lemma_ipv4_text_reads_back(ip: Seq<u8>)
    requires
        ip.len() == 4,
    ensures
        exists|a: Seq<char>, b: Seq<char>, c: Seq<char>, d: Seq<char>|
            #![trigger is_canonical_numeral(a), is_canonical_numeral(b), is_canonical_numeral(c), is_canonical_numeral(d)]
            {
                &&& is_canonical_numeral(a) && is_canonical_numeral(b)
                &&& is_canonical_numeral(c) && is_canonical_numeral(d)
                &&& digits_value(a) == ip[0] as int && digits_value(b) == ip[1] as int
                &&& digits_value(c) == ip[2] as int && digits_value(d) == ip[3] as int
                &&& dotted_quad(ip) == a + seq!['.'] + b + seq!['.'] + c + seq!['.'] + d
            },
{
    let a = decimal(ip[0] as nat);
    let b = decimal(ip[1] as nat);
    let c = decimal(ip[2] as nat);
    let d = decimal(ip[3] as nat);
    lemma_decimal_reads_back(ip[0] as nat);
    lemma_decimal_reads_back(ip[1] as nat);
    lemma_decimal_reads_back(ip[2] as nat);
    lemma_decimal_reads_back(ip[3] as nat);
    assert(is_canonical_numeral(a) && is_canonical_numeral(b) && is_canonical_numeral(c) && is_canonical_numeral(d));
}

/// Whatever host and port the session was connecting to, an opened Tor
/// stream is answered with the success reply `[5,0,0,1,0,0,0,0,0,0]`, which
/// must be written, and the bytes are then relayed; a stream that could not
/// be opened is answered with "host unreachable" `[5,4,0,1,0,0,0,0,0,0]`,
/// whose write may fail, and the session ends well. The answer does not
/// depend on the host or the port.
pub proof fn lemma_connect_outcome_answer(host: Seq<char>, port: u16, other_host: Seq<char>, other_port: u16, connected: bool)
    ensures
        on_connect_spec(PhaseModel::Connecting { host, port }, true) == (
            PhaseModel::Relaying,
            StepModel {
                reply: Some(seq![5u8, 0u8, 0u8, 1u8, 0u8, 0u8, 0u8, 0u8, 0u8, 0u8]),
                reply_may_fail: false,
                next: NextModel::Relay,
            },
        ),
        on_connect_spec(PhaseModel::Connecting { host, port }, false) == (
            PhaseModel::Closed,
            StepModel {
                reply: Some(seq![5u8, 4u8, 0u8, 1u8, 0u8, 0u8, 0u8, 0u8, 0u8, 0u8]),
                reply_may_fail: true,
                next: NextModel::Finish(Ok(())),
            },
        ),
        on_connect_spec(PhaseModel::Connecting { host, port }, connected) == on_connect_spec(
            PhaseModel::Connecting { host: other_host, port: other_port },
            connected,
        ),
{
    assert(reply_message(REP_SUCCEEDED) =~= seq![5u8, 0u8, 0u8, 1u8, 0u8, 0u8, 0u8, 0u8, 0u8, 0u8]);
    assert(reply_message(4) =~= seq![5u8, 4u8, 0u8, 1u8, 0u8, 0u8, 0u8, 0u8, 0u8, 0u8]);
}

/// The two kinds of message the proxy writes: a method selection is the
/// version byte 5 and the method; a reply is 5, the code, a zero byte, the
/// IPv4 address type 1 and six zero bytes of bound address and port.
pub proof fn lemma_message_layout(m: u8, code: u8)
    ensures
        method_selection(m) == seq![5u8, m],
        reply_message(code) == seq![5u8, code, 0u8, 1u8, 0u8, 0u8, 0u8, 0u8, 0u8, 0u8],
{
    assert(method_selection(m) =~= seq![5u8, m]);
    assert(reply_message(code) =~= seq![5u8, code, 0u8, 1u8, 0u8, 0u8, 0u8, 0u8, 0u8, 0u8]);
}

} // verus!
