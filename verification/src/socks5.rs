//! The SOCKS5 handshake spoken by the local proxy that routes the browser's
//! traffic into Tor, written as a state machine: the proxy loop reads the
//! bytes that a step asks for, hands them to the session, writes the reply
//! the session produces, and performs the outside work (formatting an IPv6
//! address, opening a Tor stream, relaying) that the step names.

use vstd::prelude::*;
use vstd::utf8::{decode_utf8, valid_utf8};
use crate::text::{decimal, push_decimal};

verus! {

/// Protocol version byte of SOCKS5.
pub const SOCKS_VERSION: u8 = 5;
/// Authentication method "no authentication required".
pub const METHOD_NO_AUTH: u8 = 0;
/// Method-selection answer "no acceptable methods".
pub const METHOD_NONE_ACCEPTABLE: u8 = 0xFF;
/// Request command CONNECT.
pub const CMD_CONNECT: u8 = 1;
/// Address type: IPv4 address.
pub const ATYP_IPV4: u8 = 1;
/// Address type: domain name.
pub const ATYP_DOMAIN: u8 = 3;
/// Address type: IPv6 address.
pub const ATYP_IPV6: u8 = 4;
/// Reply code: succeeded.
pub const REP_SUCCEEDED: u8 = 0;
/// Reply code: host unreachable.
pub const REP_HOST_UNREACHABLE: u8 = 4;
/// Reply code: command not supported.
pub const REP_COMMAND_NOT_SUPPORTED: u8 = 7;
/// Reply code: address type not supported.
pub const REP_ADDRESS_TYPE_NOT_SUPPORTED: u8 = 8;

/// Why a SOCKS5 session was refused.
#[derive(Clone, Copy, Debug, PartialEq, Eq, Structural)]
pub enum Socks5Error {
    InvalidVersion,
    NoAcceptableAuth,
    InvalidRequestVersion,
    UnsupportedCommand,
    InvalidDomain,
    UnsupportedAddressType,
}

/// The text reported for each refusal.
pub open spec fn error_message(e: Socks5Error) -> Seq<char> {
    match e {
        Socks5Error::InvalidVersion => "Invalid SOCKS version"@,
        Socks5Error::NoAcceptableAuth => "No acceptable auth methods"@,
        Socks5Error::InvalidRequestVersion => "Invalid SOCKS version in request"@,
        Socks5Error::UnsupportedCommand => "Unsupported SOCKS command"@,
        Socks5Error::InvalidDomain => "Invalid UTF-8 domain"@,
        Socks5Error::UnsupportedAddressType => "Unsupported address type"@,
    }
}

impl Socks5Error {
    /// The text reported for this refusal.
    pub fn message(&self) -> (m: String)
        ensures
            m@ == error_message(*self),
    {
        match self {
            Socks5Error::InvalidVersion => String::from_str("Invalid SOCKS version"),
            Socks5Error::NoAcceptableAuth => String::from_str("No acceptable auth methods"),
            Socks5Error::InvalidRequestVersion => String::from_str("Invalid SOCKS version in request"),
            Socks5Error::UnsupportedCommand => String::from_str("Unsupported SOCKS command"),
            Socks5Error::InvalidDomain => String::from_str("Invalid UTF-8 domain"),
            Socks5Error::UnsupportedAddressType => String::from_str("Unsupported address type"),
        }
    }
}

/// Where a session stands, in mathematical terms.
pub enum PhaseModel {
    Greeting,
    Methods { count: u8 },
    RequestHeader,
    Ipv4Address,
    DomainLength,
    DomainName { len: u8 },
    Ipv6Address,
    Ipv6Text,
    Port { host: Seq<char> },
    Connecting { host: Seq<char>, port: u16 },
    Relaying,
    Closed,
}

/// What the proxy loop has to do after a step.
pub enum NextModel {
    Read(nat),
    FormatIpv6(Seq<u8>),
    Connect { host: Seq<char>, port: u16 },
    Relay,
    Finish(Result<(), Socks5Error>),
}

/// A step: an optional reply to write to the client, whether a failure to
/// write it is ignored, and what comes next.
pub struct StepModel {
    pub reply: Option<Seq<u8>>,
    pub reply_may_fail: bool,
    pub next: NextModel,
}

/// Where a session stands.
pub enum Socks5Phase {
    Greeting,
    Methods { count: u8 },
    RequestHeader,
    Ipv4Address,
    DomainLength,
    DomainName { len: u8 },
    Ipv6Address,
    Ipv6Text,
    Port { host: String },
    Connecting { host: String, port: u16 },
    Relaying,
    Closed,
}

impl View for Socks5Phase {
    type V = PhaseModel;

    open spec fn view(&self) -> PhaseModel {
        match self {
            Socks5Phase::Greeting => PhaseModel::Greeting,
            Socks5Phase::Methods { count } => PhaseModel::Methods { count: *count },
            Socks5Phase::RequestHeader => PhaseModel::RequestHeader,
            Socks5Phase::Ipv4Address => PhaseModel::Ipv4Address,
            Socks5Phase::DomainLength => PhaseModel::DomainLength,
            Socks5Phase::DomainName { len } => PhaseModel::DomainName { len: *len },
            Socks5Phase::Ipv6Address => PhaseModel::Ipv6Address,
            Socks5Phase::Ipv6Text => PhaseModel::Ipv6Text,
            Socks5Phase::Port { host } => PhaseModel::Port { host: host@ },
            Socks5Phase::Connecting { host, port } => PhaseModel::Connecting { host: host@, port: *port },
            Socks5Phase::Relaying => PhaseModel::Relaying,
            Socks5Phase::Closed => PhaseModel::Closed,
        }
    }
}

/// What the proxy loop has to do next.
pub enum Socks5Next {
    /// Read exactly this many bytes from the client and hand them to `on_bytes`.
    Read(usize),
    /// Render these sixteen bytes as an IPv6 address and hand the text to `on_host_text`.
    FormatIpv6(Vec<u8>),
    /// Open a Tor stream to `host:port` and hand the outcome to `on_connect_result`.
    Connect { host: String, port: u16 },
    /// Copy bytes both ways between the client and the Tor stream; the session ends well.
    Relay,
    /// The session is over, with this outcome.
    Finish(Result<(), Socks5Error>),
}

impl View for Socks5Next {
    type V = NextModel;

    open spec fn view(&self) -> NextModel {
        match self {
            Socks5Next::Read(n) => NextModel::Read(*n as nat),
            Socks5Next::FormatIpv6(b) => NextModel::FormatIpv6(b@),
            Socks5Next::Connect { host, port } => NextModel::Connect { host: host@, port: *port },
            Socks5Next::Relay => NextModel::Relay,
            Socks5Next::Finish(r) => NextModel::Finish(*r),
        }
    }
}

/// One step of a session.
pub struct Socks5Step {
    /// Bytes to write to the client before going on, if any.
    pub reply: Option<Vec<u8>>,
    /// When true a failed write of `reply` is ignored; otherwise it ends the session with that I/O error.
    pub reply_may_fail: bool,
    /// What comes next.
    pub next: Socks5Next,
}

impl View for Socks5Step {
    type V = StepModel;

    open spec fn view(&self) -> StepModel {
        StepModel {
            reply: match self.reply {
                Some(r) => Some(r@),
                None => None,
            },
            reply_may_fail: self.reply_may_fail,
            next: self.next@,
        }
    }
}

/// The method-selection message `[5, method]`.
pub open spec fn method_selection(method: u8) -> Seq<u8> {
    seq![SOCKS_VERSION, method]
}

/// A reply to a request: version, code, reserved byte, and an all-zero IPv4 bound address and port.
pub open spec fn reply_message(code: u8) -> Seq<u8> {
    seq![SOCKS_VERSION, code, 0u8, ATYP_IPV4, 0u8, 0u8, 0u8, 0u8, 0u8, 0u8]
}

/// Every message the proxy sends is a method selection or a ten-byte reply.
pub open spec fn well_formed_reply(r: Seq<u8>) -> bool {
    (exists|m: u8| r == method_selection(m)) || (exists|c: u8| r == reply_message(c))
}

/// The dotted-decimal text of a four-byte IPv4 address.
pub open spec fn dotted_quad(ip: Seq<u8>) -> Seq<char> {
    decimal(ip[0] as nat) + seq!['.'] + decimal(ip[1] as nat) + seq!['.'] + decimal(ip[2] as nat)
        + seq!['.'] + decimal(ip[3] as nat)
}

/// The port carried by two bytes in network (big-endian) order.
pub open spec fn port_from_bytes(b: Seq<u8>) -> u16 {
    (b[0] as int * 256 + b[1] as int) as u16
}

/// The host name by which a page asks for a new tab; requests for it are answered and not forwarded.
pub open spec fn new_window_host() -> Seq<char> {
    "newwindow.local"@
}

/// How many bytes a phase waits for, if it waits for bytes.
pub open spec fn expected_len(p: PhaseModel) -> Option<nat> {
    match p {
        PhaseModel::Greeting => Some(2),
        PhaseModel::Methods { count } => Some(count as nat),
        PhaseModel::RequestHeader => Some(4),
        PhaseModel::Ipv4Address => Some(4),
        PhaseModel::DomainLength => Some(1),
        PhaseModel::DomainName { len } => Some(len as nat),
        PhaseModel::Ipv6Address => Some(16),
        PhaseModel::Port { .. } => Some(2),
        _ => None,
    }
}

/// A step that only asks for `n` more bytes.
pub open spec fn read_step(n: nat) -> StepModel {
    StepModel { reply: None, reply_may_fail: false, next: NextModel::Read(n) }
}

/// A step that ends the session with `e`, after writing `reply` if there is one.
pub open spec fn refuse_step(reply: Option<Seq<u8>>, e: Socks5Error) -> StepModel {
    StepModel { reply: reply, reply_may_fail: false, next: NextModel::Finish(Err(e)) }
}

/// The session's answer to the bytes it asked for.
pub open spec fn on_bytes_spec(p: PhaseModel, b: Seq<u8>) -> (PhaseModel, StepModel) {
    match p {
        PhaseModel::Greeting => {
            if b[0] != SOCKS_VERSION {
                (PhaseModel::Closed, refuse_step(None, Socks5Error::InvalidVersion))
            } else {
                (PhaseModel::Methods { count: b[1] }, read_step(b[1] as nat))
            }
        },
        PhaseModel::Methods { .. } => {
            if b.contains(METHOD_NO_AUTH) {
                (
                    PhaseModel::RequestHeader,
                    StepModel {
                        reply: Some(method_selection(METHOD_NO_AUTH)),
                        reply_may_fail: false,
                        next: NextModel::Read(4),
                    },
                )
            } else {
                (
                    PhaseModel::Closed,
                    refuse_step(Some(method_selection(METHOD_NONE_ACCEPTABLE)), Socks5Error::NoAcceptableAuth),
                )
            }
        },
        PhaseModel::RequestHeader => {
            if b[0] != SOCKS_VERSION {
                (PhaseModel::Closed, refuse_step(None, Socks5Error::InvalidRequestVersion))
            } else if b[1] != CMD_CONNECT {
                (
                    PhaseModel::Closed,
                    refuse_step(Some(reply_message(REP_COMMAND_NOT_SUPPORTED)), Socks5Error::UnsupportedCommand),
                )
            } else if b[3] == ATYP_IPV4 {
                (PhaseModel::Ipv4Address, read_step(4))
            } else if b[3] == ATYP_DOMAIN {
                (PhaseModel::DomainLength, read_step(1))
            } else if b[3] == ATYP_IPV6 {
                (PhaseModel::Ipv6Address, read_step(16))
            } else {
                (
                    PhaseModel::Closed,
                    refuse_step(
                        Some(reply_message(REP_ADDRESS_TYPE_NOT_SUPPORTED)),
                        Socks5Error::UnsupportedAddressType,
                    ),
                )
            }
        },
        PhaseModel::Ipv4Address => (PhaseModel::Port { host: dotted_quad(b) }, read_step(2)),
        PhaseModel::DomainLength => (PhaseModel::DomainName { len: b[0] }, read_step(b[0] as nat)),
        PhaseModel::DomainName { .. } => {
            if valid_utf8(b) {
                (PhaseModel::Port { host: decode_utf8(b) }, read_step(2))
            } else {
                (PhaseModel::Closed, refuse_step(None, Socks5Error::InvalidDomain))
            }
        },
        PhaseModel::Ipv6Address => (
            PhaseModel::Ipv6Text,
            StepModel { reply: None, reply_may_fail: false, next: NextModel::FormatIpv6(b) },
        ),
        PhaseModel::Port { host } => {
            let port = port_from_bytes(b);
            if host == new_window_host() {
                (
                    PhaseModel::Closed,
                    StepModel {
                        reply: Some(reply_message(REP_SUCCEEDED)),
                        reply_may_fail: true,
                        next: NextModel::Finish(Ok(())),
                    },
                )
            } else {
                (
                    PhaseModel::Connecting { host: host, port: port },
                    StepModel {
                        reply: None,
                        reply_may_fail: false,
                        next: NextModel::Connect { host: host, port: port },
                    },
                )
            }
        },
        _ => (p, StepModel { reply: None, reply_may_fail: false, next: NextModel::Finish(Ok(())) }),
    }
}

/// The session's answer to the outcome of opening the Tor stream.
pub open spec fn on_connect_spec(p: PhaseModel, connected: bool) -> (PhaseModel, StepModel) {
    if connected {
        (
            PhaseModel::Relaying,
            StepModel { reply: Some(reply_message(REP_SUCCEEDED)), reply_may_fail: false, next: NextModel::Relay },
        )
    } else {
        (
            PhaseModel::Closed,
            StepModel {
                reply: Some(reply_message(REP_HOST_UNREACHABLE)),
                reply_may_fail: true,
                next: NextModel::Finish(Ok(())),
            },
        )
    }
}

/// The replies of a step, as a list of zero or one message.
pub open spec fn replies_of(s: StepModel) -> Seq<Seq<u8>> {
    match s.reply {
        Some(r) => seq![r],
        None => seq![],
    }
}

/// Feeds `input` to a session in phase `p` whose last step asked for `next`,
/// taking the bytes each step asks for, for at most `fuel` steps. Yields the
/// final phase, the replies written in order, the pending request, and the
/// bytes left over.
pub open spec fn drive(p: PhaseModel, next: NextModel, input: Seq<u8>, fuel: nat) -> (
    PhaseModel,
    Seq<Seq<u8>>,
    NextModel,
    Seq<u8>,
)
    decreases fuel,
{
    if fuel == 0 {
        (p, seq![], next, input)
    } else {
        match next {
            NextModel::Read(n) => {
                if n <= input.len() {
                    let (p2, s) = on_bytes_spec(p, input.take(n as int));
                    let (p3, replies, nx, rest) = drive(p2, s.next, input.skip(n as int), (fuel - 1) as nat);
                    (p3, replies_of(s) + replies, nx, rest)
                } else {
                    (p, seq![], next, input)
                }
            },
            _ => (p, seq![], next, input),
        }
    }
}

/// Decodes UTF-8 bytes into a string (`String::from_utf8`), giving `None` where they are not valid UTF-8.
#[verifier::external_body]
fn string_from_utf8(bytes: Vec<u8>) -> (res: Option<String>)
    ensures
        res is Some <==> valid_utf8(bytes@),
        res matches Some(s) ==> s@ == decode_utf8(bytes@),
{
    String::from_utf8(bytes).ok()
}

/// The dotted-decimal text of an IPv4 address.
pub fn format_ipv4(ip: &[u8]) -> (s: String)
    requires
        ip@.len() == 4,
    ensures
        s@ == dotted_quad(ip@),
{
    let mut s = String::new();
    proof { reveal_strlit("."); }
    push_decimal(&mut s, ip[0] as u32);
    s.append(".");
    push_decimal(&mut s, ip[1] as u32);
    s.append(".");
    push_decimal(&mut s, ip[2] as u32);
    s.append(".");
    push_decimal(&mut s, ip[3] as u32);
    s
}

fn contains_byte(bytes: &[u8], b: u8) -> (r: bool)
    ensures
        r == bytes@.contains(b),
{
    let mut i: usize = 0;
    while i < bytes.len()
        invariant
            i <= bytes@.len(),
            forall|j: int| 0 <= j < i ==> bytes@[j] != b,
        decreases bytes@.len() - i,
    {
        if bytes[i] == b {
            return true;
        }
        i = i + 1;
    }
    false
}

fn is_new_window_host(host: &String) -> (r: bool)
    ensures
        r == (host@ == new_window_host()),
{
    let sentinel = String::from_str("newwindow.local");
    *host == sentinel
}

fn reply(code: u8) -> (v: Vec<u8>)
    ensures
        v@ == reply_message(code),
{
    let v = vec![SOCKS_VERSION, code, 0u8, ATYP_IPV4, 0u8, 0u8, 0u8, 0u8, 0u8, 0u8];
    assert(v@ =~= reply_message(code));
    v
}

fn read(n: usize) -> (s: Socks5Step)
    ensures
        s@ == read_step(n as nat),
{
    Socks5Step { reply: None, reply_may_fail: false, next: Socks5Next::Read(n) }
}

fn refuse(reply: Option<Vec<u8>>, e: Socks5Error) -> (s: Socks5Step)
    ensures
        s@.reply == (match reply { Some(r) => Some(r@), None => None::<Seq<u8>> }),
        s@.reply_may_fail == false,
        s@.next == NextModel::Finish(Err(e)),
{
    Socks5Step { reply: reply, reply_may_fail: false, next: Socks5Next::Finish(Err(e)) }
}

/// One client connection of the SOCKS5 proxy.
pub struct Socks5Session {
    phase: Socks5Phase,
}

impl View for Socks5Session {
    type V = PhaseModel;

    closed spec fn view(&self) -> PhaseModel {
        self.phase@
    }
}

impl Socks5Session {
    /// A fresh session, waiting for the client's greeting, and its first step.
    pub fn start() -> (r: (Socks5Session, Socks5Step))
        ensures
            r.0@ == PhaseModel::Greeting,
            r.1@ == read_step(2),
    {
        (Socks5Session { phase: Socks5Phase::Greeting }, read(2))
    }

    /// How many bytes the session waits for, if it waits for bytes.
    pub fn wanted(&self) -> (n: Option<usize>)
        ensures
            match expected_len(self@) {
                Some(k) => n == Some(k as usize),
                None => n is None,
            },
    {
        match &self.phase {
            Socks5Phase::Greeting => Some(2),
            Socks5Phase::Methods { count } => Some(*count as usize),
            Socks5Phase::RequestHeader => Some(4),
            Socks5Phase::Ipv4Address => Some(4),
            Socks5Phase::DomainLength => Some(1),
            Socks5Phase::DomainName { len } => Some(*len as usize),
            Socks5Phase::Ipv6Address => Some(16),
            Socks5Phase::Port { .. } => Some(2),
            _ => None,
        }
    }

    /// Takes the bytes that the last step asked for and answers them.
    pub fn on_bytes(&mut self, input: &[u8]) -> (step: Socks5Step)
        requires
            expected_len(old(self)@) == Some(input@.len()),
        ensures
            (final(self)@, step@) == on_bytes_spec(old(self)@, input@),
            step@.reply matches Some(r) ==> well_formed_reply(r),
    {
        let mut phase = Socks5Phase::Closed;
        std::mem::swap(&mut phase, &mut self.phase);
        match phase {
            Socks5Phase::Greeting => {
                if input[0] != SOCKS_VERSION {
                    refuse(None, Socks5Error::InvalidVersion)
                } else {
                    self.phase = Socks5Phase::Methods { count: input[1] };
                    read(input[1] as usize)
                }
            },
            Socks5Phase::Methods { .. } => {
                if contains_byte(input, METHOD_NO_AUTH) {
                    self.phase = Socks5Phase::RequestHeader;
                    let v = vec![SOCKS_VERSION, METHOD_NO_AUTH];
                    assert(v@ =~= method_selection(METHOD_NO_AUTH));
                    Socks5Step { reply: Some(v), reply_may_fail: false, next: Socks5Next::Read(4) }
                } else {
                    let v = vec![SOCKS_VERSION, METHOD_NONE_ACCEPTABLE];
                    assert(v@ =~= method_selection(METHOD_NONE_ACCEPTABLE));
                    refuse(Some(v), Socks5Error::NoAcceptableAuth)
                }
            },
            Socks5Phase::RequestHeader => {
                if input[0] != SOCKS_VERSION {
                    refuse(None, Socks5Error::InvalidRequestVersion)
                } else if input[1] != CMD_CONNECT {
                    refuse(Some(reply(REP_COMMAND_NOT_SUPPORTED)), Socks5Error::UnsupportedCommand)
                } else if input[3] == ATYP_IPV4 {
                    self.phase = Socks5Phase::Ipv4Address;
                    read(4)
                } else if input[3] == ATYP_DOMAIN {
                    self.phase = Socks5Phase::DomainLength;
                    read(1)
                } else if input[3] == ATYP_IPV6 {
                    self.phase = Socks5Phase::Ipv6Address;
                    read(16)
                } else {
                    refuse(Some(reply(REP_ADDRESS_TYPE_NOT_SUPPORTED)), Socks5Error::UnsupportedAddressType)
                }
            },
            Socks5Phase::Ipv4Address => {
                let host = format_ipv4(input);
                self.phase = Socks5Phase::Port { host };
                read(2)
            },
            Socks5Phase::DomainLength => {
                self.phase = Socks5Phase::DomainName { len: input[0] };
                read(input[0] as usize)
            },
            Socks5Phase::DomainName { .. } => {
                let bytes = vstd::slice::slice_to_vec(input);
                match string_from_utf8(bytes) {
                    Some(host) => {
                        self.phase = Socks5Phase::Port { host };
                        read(2)
                    },
                    None => refuse(None, Socks5Error::InvalidDomain),
                }
            },
            Socks5Phase::Ipv6Address => {
                self.phase = Socks5Phase::Ipv6Text;
                Socks5Step { reply: None, reply_may_fail: false, next: Socks5Next::FormatIpv6(vstd::slice::slice_to_vec(input)) }
            },
            Socks5Phase::Port { host } => {
                let port: u16 = input[0] as u16 * 256 + input[1] as u16;
                if is_new_window_host(&host) {
                    Socks5Step {
                        reply: Some(reply(REP_SUCCEEDED)),
                        reply_may_fail: true,
                        next: Socks5Next::Finish(Ok(())),
                    }
                } else {
                    let target = host.clone();
                    self.phase = Socks5Phase::Connecting { host, port };
                    Socks5Step {
                        reply: None,
                        reply_may_fail: false,
                        next: Socks5Next::Connect { host: target, port },
                    }
                }
            },
            _ => {
                proof { assert(false); }
                Socks5Step { reply: None, reply_may_fail: false, next: Socks5Next::Finish(Ok(())) }
            },
        }
    }

    /// Takes the text of the IPv6 address that the last step asked to have formatted.
    pub fn on_host_text(&mut self, text: String) -> (step: Socks5Step)
        requires
            old(self)@ == PhaseModel::Ipv6Text,
        ensures
            final(self)@ == (PhaseModel::Port { host: text@ }),
            step@ == read_step(2),
    {
        self.phase = Socks5Phase::Port { host: text };
        read(2)
    }

    /// Takes the outcome of opening the Tor stream that the last step asked for.
    pub fn on_connect_result(&mut self, connected: bool) -> (step: Socks5Step)
        requires
            old(self)@ is Connecting,
        ensures
            (final(self)@, step@) == on_connect_spec(old(self)@, connected),
            step@.reply matches Some(r) ==> well_formed_reply(r),
    {
        if connected {
            self.phase = Socks5Phase::Relaying;
            Socks5Step { reply: Some(reply(REP_SUCCEEDED)), reply_may_fail: false, next: Socks5Next::Relay }
        } else {
            self.phase = Socks5Phase::Closed;
            Socks5Step {
                reply: Some(reply(REP_HOST_UNREACHABLE)),
                reply_may_fail: true,
                next: Socks5Next::Finish(Ok(())),
            }
        }
    }
}

} // verus!
