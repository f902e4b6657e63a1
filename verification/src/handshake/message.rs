//! The handshake line `CORE|APP|NET_TYPE|NET_ADDR|PROTO`: its meaning, how it
//! is read and how it is written.

use vstd::prelude::*;
use vstd::slice::slice_subrange;

use super::address::{
    format_address, lemma_address_round_trip, lemma_address_shape, parse_address, SocketAddress,
};
use super::HandshakeError;
use crate::decimal::{
    decimal_digits, is_digit, lemma_decimal_digits, lemma_parse_decimal_digits, parse_unsigned,
    parse_unsigned_chars, push_decimal,
};
use crate::text::{
    chars_equal, chars_of, count, free_of, is_piece, lemma_split_extend, lemma_split_len,
    lemma_split_single, lemma_trim_noop, split, split_bounds, string_of, trim, trim_chars,
};

verus! {

/// Where a plugin listens.
#[derive(Clone, Debug, PartialEq, Eq)]
pub enum Network {
    /// On a TCP socket.
    Tcp(SocketAddress),
    /// On a Unix domain socket, at this path.
    Unix(String),
}

/// What a `Network` stands for.
pub enum NetworkView {
    Tcp(SocketAddress),
    Unix(Seq<char>),
}

impl View for Network {
    type V = NetworkView;

    open spec fn view(&self) -> NetworkView {
        match self {
            Network::Tcp(a) => NetworkView::Tcp(*a),
            Network::Unix(p) => NetworkView::Unix(p@),
        }
    }
}

/// The protocol spoken over the connection.
#[derive(Clone, Copy, Debug, PartialEq, Eq, Structural)]
pub enum Protocol {
    Grpc,
}

/// What a plugin announces on the first line of its standard output.
#[derive(Clone, Debug, PartialEq, Eq)]
pub struct HandshakeMessage {
    /// The version of the framework protocol.
    pub core_protocol: u32,
    /// The version of the application protocol.
    pub app_protocol: u32,
    /// Where the plugin listens.
    pub network: Network,
    /// What it speaks there.
    pub protocol: Protocol,
}

/// What a `HandshakeMessage` stands for.
pub struct HandshakeMessageView {
    pub core_protocol: u32,
    pub app_protocol: u32,
    pub network: NetworkView,
    pub protocol: Protocol,
}

impl View for HandshakeMessage {
    type V = HandshakeMessageView;

    open spec fn view(&self) -> HandshakeMessageView {
        HandshakeMessageView {
            core_protocol: self.core_protocol,
            app_protocol: self.app_protocol,
            network: self.network@,
            protocol: self.protocol,
        }
    }
}

/// The network that a type field and an address field name.
pub open spec fn parse_network(kind: Seq<char>, addr: Seq<char>) -> Result<
    NetworkView,
    HandshakeError,
> {
    if kind == "tcp"@ {
        match parse_address(addr) {
            Some(a) => Ok(NetworkView::Tcp(a)),
            None => Err(HandshakeError::InvalidNetwork),
        }
    } else if kind == "unix"@ {
        Ok(NetworkView::Unix(addr))
    } else {
        Err(HandshakeError::InvalidNetwork)
    }
}

/// The protocol that a field names.
pub open spec fn parse_protocol(s: Seq<char>) -> Result<Protocol, HandshakeError> {
    if s == "grpc"@ {
        Ok(Protocol::Grpc)
    } else {
        Err(HandshakeError::InvalidTransportProtocol)
    }
}

/// The message that a line carries. The line is cut at each `|`, every field
/// is trimmed, and the first five are read in order; the first field that
/// cannot be read decides the error. Fields after the fifth are ignored.
pub open spec fn parse_message(s: Seq<char>) -> Result<HandshakeMessageView, HandshakeError> {
    let fields = split(s, '|');
    if fields.len() < 5 {
        Err(HandshakeError::InvalidHandshakeMessage)
    } else {
        match parse_unsigned(trim(fields[0]), u32::MAX as nat) {
            Err(e) => Err(HandshakeError::ParseNumberFailed(e)),
            Ok(core) => match parse_unsigned(trim(fields[1]), u32::MAX as nat) {
                Err(e) => Err(HandshakeError::ParseNumberFailed(e)),
                Ok(app) => match parse_network(trim(fields[2]), trim(fields[3])) {
                    Err(e) => Err(e),
                    Ok(network) => match parse_protocol(trim(fields[4])) {
                        Err(e) => Err(e),
                        Ok(protocol) => Ok(
                            HandshakeMessageView {
                                core_protocol: core as u32,
                                app_protocol: app as u32,
                                network,
                                protocol,
                            },
                        ),
                    },
                },
            },
        }
    }
}

/// The type field of a network.
pub open spec fn network_kind_text(n: NetworkView) -> Seq<char> {
    match n {
        NetworkView::Tcp(_) => "tcp"@,
        NetworkView::Unix(_) => "unix"@,
    }
}

/// The address field of a network.
pub open spec fn network_addr_text(n: NetworkView) -> Seq<char> {
    match n {
        NetworkView::Tcp(a) => format_address(a),
        NetworkView::Unix(p) => p,
    }
}

/// The two fields of a network, joined by `|`.
pub open spec fn format_network(n: NetworkView) -> Seq<char> {
    network_kind_text(n).push('|') + network_addr_text(n)
}

/// The text of a protocol.
pub open spec fn format_protocol(p: Protocol) -> Seq<char> {
    match p {
        Protocol::Grpc => "grpc"@,
    }
}

/// The line that carries a message: its five fields joined by `|`, without a
/// line end.
pub open spec fn format_message(m: HandshakeMessageView) -> Seq<char> {
    let s1 = decimal_digits(m.core_protocol as nat).push('|') + decimal_digits(
        m.app_protocol as nat,
    );
    let s2 = s1.push('|') + network_kind_text(m.network);
    let s3 = s2.push('|') + network_addr_text(m.network);
    s3.push('|') + format_protocol(m.protocol)
}

/// A result with the network in it replaced by what it stands for.
pub open spec fn network_result_view(r: Result<Network, HandshakeError>) -> Result<
    NetworkView,
    HandshakeError,
> {
    match r {
        Ok(n) => Ok(n@),
        Err(e) => Err(e),
    }
}

/// A result with the message in it replaced by what it stands for.
pub open spec fn message_result_view(r: Result<HandshakeMessage, HandshakeError>) -> Result<
    HandshakeMessageView,
    HandshakeError,
> {
    match r {
        Ok(m) => Ok(m@),
        Err(e) => Err(e),
    }
}

/// The network that two trimmed fields name.
fn parse_network_chars(kind: &[char], addr: &[char]) -> (r: Result<Network, HandshakeError>)
    ensures
        network_result_view(r) == parse_network(kind@, addr@),
{
    if chars_equal(kind, "tcp") {
        match SocketAddress::parse(addr) {
            Some(a) => Ok(Network::Tcp(a)),
            None => Err(HandshakeError::InvalidNetwork),
        }
    } else if chars_equal(kind, "unix") {
        Ok(Network::Unix(string_of(addr)))
    } else {
        Err(HandshakeError::InvalidNetwork)
    }
}

/// The protocol that a trimmed field names.
fn parse_protocol_chars(s: &[char]) -> (r: Result<Protocol, HandshakeError>)
    ensures
        r == parse_protocol(s@),
{
    if chars_equal(s, "grpc") {
        Ok(Protocol::Grpc)
    } else {
        Err(HandshakeError::InvalidTransportProtocol)
    }
}

impl Network {
    /// Reads a network from its type, `tcp` or `unix`, and its address. A
    /// `tcp` address has the form `a.b.c.d:port`; a `unix` address is a path
    /// and is taken as it stands.
    pub fn parse(type_: &str, addr: &str) -> (r: Result<Network, HandshakeError>)
        ensures
            network_result_view(r) == parse_network(type_@, addr@),
    {
        let kind = chars_of(type_);
        let addr = chars_of(addr);
        parse_network_chars(kind.as_slice(), addr.as_slice())
    }

    /// The two fields of the network, joined by `|`.
    pub fn to_string(&self) -> (s: String)
        ensures
            s@ == format_network(self@),
    {
        match self {
            Network::Tcp(a) => {
                let mut s = "tcp".to_owned();
                s.push('|');
                a.push_to(&mut s);
                s
            },
            Network::Unix(p) => {
                let mut s = "unix".to_owned();
                s.push('|');
                s.append(p.as_str());
                s
            },
        }
    }
}

impl Protocol {
    /// Reads a protocol from its name.
    pub fn from_str(s: &str) -> (r: Result<Protocol, HandshakeError>)
        ensures
            r == parse_protocol(s@),
    {
        let chars = chars_of(s);
        parse_protocol_chars(chars.as_slice())
    }

    /// The name of the protocol.
    pub fn to_string(&self) -> (s: String)
        ensures
            s@ == format_protocol(*self),
    {
        match self {
            Protocol::Grpc => "grpc".to_owned(),
        }
    }
}

impl HandshakeMessage {
    /// Reads a handshake line.
    pub fn parse(s: &str) -> (r: Result<HandshakeMessage, HandshakeError>)
        ensures
            message_result_view(r) == parse_message(s@),
    {
        let chars = chars_of(s);
        let line = chars.as_slice();
        let bounds = split_bounds(line, '|');
        if bounds.len() < 5 {
            return Err(HandshakeError::InvalidHandshakeMessage);
        }
        assert(is_piece(line@, bounds@[0], split(line@, '|')[0]));
        assert(is_piece(line@, bounds@[1], split(line@, '|')[1]));
        assert(is_piece(line@, bounds@[2], split(line@, '|')[2]));
        assert(is_piece(line@, bounds@[3], split(line@, '|')[3]));
        assert(is_piece(line@, bounds@[4], split(line@, '|')[4]));
        let f0 = trim_chars(slice_subrange(line, bounds[0].0, bounds[0].1));
        let f1 = trim_chars(slice_subrange(line, bounds[1].0, bounds[1].1));
        let f2 = trim_chars(slice_subrange(line, bounds[2].0, bounds[2].1));
        let f3 = trim_chars(slice_subrange(line, bounds[3].0, bounds[3].1));
        let f4 = trim_chars(slice_subrange(line, bounds[4].0, bounds[4].1));
        let core_protocol = match parse_unsigned_chars(f0, u32::MAX) {
            Ok(v) => v,
            Err(e) => {
                return Err(HandshakeError::ParseNumberFailed(e));
            },
        };
        let app_protocol = match parse_unsigned_chars(f1, u32::MAX) {
            Ok(v) => v,
            Err(e) => {
                return Err(HandshakeError::ParseNumberFailed(e));
            },
        };
        let network = match parse_network_chars(f2, f3) {
            Ok(n) => n,
            Err(e) => {
                return Err(e);
            },
        };
        let protocol = match parse_protocol_chars(f4) {
            Ok(p) => p,
            Err(e) => {
                return Err(e);
            },
        };
        Ok(HandshakeMessage { core_protocol, app_protocol, network, protocol })
    }

    /// The handshake line of the message, without a line end.
    pub fn to_string(&self) -> (s: String)
        ensures
            s@ == format_message(self@),
    {
        handshake_line(self.core_protocol, self.app_protocol, &self.network, self.protocol)
    }
}

/// The handshake line of the message with these four parts, without a line
/// end.
pub fn handshake_line(
    core_protocol: u32,
    app_protocol: u32,
    network: &Network,
    protocol: Protocol,
) -> (s: String)
    ensures
        s@ == format_message(
            HandshakeMessageView { core_protocol, app_protocol, network: network@, protocol },
        ),
{
    let mut s = String::new();
    push_decimal(&mut s, core_protocol as u64);
    s.push('|');
    push_decimal(&mut s, app_protocol as u64);
    s.push('|');
    match network {
        Network::Tcp(a) => {
            s.append("tcp");
            s.push('|');
            a.push_to(&mut s);
        },
        Network::Unix(p) => {
            s.append("unix");
            s.push('|');
            s.append(p.as_str());
        },
    }
    s.push('|');
    match protocol {
        Protocol::Grpc => {
            s.append("grpc");
        },
    }
    assert(s@ =~= format_message(
        HandshakeMessageView { core_protocol, app_protocol, network: network@, protocol },
    ));
    s
}

/// Tells whether a line can carry the network and give it back: a socket
/// path must hold no `|`, which would end its field, and no whitespace at
/// either end, which reading trims away.
pub open spec fn survives_a_line(n: NetworkView) -> bool {
    n matches NetworkView::Unix(p) ==> free_of(p, '|') && trim(p) == p
}

/// The fields of a written message are the pieces of its line.
proof fn lemma_message_fields(m: HandshakeMessageView)
    requires
        survives_a_line(m.network),
    ensures
        split(format_message(m), '|') == seq![
            decimal_digits(m.core_protocol as nat),
            decimal_digits(m.app_protocol as nat),
            network_kind_text(m.network),
            network_addr_text(m.network),
            format_protocol(m.protocol),
        ],
{
    reveal_strlit("tcp");
    reveal_strlit("unix");
    reveal_strlit("grpc");
    let f0 = decimal_digits(m.core_protocol as nat);
    let f1 = decimal_digits(m.app_protocol as nat);
    let f2 = network_kind_text(m.network);
    let f3 = network_addr_text(m.network);
    let f4 = format_protocol(m.protocol);
    lemma_decimal_digits(m.core_protocol as nat);
    lemma_decimal_digits(m.app_protocol as nat);
    assert(free_of(f0, '|')) by {
        assert forall|i: int| 0 <= i < f0.len() implies f0[i] != '|' by {
            assert(is_digit(f0[i]));
        }
    }
    assert(free_of(f1, '|')) by {
        assert forall|i: int| 0 <= i < f1.len() implies f1[i] != '|' by {
            assert(is_digit(f1[i]));
        }
    }
    assert(free_of(f2, '|'));
    assert(free_of(f3, '|')) by {
        if let NetworkView::Tcp(a) = m.network {
            lemma_address_shape(a);
        }
    }
    assert(free_of(f4, '|'));
    let s1 = f0.push('|') + f1;
    let s2 = s1.push('|') + f2;
    let s3 = s2.push('|') + f3;
    lemma_split_single(f0, '|');
    lemma_split_extend(f0, f1, '|');
    lemma_split_extend(s1, f2, '|');
    lemma_split_extend(s2, f3, '|');
    lemma_split_extend(s3, f4, '|');
    assert(split(format_message(m), '|') == seq![f0, f1, f2, f3, f4]);
}

/// Reading a written message gives the message back: for every version pair,
/// every TCP address and every socket path that survives a line.
pub proof fn lemma_handshake_round_trip(m: HandshakeMessageView)
    requires
        survives_a_line(m.network),
    ensures
        parse_message(format_message(m)) == Ok::<HandshakeMessageView, HandshakeError>(m),
{
    reveal_strlit("tcp");
    reveal_strlit("unix");
    reveal_strlit("grpc");
    lemma_message_fields(m);
    let f0 = decimal_digits(m.core_protocol as nat);
    let f1 = decimal_digits(m.app_protocol as nat);
    let f2 = network_kind_text(m.network);
    let f3 = network_addr_text(m.network);
    let f4 = format_protocol(m.protocol);
    lemma_decimal_digits(m.core_protocol as nat);
    lemma_decimal_digits(m.app_protocol as nat);
    assert(is_digit(f0[0]) && is_digit(f0[f0.len() - 1]));
    assert(is_digit(f1[0]) && is_digit(f1[f1.len() - 1]));
    lemma_trim_noop(f0);
    lemma_trim_noop(f1);
    lemma_trim_noop(f2);
    lemma_trim_noop(f4);
    lemma_parse_decimal_digits(m.core_protocol as nat, u32::MAX as nat);
    lemma_parse_decimal_digits(m.app_protocol as nat, u32::MAX as nat);
    match m.network {
        NetworkView::Tcp(a) => {
            lemma_address_shape(a);
            lemma_trim_noop(f3);
            lemma_address_round_trip(a);
        },
        NetworkView::Unix(p) => {
            assert("unix"@ != "tcp"@) by {
                assert("unix"@.len() != "tcp"@.len());
            }
        },
    }
}

/// A line with fewer than five fields, that is with fewer than four `|`, is
/// rejected as no handshake at all.
pub proof fn lemma_short_line_rejected(s: Seq<char>)
    requires
        count(s, '|') < 4,
    ensures
        parse_message(s) == Err::<HandshakeMessageView, HandshakeError>(
            HandshakeError::InvalidHandshakeMessage,
        ),
{
    lemma_split_len(s, '|');
}

} // verus!
