//! Addresses of peers.

use crate::ident::PublicKey;
use crate::table::{Key, PlainKey};
use crate::text::{self, append_text, decimal_text};
use internet2::addr::{InetAddr, InetSocketAddr as InetSocket};
use torut::onion::TorPublicKeyV3;
use vstd::prelude::*;
use vstd::string::StringExecFns;

verus! {

/// A host that has an IP address.
#[derive(Clone, Copy, PartialEq, Eq, Structural, Debug, Hash)]
pub enum IpAddr {
    V4(u32),
    V6(u128),
}

/// The key of an onion service: 32 bytes, as two halves, that are a key.
#[derive(Clone, Copy, PartialEq, Eq, Structural, Debug, Hash)]
pub struct OnionKey {
    pub(crate) hi: u128,
    pub(crate) lo: u128,
}

/// A host and a port, or an onion service, which has none.
#[allow(inconsistent_fields)]
#[derive(Clone, Copy, PartialEq, Eq, Structural, Debug, Hash)]
pub enum InetSocketAddr {
    IPv4 { ip: u32, port: u16 },
    IPv6 { ip: u128, port: u16 },
    Tor(OnionKey),
}

/// A socket together with the protocol that is spoken on it.
#[derive(Clone, Copy, PartialEq, Eq, Structural, Debug, Hash)]
pub enum RemoteSocketAddr {
    /// Framed TCP.
    Ftcp(InetSocketAddr),
    Zmq(InetSocketAddr),
    Http(InetSocketAddr),
    Websocket(InetSocketAddr),
    Smtp(InetSocketAddr),
}

/// A node that can be connected to: its key and its socket.
#[derive(Clone, Copy, PartialEq, Eq, Structural, Debug, Hash)]
pub struct NodeAddr {
    pub node_id: PublicKey,
    pub remote_addr: RemoteSocketAddr,
}

impl View for NodeAddr {
    type V = NodeAddr;

    open spec fn view(&self) -> NodeAddr {
        *self
    }
}

impl Key for NodeAddr {
    fn same(&self, other: &Self) -> (r: bool) {
        *self == *other
    }
}

impl PlainKey for NodeAddr {
    proof fn plain(k: Self) {
    }
}

/// The four bytes of an IP address of the fourth version, as dotted decimal numbers.
pub open spec fn dotted(ip: u32) -> Seq<char> {
    let n = ip as nat;
    text::decimal_digits(n / 0x1000000) + "."@ + text::decimal_digits(n / 0x10000 % 0x100) + "."@
        + text::decimal_digits(n / 0x100 % 0x100) + "."@ + text::decimal_digits(n % 0x100)
}

/// How an IP address of the sixth version is written.
pub uninterp spec fn ipv6_text(ip: u128) -> Seq<char>;

/// How a socket is written.
pub uninterp spec fn socket_text(addr: InetSocketAddr) -> Seq<char>;

/// The 32 bytes, given as two halves, are the key of an onion service.
pub uninterp spec fn is_onion_key(hi: u128, lo: u128) -> bool;

/// Calls `TorPublicKeyV3::from_bytes` of `torut` on the 32 bytes that the two halves make up,
/// big-endian. Claimed of it: whether it accepts them depends on the bytes alone.
#[verifier::external_body]
fn check_onion_key(hi: u128, lo: u128) -> (r: bool)
    ensures
        r == is_onion_key(hi, lo),
{
    let key = [hi.to_be_bytes(), lo.to_be_bytes()].concat();
    match key.as_slice().try_into() {
        Ok(bytes) => TorPublicKeyV3::from_bytes(bytes).is_ok(),
        Err(_) => false,
    }
}

impl OnionKey {
    #[verifier::type_invariant]
    spec fn wf(&self) -> bool {
        is_onion_key(self.hi, self.lo)
    }

    /// The upper half of the bytes.
    pub closed spec fn upper(&self) -> u128 {
        self.hi
    }

    /// The lower half of the bytes.
    pub closed spec fn lower(&self) -> u128 {
        self.lo
    }

    /// The key that the bytes are, if they are one.
    pub fn new(hi: u128, lo: u128) -> (r: Option<OnionKey>)
        ensures
            r is Some <==> is_onion_key(hi, lo),
            r matches Some(key) ==> key.upper() == hi && key.lower() == lo,
    {
        if check_onion_key(hi, lo) {
            Some(OnionKey { hi, lo })
        } else {
            None
        }
    }

    /// The two halves of the bytes, which are a key.
    pub fn halves(self) -> (r: (u128, u128))
        ensures
            r == (self.upper(), self.lower()),
            is_onion_key(r.0, r.1),
    {
        proof {
            use_type_invariant(&self);
        }
        (self.hi, self.lo)
    }
}

impl IpAddr {
    /// How the address is written.
    pub open spec fn digits(self) -> Seq<char> {
        match self {
            IpAddr::V4(ip) => dotted(ip),
            IpAddr::V6(ip) => ipv6_text(ip),
        }
    }
}

/// Writes an IP address of the sixth version with the `Display` of `InetAddr` of `internet2`.
/// Claimed of it: what it gives depends on the address alone.
#[verifier::external_body]
fn write_ipv6(ip: u128) -> (text: String)
    ensures
        text@ == ipv6_text(ip),
{
    InetAddr::from(ip.to_be_bytes()).to_string()
}

/// Writes an IP address of the fourth version.
fn dotted_text(ip: u32) -> (text: String)
    ensures
        text@ == dotted(ip),
{
    let n = ip as u64;
    let mut text = decimal_text(n / 0x1000000);
    let second = decimal_text(n / 0x10000 % 0x100);
    let third = decimal_text(n / 0x100 % 0x100);
    let last = decimal_text(n % 0x100);
    text.append(".");
    text.append(second.as_str());
    text.append(".");
    text.append(third.as_str());
    text.append(".");
    text.append(last.as_str());
    text
}

/// Writes a socket with the `Display` of `InetSocketAddr` of `internet2`. Claimed of it: an IP
/// address of the fourth version gives its dotted decimal numbers, a colon and the port; one of
/// the sixth version gives the address in square brackets, a colon and the port; what an onion
/// service gives depends on its key alone.
#[verifier::external_body]
fn write_socket(addr: InetSocketAddr) -> (text: String)
    requires
        addr matches InetSocketAddr::Tor(key) ==> is_onion_key(key.upper(), key.lower()),
    ensures
        text@ == socket_text(addr),
        addr matches InetSocketAddr::IPv4 { ip, port } ==> text@ == dotted(ip) + ":"@
            + text::decimal_digits(port as nat),
        addr matches InetSocketAddr::IPv6 { ip, port } ==> text@ == "["@ + ipv6_text(ip) + "]:"@
            + text::decimal_digits(port as nat),
{
    let socket = match addr {
        InetSocketAddr::IPv4 { ip, port } =>
            InetSocket::socket(InetAddr::from(ip.to_be_bytes()).try_into().unwrap(), port),
        InetSocketAddr::IPv6 { ip, port } =>
            InetSocket::socket(InetAddr::from(ip.to_be_bytes()).try_into().unwrap(), port),
        InetSocketAddr::Tor(key) => {
            let key = [key.hi.to_be_bytes(), key.lo.to_be_bytes()].concat();
            let bytes = key.as_slice().try_into().unwrap();
            InetSocket::tor3(TorPublicKeyV3::from_bytes(bytes).unwrap())
        }
    };
    socket.to_string()
}

impl IpAddr {
    /// Writes the address.
    pub fn to_text(self) -> (text: String)
        ensures
            text@ == self.digits(),
    {
        match self {
            IpAddr::V4(ip) => dotted_text(ip),
            IpAddr::V6(ip) => write_ipv6(ip),
        }
    }
}

impl InetSocketAddr {
    /// The IP address and the port; nothing for an onion service.
    pub open spec fn host(self) -> Option<(IpAddr, u16)> {
        match self {
            InetSocketAddr::IPv4 { ip, port } => Some((IpAddr::V4(ip), port)),
            InetSocketAddr::IPv6 { ip, port } => Some((IpAddr::V6(ip), port)),
            InetSocketAddr::Tor(_) => None,
        }
    }

    /// The IP address and the port, if it has them.
    pub fn ip_and_port(self) -> (r: Option<(IpAddr, u16)>)
        ensures
            r == self.host(),
    {
        match self {
            InetSocketAddr::IPv4 { ip, port } => Some((IpAddr::V4(ip), port)),
            InetSocketAddr::IPv6 { ip, port } => Some((IpAddr::V6(ip), port)),
            InetSocketAddr::Tor(_) => None,
        }
    }

    /// Writes the socket.
    pub fn to_text(self) -> (text: String)
        ensures
            text@ == socket_text(self),
            self matches InetSocketAddr::IPv4 { ip, port } ==> text@ == dotted(ip) + ":"@
                + text::decimal_digits(port as nat),
            self matches InetSocketAddr::IPv6 { ip, port } ==> text@ == "["@ + ipv6_text(ip)
                + "]:"@ + text::decimal_digits(port as nat),
    {
        match self {
            InetSocketAddr::Tor(key) => {
                let _ = key.halves();
            },
            _ => {},
        }
        write_socket(self)
    }
}

impl RemoteSocketAddr {
    /// The socket without the protocol.
    pub open spec fn socket(self) -> InetSocketAddr {
        match self {
            RemoteSocketAddr::Ftcp(a) => a,
            RemoteSocketAddr::Zmq(a) => a,
            RemoteSocketAddr::Http(a) => a,
            RemoteSocketAddr::Websocket(a) => a,
            RemoteSocketAddr::Smtp(a) => a,
        }
    }

    /// The protocol as the scheme of a URL.
    pub open spec fn scheme(self) -> Seq<char> {
        match self {
            RemoteSocketAddr::Ftcp(_) => "lnp://"@,
            RemoteSocketAddr::Zmq(_) => "lnpz://"@,
            RemoteSocketAddr::Http(_) => "lnph://"@,
            RemoteSocketAddr::Websocket(_) => "lnpws://"@,
            RemoteSocketAddr::Smtp(_) => "lnpm://"@,
        }
    }

    /// The URL.
    pub open spec fn url(self) -> Seq<char> {
        self.scheme() + socket_text(self.socket())
    }

    /// The socket without the protocol.
    pub fn inet(self) -> (a: InetSocketAddr)
        ensures
            a == self.socket(),
    {
        match self {
            RemoteSocketAddr::Ftcp(a) => a,
            RemoteSocketAddr::Zmq(a) => a,
            RemoteSocketAddr::Http(a) => a,
            RemoteSocketAddr::Websocket(a) => a,
            RemoteSocketAddr::Smtp(a) => a,
        }
    }

    /// The protocol as the scheme of a URL.
    pub fn url_scheme(self) -> (s: &'static str)
        ensures
            s@ == self.scheme(),
    {
        match self {
            RemoteSocketAddr::Ftcp(_) => "lnp://",
            RemoteSocketAddr::Zmq(_) => "lnpz://",
            RemoteSocketAddr::Http(_) => "lnph://",
            RemoteSocketAddr::Websocket(_) => "lnpws://",
            RemoteSocketAddr::Smtp(_) => "lnpm://",
        }
    }

    /// Writes the socket as a URL.
    pub fn to_url_string(self) -> (text: String)
        ensures
            text@ == self.url(),
    {
        let socket = self.inet().to_text();
        append_text(self.url_scheme(), socket.as_str())
    }
}

impl NodeAddr {
    /// How the node is written: its key, an at sign and its socket.
    pub open spec fn text(self) -> Seq<char> {
        self.node_id.hex() + "@"@ + socket_text(self.remote_addr.socket())
    }

    /// Writes the node.
    pub fn to_text(self) -> (text: String)
        ensures
            text@ == self.text(),
    {
        let socket = self.remote_addr.inet().to_text();
        let mut text = self.node_id.to_hex();
        text.append("@");
        text.append(socket.as_str());
        text
    }
}

} // verus!
