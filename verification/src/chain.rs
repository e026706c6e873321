//! The two chains that a swap runs on, and their addresses.

use crate::table::{Key, PlainKey};
use vstd::prelude::*;

verus! {

/// The coin of a chain.
#[derive(Clone, Copy, PartialEq, Eq, Structural, Debug, Hash)]
pub enum Coin {
    Bitcoin,
    Monero,
}

/// The kind of network that a swap runs on.
#[derive(Clone, Copy, PartialEq, Eq, Structural, Debug, Hash)]
pub enum Network {
    Mainnet,
    Testnet,
    Local,
}

/// The networks of Bitcoin.
#[derive(Clone, Copy, PartialEq, Eq, Structural, Debug, Hash)]
pub enum BitcoinNetwork {
    Bitcoin,
    Testnet,
    Signet,
    Regtest,
}

/// The networks of Monero.
#[derive(Clone, Copy, PartialEq, Eq, Structural, Debug, Hash)]
pub enum MoneroNetwork {
    Mainnet,
    Stagenet,
    Testnet,
}

/// A coin's chain on one network: what one syncer follows.
#[derive(Clone, Copy, PartialEq, Eq, Structural, Debug, Hash)]
pub struct Chain {
    pub coin: Coin,
    pub network: Network,
}

impl View for Chain {
    type V = Chain;

    open spec fn view(&self) -> Chain {
        *self
    }
}

impl Key for Chain {
    fn same(&self, other: &Self) -> (r: bool) {
        *self == *other
    }
}

impl PlainKey for Chain {
    proof fn plain(k: Self) {
    }
}

/// An address on the Bitcoin chain, as text, with the network it is for.
#[derive(PartialEq, Eq, Debug)]
pub struct BitcoinAddress {
    pub network: BitcoinNetwork,
    pub text: String,
}

/// An address on the Monero chain, as text, with the network it is for.
#[derive(PartialEq, Eq, Debug)]
pub struct MoneroAddress {
    pub network: MoneroNetwork,
    pub text: String,
}

impl Clone for BitcoinAddress {
    fn clone(&self) -> (r: Self)
        ensures
            r == *self,
    {
        BitcoinAddress { network: self.network, text: self.text.clone() }
    }
}

impl Clone for MoneroAddress {
    fn clone(&self) -> (r: Self)
        ensures
            r == *self,
    {
        MoneroAddress { network: self.network, text: self.text.clone() }
    }
}

impl Coin {
    /// The coin's name.
    pub open spec fn spelled(self) -> Seq<char> {
        match self {
            Coin::Bitcoin => "Bitcoin"@,
            Coin::Monero => "Monero"@,
        }
    }

    /// The coin's name.
    pub fn name(self) -> (s: &'static str)
        ensures
            s@ == self.spelled(),
    {
        match self {
            Coin::Bitcoin => "Bitcoin",
            Coin::Monero => "Monero",
        }
    }
}

impl Network {
    /// The network's name.
    pub open spec fn spelled(self) -> Seq<char> {
        match self {
            Network::Mainnet => "Mainnet"@,
            Network::Testnet => "Testnet"@,
            Network::Local => "Local"@,
        }
    }

    /// The network's name.
    pub fn name(self) -> (s: &'static str)
        ensures
            s@ == self.spelled(),
    {
        match self {
            Network::Mainnet => "Mainnet",
            Network::Testnet => "Testnet",
            Network::Local => "Local",
        }
    }
}

impl BitcoinNetwork {
    /// The kind of network this is: both public test networks are one kind.
    pub open spec fn kind(self) -> Network {
        match self {
            BitcoinNetwork::Bitcoin => Network::Mainnet,
            BitcoinNetwork::Testnet => Network::Testnet,
            BitcoinNetwork::Signet => Network::Testnet,
            BitcoinNetwork::Regtest => Network::Local,
        }
    }

    /// The kind of network this is.
    pub fn network(self) -> (n: Network)
        ensures
            n == self.kind(),
    {
        match self {
            BitcoinNetwork::Bitcoin => Network::Mainnet,
            BitcoinNetwork::Testnet => Network::Testnet,
            BitcoinNetwork::Signet => Network::Testnet,
            BitcoinNetwork::Regtest => Network::Local,
        }
    }
}

impl MoneroNetwork {
    /// The kind of network this is: the stage network is the public test network, and the test
    /// network is used locally.
    pub open spec fn kind(self) -> Network {
        match self {
            MoneroNetwork::Mainnet => Network::Mainnet,
            MoneroNetwork::Stagenet => Network::Testnet,
            MoneroNetwork::Testnet => Network::Local,
        }
    }

    /// The kind of network this is.
    pub fn network(self) -> (n: Network)
        ensures
            n == self.kind(),
    {
        match self {
            MoneroNetwork::Mainnet => Network::Mainnet,
            MoneroNetwork::Stagenet => Network::Testnet,
            MoneroNetwork::Testnet => Network::Local,
        }
    }
}

/// What base58 in Monero's form decodes to, or the words for why an address is not read.
pub uninterp spec fn base58_bytes(text: Seq<char>) -> Result<Seq<u8>, Seq<char>>;

/// The network of the address that some bytes are, or the words for why they are none.
pub uninterp spec fn address_network(bytes: Seq<u8>) -> Result<MoneroNetwork, Seq<char>>;

/// The first byte of a Monero address that holds a payment identifier.
pub open spec fn is_integrated(tag: u8) -> bool {
    tag == 19 || tag == 25 || tag == 54
}

/// The first byte of a Monero address.
pub open spec fn is_tag(tag: u8) -> bool {
    is_integrated(tag) || tag == 18 || tag == 42 || tag == 24 || tag == 36 || tag == 53 || tag == 63
}

/// Long enough for what the first byte announces: a tag, two keys of 32 bytes, a payment
/// identifier of 8 bytes where there is one, and a checksum of 4 bytes. A byte that is no tag
/// announces nothing.
pub open spec fn is_whole(bytes: Seq<u8>) -> bool {
    ||| bytes.len() >= 77
    ||| bytes.len() >= 69 && !is_integrated(bytes[0])
    ||| bytes.len() >= 1 && !is_tag(bytes[0])
}

/// The network of the Monero address that a text is, or the words for why it is none. There are no
/// words for a text that is cut off.
pub open spec fn monero_network(text: Seq<char>) -> Result<MoneroNetwork, Option<Seq<char>>> {
    match base58_bytes(text) {
        Ok(bytes) => if is_whole(bytes) {
            match address_network(bytes) {
                Ok(network) => Ok(network),
                Err(words) => Err(Some(words)),
            }
        } else {
            Err(None)
        },
        Err(words) => Err(Some(words)),
    }
}

/// Calls `base58_monero::decode`, and writes an error as the error of an address that `monero`
/// makes of it. Claimed of it: what it gives depends on the text alone.
#[verifier::external_body]
fn decode_base58(text: &str) -> (r: Result<Vec<u8>, String>)
    ensures
        match base58_bytes(text@) {
            Ok(bytes) => r matches Ok(v) && v@ == bytes,
            Err(words) => r matches Err(w) && w@ == words,
        },
{
    match base58_monero::decode(text) {
        Ok(bytes) => Ok(bytes),
        Err(err) => Err(monero::util::address::Error::from(err).to_string()),
    }
}

/// Calls `Address::from_bytes` of `monero` and keeps the network of the address, or writes the
/// error with its `Display`. Claimed of it: what it gives depends on the bytes alone. It indexes
/// the bytes as far as the first one announces, so they have to be long enough.
#[verifier::external_body]
fn read_address(bytes: &Vec<u8>) -> (r: Result<MoneroNetwork, String>)
    requires
        is_whole(bytes@),
    ensures
        match address_network(bytes@) {
            Ok(network) => r == Ok::<MoneroNetwork, String>(network),
            Err(words) => r matches Err(w) && w@ == words,
        },
{
    match monero::Address::from_bytes(bytes) {
        Ok(address) => match address.network {
            monero::Network::Mainnet => Ok(MoneroNetwork::Mainnet),
            monero::Network::Stagenet => Ok(MoneroNetwork::Stagenet),
            monero::Network::Testnet => Ok(MoneroNetwork::Testnet),
        },
        Err(err) => Err(err.to_string()),
    }
}

fn whole(bytes: &Vec<u8>) -> (r: bool)
    ensures
        r == is_whole(bytes@),
{
    let n: usize = bytes.len();
    if n == 0 {
        return false;
    }
    let tag = bytes[0];
    let integrated = tag == 19 || tag == 25 || tag == 54;
    let other = tag == 18 || tag == 42 || tag == 24 || tag == 36 || tag == 53 || tag == 63;
    n >= 77 || (n >= 69 && !integrated) || !(integrated || other)
}

impl MoneroAddress {
    /// Reads an address, or gives the words for why the text is none. A text that is cut off, so
    /// that its bytes end before what the first of them announces, is none without words.
    pub fn from_text(text: String) -> (r: Result<MoneroAddress, Option<String>>)
        ensures
            match monero_network(text@) {
                Ok(network) => r == Ok::<MoneroAddress, Option<String>>(
                    MoneroAddress { network, text },
                ),
                Err(words) => r matches Err(w) && crate::text::text_of(w) == words,
            },
    {
        match decode_base58(text.as_str()) {
            Ok(bytes) => {
                if whole(&bytes) {
                    match read_address(&bytes) {
                        Ok(network) => Ok(MoneroAddress { network, text }),
                        Err(words) => Err(Some(words)),
                    }
                } else {
                    Err(None)
                }
            },
            Err(words) => Err(Some(words)),
        }
    }
}

} // verus!
