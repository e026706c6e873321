//! Offers to swap.

use crate::addr::InetSocketAddr;
use crate::chain::Network;
use crate::ident::{OfferId, PublicKey};
use crate::text;
use farcaster_core::blockchain::Network as CoreNetwork;
use farcaster_core::consensus::deserialize;
use farcaster_core::negotiation::Version;
use farcaster_core::swap::btcxmr::{Offer as CoreOffer, PublicOffer as CorePublicOffer};
use internet2::addr::{InetAddr, InetSocketAddr as InetSocket};
use std::str::FromStr;
use torut::onion::TorPublicKeyV3;
use vstd::prelude::*;

verus! {

/// The part that a node plays in a trade.
#[derive(Clone, Copy, PartialEq, Eq, Structural, Debug, Hash)]
pub enum TradeRole {
    Maker,
    Taker,
}

/// The terms of a trade. Of the terms a daemon reads the identifier and the network; the rest it
/// carries, as the bytes of the consensus encoding of the whole offer.
#[derive(PartialEq, Eq, Debug)]
pub struct Offer {
    pub(crate) uuid: OfferId,
    pub(crate) network: Network,
    pub(crate) encoding: Vec<u8>,
}

/// The content of an [`Offer`].
pub struct Terms {
    pub uuid: OfferId,
    pub network: Network,
    pub encoding: Seq<u8>,
}

/// An offer together with the node that makes it. Its text, which holds all of it, identifies
/// it.
#[derive(PartialEq, Eq, Debug)]
pub struct PublicOffer {
    pub(crate) version: u16,
    pub(crate) offer: Offer,
    pub(crate) node_id: PublicKey,
    pub(crate) peer_address: InetSocketAddr,
    pub(crate) text: String,
}

/// The content of a [`PublicOffer`].
pub struct PublicTerms {
    pub version: u16,
    pub offer: Terms,
    pub node_id: PublicKey,
    pub peer_address: InetSocketAddr,
    pub text: String,
}

impl TradeRole {
    /// The role's name.
    pub open spec fn spelled(self) -> Seq<char> {
        match self {
            TradeRole::Maker => "Maker"@,
            TradeRole::Taker => "Taker"@,
        }
    }

    /// The role's name.
    pub fn name(self) -> (s: &'static str)
        ensures
            s@ == self.spelled(),
    {
        match self {
            TradeRole::Maker => "Maker",
            TradeRole::Taker => "Taker",
        }
    }
}

/// The text of the public offer that a text is read as, or the words for why it is none. More than
/// one text can be read as the same offer, which has one text of its own.
pub uninterp spec fn offer_in(text: Seq<char>) -> Result<Seq<char>, Seq<char>>;

/// The identifier and the network of the offer that some bytes are the encoding of, if they are
/// one.
pub uninterp spec fn terms_in(encoding: Seq<u8>) -> Option<(u128, Network)>;

/// The text of the public offer that a version, an encoded offer, a node key in hexadecimal digits
/// and a socket make up, if they do.
pub uninterp spec fn offer_made(
    version: u16,
    encoding: Seq<u8>,
    node_id: Seq<char>,
    peer_address: InetSocketAddr,
) -> Option<Seq<char>>;

/// The bytes start with the prefix of an offer, `Offer:`.
pub open spec fn has_prefix(bytes: Seq<u8>) -> bool {
    &&& bytes[0] == 79
    &&& bytes[1] == 102
    &&& bytes[2] == 102
    &&& bytes[3] == 101
    &&& bytes[4] == 114
    &&& bytes[5] == 58
}

/// Room for the prefix of six bytes, and for four decoded bytes behind it if it is that of an
/// offer.
pub open spec fn has_offer_shape(text: Seq<char>) -> bool {
    let bytes = vstd::utf8::encode_utf8(text);
    &&& bytes.len() >= 6
    &&& vstd::utf8::is_char_boundary(bytes, 6)
    &&& bytes.len() >= 12 || !has_prefix(bytes)
}

/// The text of the public offer that a text of any shape is read as, or the words for why it is
/// none. There are no words for a text that is cut off.
pub open spec fn offer_named(text: Seq<char>) -> Result<Seq<char>, Option<Seq<char>>> {
    if has_offer_shape(text) {
        match offer_in(text) {
            Ok(own) => Ok(own),
            Err(words) => Err(Some(words)),
        }
    } else {
        Err(None)
    }
}

/// Calls `PublicOffer::from_str` of `farcaster_core` and writes the offer, or the error, with its
/// `Display`. Claimed of it: what it gives depends on the text alone. `from_str` cuts the text
/// behind six bytes and, where they are the prefix, takes a checksum of four bytes off what it
/// decodes, so both have to be there.
#[verifier::external_body]
fn read_offer(text: &str) -> (r: Result<String, String>)
    requires
        has_offer_shape(text@),
    ensures
        text::outcome_of(r) == offer_in(text@),
{
    match CorePublicOffer::from_str(text) {
        Ok(offer) => Ok(offer.to_string()),
        Err(err) => Err(err.to_string()),
    }
}

/// Decodes an offer with `consensus::deserialize` of `farcaster_core` and keeps its identifier and
/// its network. Claimed of it: what it gives depends on the bytes alone.
#[verifier::external_body]
fn read_terms(encoding: &Vec<u8>) -> (r: Option<(u128, Network)>)
    ensures
        r == terms_in(encoding@),
{
    let offer: CoreOffer = deserialize(encoding).ok()?;
    let network = match offer.network {
        CoreNetwork::Mainnet => Network::Mainnet,
        CoreNetwork::Testnet => Network::Testnet,
        CoreNetwork::Local => Network::Local,
    };
    Some((offer.uuid().as_u128(), network))
}

/// Decodes an offer with `consensus::deserialize` of `farcaster_core`, makes it public with
/// `Offer::to_public_v1`, sets the version with `Version::new` and writes the public offer with its
/// `Display`. Claimed of it: what it gives depends on the arguments alone; the text is a prefix of
/// six ASCII characters and at least as many behind it; and `PublicOffer::from_str` reads the text
/// as an offer that is written the same way. A port of zero, which the encoding has no place for,
/// is left out of the last claim.
#[verifier::external_body]
fn write_offer(version: u16, encoding: &Vec<u8>, node_id: &str, peer_address: InetSocketAddr) -> (r:
    Option<String>)
    ensures
        text::text_of(r) == offer_made(version, encoding@, node_id@, peer_address),
        r matches Some(text) ==> has_offer_shape(text@),
        r matches Some(text) ==> (peer_address.host() matches Some((_, port)) ==> port != 0)
            ==> offer_in(text@) is Ok && offer_in(text@)->Ok_0 == text@,
{
    let offer: CoreOffer = deserialize(encoding).ok()?;
    let socket = match peer_address {
        InetSocketAddr::IPv4 { ip, port } =>
            InetSocket::socket(InetAddr::from(ip.to_be_bytes()).try_into().ok()?, port),
        InetSocketAddr::IPv6 { ip, port } =>
            InetSocket::socket(InetAddr::from(ip.to_be_bytes()).try_into().ok()?, port),
        InetSocketAddr::Tor(key) => {
            let key = [key.hi.to_be_bytes(), key.lo.to_be_bytes()].concat();
            InetSocket::tor3(TorPublicKeyV3::from_bytes(key.as_slice().try_into().ok()?).ok()?)
        }
    };
    let mut public = offer.to_public_v1(node_id.parse().ok()?, socket);
    public.version = Version::new(version);
    Some(public.to_string())
}

/// Reads the text of a public offer and gives the offer's own text, or the words for why it is
/// none. A text that is too short for any offer, or that cannot be cut behind its prefix, is none
/// without words.
pub fn offer_text(text: &str) -> (r: Result<String, Option<String>>)
    ensures
        match offer_named(text@) {
            Ok(own) => r matches Ok(s) && s@ == own,
            Err(words) => r matches Err(w) && text::text_of(w) == words,
        },
{
    let bytes = text.as_bytes();
    if bytes.len() < 6 || !text.is_char_boundary(6) {
        return Err(None);
    }
    if bytes.len() < 12 && bytes[0] == 79 && bytes[1] == 102 && bytes[2] == 102 && bytes[3] == 101
        && bytes[4] == 114 && bytes[5] == 58 {
        return Err(None);
    }
    match read_offer(text) {
        Ok(own) => Ok(own),
        Err(words) => Err(Some(words)),
    }
}

impl View for Offer {
    type V = Terms;

    closed spec fn view(&self) -> Terms {
        Terms { uuid: self.uuid, network: self.network, encoding: self.encoding@ }
    }
}

impl View for PublicOffer {
    type V = PublicTerms;

    closed spec fn view(&self) -> PublicTerms {
        PublicTerms {
            version: self.version,
            offer: self.offer@,
            node_id: self.node_id,
            peer_address: self.peer_address,
            text: self.text,
        }
    }
}

/// The content of public offers.
pub open spec fn offer_views(v: Seq<PublicOffer>) -> Seq<PublicTerms> {
    Seq::new(v.len(), |i: int| v[i]@)
}

impl Terms {
    /// The identifier and the network are those of the encoding.
    pub open spec fn agree(self) -> bool {
        terms_in(self.encoding) == Some((self.uuid.uuid, self.network))
    }

    /// The text of the public offer of the first version that the offer makes up with a node, if
    /// it does.
    pub open spec fn made_public(
        self,
        node_id: PublicKey,
        peer_address: InetSocketAddr,
    ) -> Option<Seq<char>> {
        offer_made(1, self.encoding, node_id.hex(), peer_address)
    }
}

impl PublicTerms {
    /// The text is that of the version, the offer and the node.
    pub open spec fn agree(self) -> bool {
        &&& self.offer.agree()
        &&& offer_made(self.version, self.offer.encoding, self.node_id.hex(), self.peer_address)
            == Some(self.text@)
    }

    /// The identifier of the offer.
    pub open spec fn uuid(self) -> OfferId {
        self.offer.uuid
    }
}

/// The same bytes again.
pub(crate) fn copy_bytes(v: &Vec<u8>) -> (r: Vec<u8>)
    ensures
        r@ == v@,
{
    let r = v.clone();
    assert(r@ =~= v@);
    r
}

impl Clone for Offer {
    fn clone(&self) -> (r: Self)
        ensures
            r@ == self@,
    {
        proof {
            use_type_invariant(self);
        }
        Offer { uuid: self.uuid, network: self.network, encoding: copy_bytes(&self.encoding) }
    }
}

impl Clone for PublicOffer {
    fn clone(&self) -> (r: Self)
        ensures
            r@ == self@,
    {
        proof {
            use_type_invariant(self);
        }
        PublicOffer {
            version: self.version,
            offer: self.offer.clone(),
            node_id: self.node_id,
            peer_address: self.peer_address,
            text: self.text.clone(),
        }
    }
}

impl Offer {
    #[verifier::type_invariant]
    spec fn wf(&self) -> bool {
        self@.agree()
    }

    /// The offer that some bytes are the encoding of, if they are one.
    pub fn new(encoding: Vec<u8>) -> (r: Option<Offer>)
        ensures
            r is Some <==> terms_in(encoding@) is Some,
            r matches Some(offer) ==> offer@.encoding == encoding@ && offer@.agree(),
    {
        match read_terms(&encoding) {
            Some((uuid, network)) => Some(Offer { uuid: OfferId { uuid }, network, encoding }),
            None => None,
        }
    }

    /// The identifier.
    pub fn id(&self) -> (id: OfferId)
        ensures
            id == self@.uuid,
            self@.agree(),
    {
        proof {
            use_type_invariant(self);
        }
        self.uuid
    }

    /// The encoding.
    pub fn encoding(&self) -> (v: &Vec<u8>)
        ensures
            v@ == self@.encoding,
    {
        &self.encoding
    }

    /// Makes the offer public. There is no public offer where the node's key is no key.
    pub fn to_public_v1(self, node_id: PublicKey, peer_address: InetSocketAddr) -> (r: Option<
        PublicOffer,
    >)
        ensures
            r is Some <==> self@.made_public(node_id, peer_address) is Some,
            r matches Some(public) ==> {
                &&& public@.version == 1
                &&& public@.offer == self@
                &&& public@.node_id == node_id
                &&& public@.peer_address == peer_address
                &&& public@.agree()
                &&& (peer_address.host() matches Some((_, port)) ==> port != 0) ==> offer_named(
                    public@.text@,
                ) == Ok::<Seq<char>, Option<Seq<char>>>(public@.text@)
            },
    {
        PublicOffer::new(1, self, node_id, peer_address)
    }
}

impl PublicOffer {
    #[verifier::type_invariant]
    spec fn wf(&self) -> bool {
        self@.agree()
    }

    /// The public offer that a version, an offer and a node make up. There is none where the
    /// node's key is no key.
    pub fn new(
        version: u16,
        offer: Offer,
        node_id: PublicKey,
        peer_address: InetSocketAddr,
    ) -> (r: Option<PublicOffer>)
        ensures
            r is Some <==> offer_made(
                version,
                offer@.encoding,
                node_id.hex(),
                peer_address,
            ) is Some,
            r matches Some(public) ==> {
                &&& public@.version == version
                &&& public@.offer == offer@
                &&& public@.node_id == node_id
                &&& public@.peer_address == peer_address
                &&& public@.agree()
                &&& (peer_address.host() matches Some((_, port)) ==> port != 0) ==> offer_named(
                    public@.text@,
                ) == Ok::<Seq<char>, Option<Seq<char>>>(public@.text@)
            },
    {
        proof {
            use_type_invariant(&offer);
        }
        let key = node_id.to_hex();
        match write_offer(version, &offer.encoding, key.as_str(), peer_address) {
            Some(text) => Some(PublicOffer { version, offer, node_id, peer_address, text }),
            None => None,
        }
    }

    /// The identifier of the offer.
    pub fn id(&self) -> (id: OfferId)
        ensures
            id == self@.uuid(),
            self@.agree(),
    {
        proof {
            use_type_invariant(self);
        }
        self.offer.uuid
    }

    /// The network that the offer is for.
    pub fn network(&self) -> (n: Network)
        ensures
            n == self@.offer.network,
    {
        self.offer.network
    }

    /// The version.
    pub fn version(&self) -> (n: u16)
        ensures
            n == self@.version,
    {
        self.version
    }

    /// The offer itself.
    pub fn offer(&self) -> (o: &Offer)
        ensures
            o@ == self@.offer,
    {
        &self.offer
    }

    /// The key of the node that makes the offer.
    pub fn node_id(&self) -> (k: PublicKey)
        ensures
            k == self@.node_id,
    {
        self.node_id
    }

    /// The socket of the node that makes the offer.
    pub fn peer_address(&self) -> (a: InetSocketAddr)
        ensures
            a == self@.peer_address,
    {
        self.peer_address
    }

    /// The text, which tells offers apart.
    pub fn text(&self) -> (s: &String)
        ensures
            *s == self@.text,
            self@.agree(),
    {
        proof {
            use_type_invariant(self);
        }
        &self.text
    }
}

} // verus!
