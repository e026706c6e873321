//! The requests that daemons and clients send each other.

use crate::addr::{NodeAddr, RemoteSocketAddr};
use crate::chain::{BitcoinAddress, Coin, MoneroAddress};
use crate::ident::{self, ChannelId, OfferId, PublicKey, RequestId, SecretKey, SwapId};
use crate::offer::{copy_bytes, Offer, PublicOffer, TradeRole};
use crate::service::{ServiceBus, ServiceId};
use crate::text::{self, append_text, decimal_text};
use vstd::prelude::*;
use vstd::string::StringExecFns;

verus! {

/// Why a request was not carried out.
#[derive(PartialEq, Eq, Debug)]
pub enum Error {
    /// Requests of this kind do not belong on this bus.
    NotSupported(ServiceBus, RequestType),
    /// A request could not be handed to its bus, in the words of the bus.
    Send(String),
    /// A daemon could not be launched, or its state not be read, in the words of the system.
    Launch(String),
    /// The text of a public offer could not be read, in the words of the reader if it has any.
    OfferFormat(Option<String>),
    /// The text of a Monero address could not be read, in the words of the reader if it has any.
    AddressFormat(Option<String>),
    /// The key of the node that makes an offer is no key.
    InvalidKey,
    /// The public offer to launch a swap for is not registered.
    UnknownOffer,
    /// The swap is not running.
    UnknownSwapd,
    /// The service is not the daemon of a swap.
    NotSwapd,
    /// The request that waited for keys has no place for them.
    UnexpectedPending,
    /// The chain has no servers in the configuration.
    InvalidConfig,
    /// Only framed TCP can be listened on.
    OnlyTcp,
    /// An onion service has no IP address to listen on.
    NoSocketAddr,
    /// The peer is connected already.
    AlreadyConnected(NodeAddr),
    /// The peer could not be connected to.
    InvalidEndpoint,
    /// The peer was silent for too long.
    TimedOut,
    /// The connection to the peer failed, in the words of the connection.
    Connection(String),
    /// The peer did not answer a ping.
    NotResponding,
}

fn copy_text(text: &Option<String>) -> (r: Option<String>)
    ensures
        r == *text,
{
    match text {
        Some(s) => Some(s.clone()),
        None => None,
    }
}

impl Clone for Error {
    fn clone(&self) -> (r: Self)
        ensures
            r == *self,
    {
        match self {
            Error::NotSupported(bus, kind) => Error::NotSupported(*bus, *kind),
            Error::Send(s) => Error::Send(s.clone()),
            Error::Launch(s) => Error::Launch(s.clone()),
            Error::OfferFormat(s) => Error::OfferFormat(copy_text(s)),
            Error::AddressFormat(s) => Error::AddressFormat(copy_text(s)),
            Error::InvalidKey => Error::InvalidKey,
            Error::UnknownOffer => Error::UnknownOffer,
            Error::UnknownSwapd => Error::UnknownSwapd,
            Error::NotSwapd => Error::NotSwapd,
            Error::UnexpectedPending => Error::UnexpectedPending,
            Error::InvalidConfig => Error::InvalidConfig,
            Error::OnlyTcp => Error::OnlyTcp,
            Error::NoSocketAddr => Error::NoSocketAddr,
            Error::AlreadyConnected(node) => Error::AlreadyConnected(*node),
            Error::InvalidEndpoint => Error::InvalidEndpoint,
            Error::TimedOut => Error::TimedOut,
            Error::Connection(s) => Error::Connection(s.clone()),
            Error::NotResponding => Error::NotResponding,
        }
    }
}

impl Error {
    /// The words that the error holds: those of the system, the bus or the connection, or its own.
    pub open spec fn words(self) -> Option<Seq<char>> {
        match self {
            Error::Send(s) => Some(s@),
            Error::Launch(s) => Some(s@),
            Error::Connection(s) => Some(s@),
            Error::OfferFormat(s) => text::text_of(s),
            Error::AddressFormat(s) => text::text_of(s),
            Error::UnknownOffer => Some("unknown public_offer"@),
            Error::UnknownSwapd => Some("Unknown swapd"@),
            Error::UnexpectedPending => Some(
                "Unexpected request: calling back from Keypair handling"@,
            ),
            Error::OnlyTcp => Some("Only TCP is supported for now as an overlay protocol"@),
            Error::AlreadyConnected(node) => Some("Already connected to peer "@ + node.text()),
            _ => None,
        }
    }

    /// The words that the error holds, if it holds any.
    pub fn details(&self) -> (text: Option<String>)
        ensures
            text::text_of(text) == self.words(),
    {
        match self {
            Error::Send(s) => Some(s.clone()),
            Error::Launch(s) => Some(s.clone()),
            Error::Connection(s) => Some(s.clone()),
            Error::OfferFormat(s) => copy_text(s),
            Error::AddressFormat(s) => copy_text(s),
            Error::UnknownOffer => Some(String::from_str("unknown public_offer")),
            Error::UnknownSwapd => Some(String::from_str("Unknown swapd")),
            Error::UnexpectedPending => Some(
                String::from_str("Unexpected request: calling back from Keypair handling"),
            ),
            Error::OnlyTcp => Some(
                String::from_str("Only TCP is supported for now as an overlay protocol"),
            ),
            Error::AlreadyConnected(node) => {
                let node_text = node.to_text();
                Some(append_text("Already connected to peer ", node_text.as_str()))
            },
            _ => None,
        }
    }
}

/// A message to a person, with what it is about.
#[derive(PartialEq, Eq, Debug)]
pub enum Notice {
    /// Words of another daemon.
    Words(String),
    SwapOperational(ServiceId),
    ConnectedTo(ServiceId),
    PeerdLaunched(u32),
    AlreadyListening(RemoteSocketAddr),
    AlreadyConnected(NodeAddr),
    /// Holds the text of the public offer.
    ShareOffer(String),
    OfferRegistered(OfferId),
    OfferKnown,
    /// Holds the text of the public offer.
    OfferTaken(String),
    NoProgressYet,
    UnknownSwapd,
    Trouble(Error),
}

impl Clone for Notice {
    fn clone(&self) -> (r: Self)
        ensures
            r == *self,
    {
        match self {
            Notice::Words(s) => Notice::Words(s.clone()),
            Notice::SwapOperational(s) => Notice::SwapOperational(*s),
            Notice::ConnectedTo(s) => Notice::ConnectedTo(*s),
            Notice::PeerdLaunched(pid) => Notice::PeerdLaunched(*pid),
            Notice::AlreadyListening(a) => Notice::AlreadyListening(*a),
            Notice::AlreadyConnected(n) => Notice::AlreadyConnected(*n),
            Notice::ShareOffer(s) => Notice::ShareOffer(s.clone()),
            Notice::OfferRegistered(id) => Notice::OfferRegistered(*id),
            Notice::OfferKnown => Notice::OfferKnown,
            Notice::OfferTaken(s) => Notice::OfferTaken(s.clone()),
            Notice::NoProgressYet => Notice::NoProgressYet,
            Notice::UnknownSwapd => Notice::UnknownSwapd,
            Notice::Trouble(e) => Notice::Trouble(e.clone()),
        }
    }
}

/// How a piece of a message looks.
#[derive(Clone, Copy, PartialEq, Eq, Structural, Debug, Hash)]
pub enum Style {
    Plain,
    BrightBlueBold,
    BrightYellowBold,
    BrightGreenBold,
    BrightBlueItalic,
}

/// A piece of a message.
#[derive(PartialEq, Eq, Debug)]
pub struct Piece {
    pub style: Style,
    pub text: String,
}

/// The content of pieces.
pub open spec fn piece_views(v: Seq<Piece>) -> Seq<(Style, Seq<char>)> {
    Seq::new(v.len(), |i: int| (v[i].style, v[i].text@))
}

/// The words of pieces, without their looks.
pub open spec fn plain_words(pieces: Seq<(Style, Seq<char>)>) -> Seq<char>
    decreases pieces.len(),
{
    if pieces.len() == 0 {
        Seq::empty()
    } else {
        plain_words(pieces.drop_last()) + pieces.last().1
    }
}

fn piece(style: Style, text: &str) -> (p: Piece)
    ensures
        p.style == style,
        p.text@ == text@,
{
    Piece { style, text: String::from_str(text) }
}

impl Notice {
    /// The message in pieces, where what it is about is written in the given way.
    pub open spec fn styled(self, subject: Seq<char>) -> Seq<(Style, Seq<char>)> {
        match self {
            Notice::Words(s) => seq![(Style::Plain, s@)],
            Notice::SwapOperational(_) => seq![
                (Style::Plain, "Swap daemon "@),
                (Style::Plain, subject),
                (Style::Plain, " operational"@),
            ],
            Notice::ConnectedTo(_) => seq![
                (Style::Plain, "Connected to "@),
                (Style::Plain, subject),
            ],
            Notice::PeerdLaunched(_) => seq![
                (Style::Plain, "New instance of peerd launched with PID "@),
                (Style::Plain, subject),
            ],
            Notice::AlreadyListening(_) => seq![
                (Style::Plain, "Already listening on "@),
                (Style::Plain, subject),
            ],
            Notice::AlreadyConnected(_) => seq![
                (Style::Plain, "Already connected to remote peer "@),
                (Style::BrightBlueItalic, subject),
            ],
            Notice::ShareOffer(_) => seq![
                (Style::BrightBlueBold, "Public offer registered, please share with taker: "@),
                (Style::Plain, " "@),
                (Style::BrightYellowBold, subject),
            ],
            Notice::OfferRegistered(_) => seq![
                (Style::BrightGreenBold, "Public offer registered"@),
                (Style::Plain, ": "@),
                (Style::BrightYellowBold, subject),
            ],
            Notice::OfferKnown => seq![
                (Style::Plain, "This Public offer was previously registered"@),
            ],
            Notice::OfferTaken(_) => seq![
                (Style::Plain, subject),
                (Style::Plain, " already exists or was already taken, ignoring request"@),
            ],
            Notice::NoProgressYet => seq![(Style::Plain, "No progress made yet on this swap"@)],
            Notice::UnknownSwapd => seq![(Style::Plain, "Unknown swapd"@)],
            Notice::Trouble(_) => seq![(Style::Plain, subject)],
        }
    }

    /// What the message is about, where that is written in one way only.
    pub open spec fn about(self) -> Option<Seq<char>> {
        match self {
            Notice::PeerdLaunched(pid) => Some(text::decimal_digits(pid as nat)),
            Notice::AlreadyConnected(node) => Some(node.text()),
            Notice::ShareOffer(s) => Some(s@),
            Notice::OfferRegistered(id) => Some(ident::hyphenated(id.uuid as nat)),
            Notice::OfferTaken(s) => Some(s@),
            Notice::Trouble(e) => e.words(),
            _ => None,
        }
    }

    /// What the message is about, where that is written in one way only. How services and
    /// listening sockets look is up to whoever shows the message.
    pub fn subject(&self) -> (s: Option<String>)
        ensures
            text::text_of(s) == self.about(),
    {
        match self {
            Notice::PeerdLaunched(pid) => Some(decimal_text(*pid as u64)),
            Notice::AlreadyConnected(node) => Some(node.to_text()),
            Notice::ShareOffer(s) => Some(s.clone()),
            Notice::OfferRegistered(id) => Some(id.to_text()),
            Notice::OfferTaken(s) => Some(s.clone()),
            Notice::Trouble(e) => e.details(),
            _ => None,
        }
    }

    /// Writes the message in pieces. What it is about is given; a message about nothing leaves it
    /// out.
    pub fn pieces(&self, subject: &str) -> (v: Vec<Piece>)
        ensures
            piece_views(v@) == self.styled(subject@),
    {
        let mut v: Vec<Piece> = Vec::new();
        match self {
            Notice::Words(s) => {
                v.push(piece(Style::Plain, s.as_str()));
            },
            Notice::SwapOperational(_) => {
                v.push(piece(Style::Plain, "Swap daemon "));
                v.push(piece(Style::Plain, subject));
                v.push(piece(Style::Plain, " operational"));
            },
            Notice::ConnectedTo(_) => {
                v.push(piece(Style::Plain, "Connected to "));
                v.push(piece(Style::Plain, subject));
            },
            Notice::PeerdLaunched(_) => {
                v.push(piece(Style::Plain, "New instance of peerd launched with PID "));
                v.push(piece(Style::Plain, subject));
            },
            Notice::AlreadyListening(_) => {
                v.push(piece(Style::Plain, "Already listening on "));
                v.push(piece(Style::Plain, subject));
            },
            Notice::AlreadyConnected(_) => {
                v.push(piece(Style::Plain, "Already connected to remote peer "));
                v.push(piece(Style::BrightBlueItalic, subject));
            },
            Notice::ShareOffer(_) => {
                v.push(
                    piece(
                        Style::BrightBlueBold,
                        "Public offer registered, please share with taker: ",
                    ),
                );
                v.push(piece(Style::Plain, " "));
                v.push(piece(Style::BrightYellowBold, subject));
            },
            Notice::OfferRegistered(_) => {
                v.push(piece(Style::BrightGreenBold, "Public offer registered"));
                v.push(piece(Style::Plain, ": "));
                v.push(piece(Style::BrightYellowBold, subject));
            },
            Notice::OfferKnown => {
                v.push(piece(Style::Plain, "This Public offer was previously registered"));
            },
            Notice::OfferTaken(_) => {
                v.push(piece(Style::Plain, subject));
                v.push(
                    piece(
                        Style::Plain,
                        " already exists or was already taken, ignoring request",
                    ),
                );
            },
            Notice::NoProgressYet => {
                v.push(piece(Style::Plain, "No progress made yet on this swap"));
            },
            Notice::UnknownSwapd => {
                v.push(piece(Style::Plain, "Unknown swapd"));
            },
            Notice::Trouble(_) => {
                v.push(piece(Style::Plain, subject));
            },
        }
        assert(piece_views(v@) =~= self.styled(subject@));
        v
    }

    /// Writes the message without looks.
    pub fn render(&self, subject: &str) -> (text: String)
        ensures
            text@ == plain_words(self.styled(subject@)),
    {
        let pieces = self.pieces(subject);
        let mut text = String::from_str("");
        let mut i: usize = 0;
        proof {
            reveal_strlit("");
            assert(text@ =~= plain_words(piece_views(pieces@).take(0)));
        }
        while i < pieces.len()
            invariant
                i <= pieces@.len(),
                text@ == plain_words(piece_views(pieces@).take(i as int)),
            decreases pieces@.len() - i,
        {
            text.append(pieces[i].text.as_str());
            i += 1;
            proof {
                let views = piece_views(pieces@);
                assert(views.take(i as int).drop_last() =~= views.take(i - 1));
            }
        }
        assert(piece_views(pieces@).take(i as int) =~= piece_views(pieces@));
        text
    }
}

/// How a swap ended.
#[derive(Clone, Copy, PartialEq, Eq, Structural, Debug, Hash)]
pub enum Outcome {
    Buy,
    Refund,
    Punish,
}

/// Something of one side of a swap, in its encoding: what the daemons here hand on unread.
pub struct Parcel {
    pub alice: bool,
    pub bytes: Seq<u8>,
}

/// The parameters of one side of a swap, in their encoding.
#[derive(PartialEq, Eq, Debug)]
pub enum Params {
    Alice(Vec<u8>),
    Bob(Vec<u8>),
}

/// The commitment of one side of a swap to its parameters, in its encoding.
#[derive(PartialEq, Eq, Debug)]
pub enum Commit {
    Alice(Vec<u8>),
    Bob(Vec<u8>),
}

impl View for Params {
    type V = Parcel;

    open spec fn view(&self) -> Parcel {
        match self {
            Params::Alice(v) => Parcel { alice: true, bytes: v@ },
            Params::Bob(v) => Parcel { alice: false, bytes: v@ },
        }
    }
}

impl View for Commit {
    type V = Parcel;

    open spec fn view(&self) -> Parcel {
        match self {
            Commit::Alice(v) => Parcel { alice: true, bytes: v@ },
            Commit::Bob(v) => Parcel { alice: false, bytes: v@ },
        }
    }
}

impl Clone for Params {
    fn clone(&self) -> (r: Self)
        ensures
            r@ == self@,
    {
        match self {
            Params::Alice(v) => Params::Alice(copy_bytes(v)),
            Params::Bob(v) => Params::Bob(copy_bytes(v)),
        }
    }
}

impl Clone for Commit {
    fn clone(&self) -> (r: Self)
        ensures
            r@ == self@,
    {
        match self {
            Commit::Alice(v) => Commit::Alice(copy_bytes(v)),
            Commit::Bob(v) => Commit::Bob(copy_bytes(v)),
        }
    }
}

/// What a swap daemon is told when it starts.
#[derive(PartialEq, Eq, Debug)]
pub struct InitSwap {
    pub peerd: ServiceId,
    pub report_to: Option<ServiceId>,
    pub local_params: Params,
    pub swap_id: SwapId,
    pub remote_commit: Option<Commit>,
    pub funding_address: Option<BitcoinAddress>,
}

/// The content of an [`InitSwap`].
pub struct SwapStart {
    pub peerd: ServiceId,
    pub report_to: Option<ServiceId>,
    pub local_params: Parcel,
    pub swap_id: SwapId,
    pub remote_commit: Option<Parcel>,
    pub funding_address: Option<BitcoinAddress>,
}

/// The content of a commitment that may be absent.
pub open spec fn parcel_of(c: Option<Commit>) -> Option<Parcel> {
    match c {
        Some(c) => Some(c@),
        None => None,
    }
}

impl View for InitSwap {
    type V = SwapStart;

    open spec fn view(&self) -> SwapStart {
        SwapStart {
            peerd: self.peerd,
            report_to: self.report_to,
            local_params: self.local_params@,
            swap_id: self.swap_id,
            remote_commit: parcel_of(self.remote_commit),
            funding_address: self.funding_address,
        }
    }
}

impl Clone for InitSwap {
    fn clone(&self) -> (r: Self)
        ensures
            r@ == self@,
    {
        let remote_commit = match &self.remote_commit {
            Some(c) => Some(c.clone()),
            None => None,
        };
        let funding_address = match &self.funding_address {
            Some(a) => Some(a.clone()),
            None => None,
        };
        InitSwap {
            peerd: self.peerd,
            report_to: self.report_to,
            local_params: self.local_params.clone(),
            swap_id: self.swap_id,
            remote_commit,
            funding_address,
        }
    }
}

/// The order to launch a swap for an offer.
#[derive(PartialEq, Eq, Debug)]
pub struct LaunchSwap {
    pub local_trade_role: TradeRole,
    pub public_offer: PublicOffer,
    pub local_params: Params,
    pub swap_id: SwapId,
    pub remote_commit: Option<Commit>,
    pub funding_address: Option<BitcoinAddress>,
}

/// An offer to be made public, and where its maker is to be reached and paid.
#[derive(PartialEq, Eq, Debug)]
pub struct ProtoPublicOffer {
    pub offer: Offer,
    pub public_addr: RemoteSocketAddr,
    pub bind_addr: RemoteSocketAddr,
    pub peer_secret_key: Option<SecretKey>,
    pub peer_public_key: Option<PublicKey>,
    pub arbitrating_addr: BitcoinAddress,
    pub accordant_addr: String,
}

/// A public offer to be taken, and where its taker is to be paid.
#[derive(PartialEq, Eq, Debug)]
pub struct PubOffer {
    pub public_offer: PublicOffer,
    pub external_address: BitcoinAddress,
    pub internal_address: String,
    pub peer_secret_key: Option<SecretKey>,
}

/// A taker's commitment to a swap for an offer.
#[derive(PartialEq, Eq, Debug)]
pub struct TakeCommit {
    pub commit: Commit,
    /// The text of the public offer.
    pub public_offer: String,
    pub swap_id: SwapId,
}

/// A message of the swap protocol.
#[derive(PartialEq, Eq, Debug)]
pub enum Msg {
    TakerCommit(TakeCommit),
    /// Any other message, in its encoding.
    Other(Vec<u8>),
}

/// The coins that a swap waits for.
#[derive(PartialEq, Eq, Debug)]
#[allow(inconsistent_fields)]
pub enum FundingInfo {
    /// The amount is in satoshi.
    Bitcoin { swap_id: SwapId, address: BitcoinAddress, amount: u64 },
    /// The amount is in piconero.
    Monero { swap_id: SwapId, address: MoneroAddress, amount: u64 },
}

/// What there is to know of a node.
#[derive(PartialEq, Eq, Debug)]
pub struct NodeInfo {
    pub node_ids: Vec<PublicKey>,
    pub listens: Vec<RemoteSocketAddr>,
    /// In nanoseconds.
    pub uptime: u128,
    /// In seconds since the start of 1970.
    pub since: u64,
    pub peers: Vec<NodeAddr>,
    pub swaps: Vec<SwapId>,
    pub offers: Vec<PublicOffer>,
}

/// The first message of a connection.
#[derive(PartialEq, Eq, Debug)]
pub struct Init {
    pub global_features: Vec<u8>,
    pub local_features: Vec<u8>,
    pub assets: Vec<u8>,
    pub unknown_tlvs: Vec<u8>,
}

/// A message between peers.
#[derive(PartialEq, Eq, Debug)]
pub enum Messages {
    Init(Init),
    Ping { ignored: Vec<u8>, pong_size: u16 },
    Pong(Vec<u8>),
    /// In its encoding.
    OpenChannel(Vec<u8>),
    /// The terms are in their encoding.
    AcceptChannel { temporary_channel_id: ChannelId, terms: Vec<u8> },
    /// Any other message, in its encoding.
    Other(Vec<u8>),
}

/// A request.
#[derive(PartialEq, Eq, Debug)]
pub enum Request {
    Hello,
    Terminate,
    PeerMessage(Messages),
    PingPeer,
    Protocol(Msg),
    BitcoinAddress(SwapId, BitcoinAddress),
    MoneroAddress(SwapId, MoneroAddress),
    LaunchSwap(LaunchSwap),
    MakeSwap(InitSwap),
    TakeSwap(InitSwap),
    SwapOutcome(Outcome),
    GetKeys { token: String, id: RequestId },
    Keys { secret_key: SecretKey, public_key: PublicKey, id: RequestId },
    GetInfo,
    NodeInfo(NodeInfo),
    ListPeers,
    PeerList(Vec<NodeAddr>),
    ListSwaps,
    SwapList(Vec<SwapId>),
    ListOffers,
    OfferList(Vec<PublicOffer>),
    ListListens,
    ListenList(Vec<String>),
    MakeOffer(ProtoPublicOffer),
    TakeOffer(PubOffer),
    Progress(Notice),
    Success(Option<Notice>),
    Failure { code: u16, info: Notice },
    ReadProgress(SwapId),
    FundingInfo(FundingInfo),
    FundingCompleted(Coin),
    FundingCanceled(Coin),
    NeedsFunding(Coin),
    /// Text for a person.
    String(String),
    /// Any other request, in its encoding.
    Other(Vec<u8>),
}

/// The kind of a request.
#[derive(Clone, Copy, PartialEq, Eq, Structural, Debug, Hash)]
pub enum RequestType {
    Hello,
    Terminate,
    PeerMessage,
    PingPeer,
    Protocol,
    BitcoinAddress,
    MoneroAddress,
    LaunchSwap,
    MakeSwap,
    TakeSwap,
    SwapOutcome,
    GetKeys,
    Keys,
    GetInfo,
    NodeInfo,
    ListPeers,
    PeerList,
    ListSwaps,
    SwapList,
    ListOffers,
    OfferList,
    ListListens,
    ListenList,
    MakeOffer,
    TakeOffer,
    Progress,
    Success,
    Failure,
    ReadProgress,
    FundingInfo,
    FundingCompleted,
    FundingCanceled,
    NeedsFunding,
    String,
    Other,
}

impl Request {
    /// The kind of the request.
    pub open spec fn kind(self) -> RequestType {
        match self {
            Request::Hello => RequestType::Hello,
            Request::Terminate => RequestType::Terminate,
            Request::PeerMessage(_) => RequestType::PeerMessage,
            Request::PingPeer => RequestType::PingPeer,
            Request::Protocol(_) => RequestType::Protocol,
            Request::BitcoinAddress(_, _) => RequestType::BitcoinAddress,
            Request::MoneroAddress(_, _) => RequestType::MoneroAddress,
            Request::LaunchSwap(_) => RequestType::LaunchSwap,
            Request::MakeSwap(_) => RequestType::MakeSwap,
            Request::TakeSwap(_) => RequestType::TakeSwap,
            Request::SwapOutcome(_) => RequestType::SwapOutcome,
            Request::GetKeys { .. } => RequestType::GetKeys,
            Request::Keys { .. } => RequestType::Keys,
            Request::GetInfo => RequestType::GetInfo,
            Request::NodeInfo(_) => RequestType::NodeInfo,
            Request::ListPeers => RequestType::ListPeers,
            Request::PeerList(_) => RequestType::PeerList,
            Request::ListSwaps => RequestType::ListSwaps,
            Request::SwapList(_) => RequestType::SwapList,
            Request::ListOffers => RequestType::ListOffers,
            Request::OfferList(_) => RequestType::OfferList,
            Request::ListListens => RequestType::ListListens,
            Request::ListenList(_) => RequestType::ListenList,
            Request::MakeOffer(_) => RequestType::MakeOffer,
            Request::TakeOffer(_) => RequestType::TakeOffer,
            Request::Progress(_) => RequestType::Progress,
            Request::Success(_) => RequestType::Success,
            Request::Failure { .. } => RequestType::Failure,
            Request::ReadProgress(_) => RequestType::ReadProgress,
            Request::FundingInfo(_) => RequestType::FundingInfo,
            Request::FundingCompleted(_) => RequestType::FundingCompleted,
            Request::FundingCanceled(_) => RequestType::FundingCanceled,
            Request::NeedsFunding(_) => RequestType::NeedsFunding,
            Request::String(_) => RequestType::String,
            Request::Other(_) => RequestType::Other,
        }
    }

    /// The kind of the request.
    pub fn get_type(&self) -> (t: RequestType)
        ensures
            t == self.kind(),
    {
        match self {
            Request::Hello => RequestType::Hello,
            Request::Terminate => RequestType::Terminate,
            Request::PeerMessage(_) => RequestType::PeerMessage,
            Request::PingPeer => RequestType::PingPeer,
            Request::Protocol(_) => RequestType::Protocol,
            Request::BitcoinAddress(_, _) => RequestType::BitcoinAddress,
            Request::MoneroAddress(_, _) => RequestType::MoneroAddress,
            Request::LaunchSwap(_) => RequestType::LaunchSwap,
            Request::MakeSwap(_) => RequestType::MakeSwap,
            Request::TakeSwap(_) => RequestType::TakeSwap,
            Request::SwapOutcome(_) => RequestType::SwapOutcome,
            Request::GetKeys { .. } => RequestType::GetKeys,
            Request::Keys { .. } => RequestType::Keys,
            Request::GetInfo => RequestType::GetInfo,
            Request::NodeInfo(_) => RequestType::NodeInfo,
            Request::ListPeers => RequestType::ListPeers,
            Request::PeerList(_) => RequestType::PeerList,
            Request::ListSwaps => RequestType::ListSwaps,
            Request::SwapList(_) => RequestType::SwapList,
            Request::ListOffers => RequestType::ListOffers,
            Request::OfferList(_) => RequestType::OfferList,
            Request::ListListens => RequestType::ListListens,
            Request::ListenList(_) => RequestType::ListenList,
            Request::MakeOffer(_) => RequestType::MakeOffer,
            Request::TakeOffer(_) => RequestType::TakeOffer,
            Request::Progress(_) => RequestType::Progress,
            Request::Success(_) => RequestType::Success,
            Request::Failure { .. } => RequestType::Failure,
            Request::ReadProgress(_) => RequestType::ReadProgress,
            Request::FundingInfo(_) => RequestType::FundingInfo,
            Request::FundingCompleted(_) => RequestType::FundingCompleted,
            Request::FundingCanceled(_) => RequestType::FundingCanceled,
            Request::NeedsFunding(_) => RequestType::NeedsFunding,
            Request::String(_) => RequestType::String,
            Request::Other(_) => RequestType::Other,
        }
    }
}

} // verus!
