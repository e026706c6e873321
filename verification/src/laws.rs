//! What holds of numbers, addresses and words wherever they are written down.

use crate::addr::{self, InetSocketAddr, IpAddr, NodeAddr, RemoteSocketAddr};
use crate::chain::{self, BitcoinNetwork, Coin, MoneroNetwork, Network};
use crate::config::{Config, PerNetwork};
use crate::farcasterd::stats::Stats;
use crate::ident::{self, OfferId, PublicKey, SecretKey, SwapId};
use crate::offer::{self, Offer, PublicOffer, PublicTerms, TradeRole};
use crate::random;
use crate::rpc::{self, Commit, Error, InitSwap, Notice, Outcome, Params, Parcel, Style};
use crate::service::{self, ServiceId};
use crate::text;
use vstd::arithmetic::{div_mod, power};
use vstd::prelude::*;

verus! {

/// The number that decimal digits spell.
pub open spec fn read_decimal(s: Seq<char>) -> int
    decreases s.len(),
{
    if s.len() == 0 {
        0
    } else {
        read_decimal(s.drop_last()) * 10 + (s.last() as int - '0' as int)
    }
}

/// A decimal digit.
pub open spec fn is_decimal(c: char) -> bool {
    '0' as int <= c as int <= '9' as int
}

/// Decimal digits spell the number that they were written for, and no number starts with a zero
/// but zero itself.
pub proof fn law_decimal_digits_spell_the_number(n: nat)
    ensures
        read_decimal(text::decimal_digits(n)) == n,
        text::decimal_digits(n).len() > 0,
        forall|i: int|
            0 <= i < text::decimal_digits(n).len() ==> is_decimal(
                #[trigger] text::decimal_digits(n)[i],
            ),
        n > 0 ==> text::decimal_digits(n)[0] != '0',
    decreases n,
{
    let s = text::decimal_digits(n);
    if n < 10 {
        assert(s.drop_last() =~= Seq::<char>::empty());
        reveal_with_fuel(read_decimal, 2);
    } else {
        law_decimal_digits_spell_the_number(n / 10);
        assert(s.drop_last() =~= text::decimal_digits(n / 10));
        assert(s[0] == text::decimal_digits(n / 10)[0]);
    }
}

/// The number that a hexadecimal digit stands for.
pub open spec fn hex_value(c: char) -> int {
    if '0' as int <= c as int <= '9' as int {
        c as int - '0' as int
    } else {
        c as int - 'a' as int + 10
    }
}

/// A hexadecimal digit, in lower case.
pub open spec fn is_hex(c: char) -> bool {
    '0' as int <= c as int <= '9' as int || 'a' as int <= c as int <= 'f' as int
}

/// The number that hexadecimal digits spell.
pub open spec fn read_hex(s: Seq<char>) -> int
    decreases s.len(),
{
    if s.len() == 0 {
        0
    } else {
        read_hex(s.drop_last()) * 16 + hex_value(s.last())
    }
}

/// As many hexadecimal digits as asked for spell the number, or what is left of it when the digits
/// before them are cut off.
pub proof fn law_hex_digits_spell_the_number(n: nat, width: nat)
    ensures
        text::hex_digits(n, width).len() == width,
        read_hex(text::hex_digits(n, width)) == (n as int) % power::pow(16, width),
        forall|i: int| 0 <= i < width ==> is_hex(#[trigger] text::hex_digits(n, width)[i]),
    decreases width,
{
    let s = text::hex_digits(n, width);
    if width == 0 {
        power::lemma_pow0(16);
    } else {
        let w = (width - 1) as nat;
        law_hex_digits_spell_the_number(n / 16, w);
        assert(s.drop_last() =~= text::hex_digits(n / 16, w));
        power::lemma_pow_positive(16, w);
        assert(power::pow(16, width) == 16 * power::pow(16, w)) by {
            reveal(power::pow);
        }
        div_mod::lemma_mod_breakdown(n as int, 16, power::pow(16, w));
    }
}

proof fn lemma_pow_of_halves()
    ensures
        power::pow(16, 32) == u128::MAX + 1,
{
    reveal(power::pow);
    reveal_with_fuel(power::pow, 33);
}

/// Cutting hexadecimal digits in two gives those of the number without its last digits, and its
/// last digits.
proof fn lemma_hex_parts(n: nat, front: nat, back: nat)
    ensures
        text::hex_digits(n, front + back) == text::hex_digits(
            (n as int / power::pow(16, back)) as nat,
            front,
        ) + text::hex_digits(n, back),
    decreases back,
{
    let whole = text::hex_digits(n, front + back);
    if back == 0 {
        power::lemma_pow0(16);
        assert(whole =~= text::hex_digits(n, front) + text::hex_digits(n, 0));
    } else {
        let b = (back - 1) as nat;
        lemma_hex_parts(n / 16, front, b);
        power::lemma_pow_positive(16, b);
        assert(power::pow(16, back) == 16 * power::pow(16, b)) by {
            reveal(power::pow);
        }
        div_mod::lemma_div_denominator(n as int, 16, power::pow(16, b));
        assert((front + back - 1) as nat == front + b);
        let top = text::hex_digits((n as int / power::pow(16, back)) as nat, front);
        assert(whole =~= top + text::hex_digits(n, back));
    }
}

/// Two halves of 16 bytes are written as 64 hexadecimal digits: first those that spell the upper
/// half, then those that spell the lower one.
pub proof fn law_halves_are_written_one_after_the_other(hi: u128, lo: u128)
    ensures
        ident::hex32(hi, lo).len() == 64,
        read_hex(ident::hex32(hi, lo).take(32)) == hi,
        read_hex(ident::hex32(hi, lo).skip(32)) == lo,
        forall|i: int| 0 <= i < 64 ==> is_hex(#[trigger] ident::hex32(hi, lo)[i]),
{
    let s = ident::hex32(hi, lo);
    law_hex_digits_spell_the_number(hi as nat, 32);
    law_hex_digits_spell_the_number(lo as nat, 32);
    lemma_pow_of_halves();
    div_mod::lemma_small_mod(hi as nat, (u128::MAX + 1) as nat);
    div_mod::lemma_small_mod(lo as nat, (u128::MAX + 1) as nat);
    let a = text::hex_digits(hi as nat, 32);
    let b = text::hex_digits(lo as nat, 32);
    assert(s.take(32) =~= a);
    assert(s.skip(32) =~= b);
    assert forall|i: int| 0 <= i < 64 implies is_hex(#[trigger] s[i]) by {
        if i < 32 {
            assert(s[i] == a[i]);
        } else {
            assert(s[i] == b[i - 32]);
        }
    }
}

/// A UUID is written as its 32 hexadecimal digits, with a hyphen behind the eighth, the twelfth, the
/// sixteenth and the twentieth of them.
pub proof fn law_uuid_is_its_digits_with_hyphens(id: OfferId)
    ensures
        ({
            let s = ident::hyphenated(id.uuid as nat);
            let digits = s.subrange(0, 8) + s.subrange(9, 13) + s.subrange(14, 18) + s.subrange(
                19,
                23,
            ) + s.subrange(24, 36);
            &&& s.len() == 36
            &&& s[8] == '-'
            &&& s[13] == '-'
            &&& s[18] == '-'
            &&& s[23] == '-'
            &&& digits == text::hex_digits(id.uuid as nat, 32)
            &&& read_hex(digits) == id.uuid
        }),
{
    let n = id.uuid as nat;
    let s = ident::hyphenated(n);
    reveal_strlit("-");
    assert(power::pow(16, 12) == 0x1000000000000 && power::pow(16, 16) == 0x10000000000000000 && power::pow(16, 20)
        == 0x100000000000000000000 && power::pow(16, 24) == 0x1000000000000000000000000) by {
        reveal(power::pow);
        reveal_with_fuel(power::pow, 25);
    }
    let a = text::hex_digits(n / 0x1000000000000000000000000, 8);
    let b = text::hex_digits(n / 0x100000000000000000000, 4);
    let c = text::hex_digits(n / 0x10000000000000000, 4);
    let d = text::hex_digits(n / 0x1000000000000, 4);
    let e = text::hex_digits(n, 12);
    law_hex_digits_spell_the_number(n / 0x1000000000000000000000000, 8);
    law_hex_digits_spell_the_number(n / 0x100000000000000000000, 4);
    law_hex_digits_spell_the_number(n / 0x10000000000000000, 4);
    law_hex_digits_spell_the_number(n / 0x1000000000000, 4);
    law_hex_digits_spell_the_number(n, 12);
    law_hex_digits_spell_the_number(n, 32);
    lemma_hex_parts(n, 8, 24);
    lemma_hex_parts(n, 4, 20);
    lemma_hex_parts(n, 4, 16);
    lemma_hex_parts(n, 4, 12);
    let digits = s.subrange(0, 8) + s.subrange(9, 13) + s.subrange(14, 18) + s.subrange(19, 23)
        + s.subrange(24, 36);
    assert(s.subrange(0, 8) =~= a);
    assert(s.subrange(9, 13) =~= b);
    assert(s.subrange(14, 18) =~= c);
    assert(s.subrange(19, 23) =~= d);
    assert(s.subrange(24, 36) =~= e);
    assert(a + b + c + d + e =~= a + (b + (c + (d + e))));
    lemma_pow_of_halves();
    div_mod::lemma_small_mod(n, (u128::MAX + 1) as nat);
}

/// An IP address of the fourth version is written as its four bytes, the highest first, in decimal
/// digits with dots in between.
pub proof fn law_ip_is_written_byte_by_byte(a: u8, b: u8, c: u8, d: u8, ip: u32)
    requires
        ip == a * 0x1000000 + b * 0x10000 + c * 0x100 + d,
    ensures
        addr::dotted(ip) == text::decimal_digits(a as nat) + "."@ + text::decimal_digits(b as nat)
            + "."@ + text::decimal_digits(c as nat) + "."@ + text::decimal_digits(d as nat),
        IpAddr::V4(ip).digits() == addr::dotted(ip),
{
    let n = ip as nat;
    assert(n / 0x1000000 == a && n / 0x10000 % 0x100 == b && n / 0x100 % 0x100 == c && n % 0x100
        == d) by (nonlinear_arith)
        requires
            n == a * 0x1000000 + b * 0x10000 + c * 0x100 + d,
    ;
}

/// What a socket has of a host: its IP address and its port. An onion service has neither.
pub proof fn law_socket_has_a_host(socket: InetSocketAddr)
    ensures
        socket is Tor <==> socket.host() is None,
        socket matches InetSocketAddr::IPv4 { ip, port } ==> socket.host() == Some(
            (IpAddr::V4(ip), port),
        ),
        socket matches InetSocketAddr::IPv6 { ip, port } ==> socket.host() == Some(
            (IpAddr::V6(ip), port),
        ),
        forall|ip: u128| #[trigger] IpAddr::V6(ip).digits() == addr::ipv6_text(ip),
{
}

/// An address is written as the scheme of its protocol and its socket.
pub proof fn law_url_starts_with_the_scheme(socket: InetSocketAddr)
    ensures
        RemoteSocketAddr::Ftcp(socket).url() == "lnp://"@ + addr::socket_text(socket),
        RemoteSocketAddr::Zmq(socket).url() == "lnpz://"@ + addr::socket_text(socket),
        RemoteSocketAddr::Http(socket).url() == "lnph://"@ + addr::socket_text(socket),
        RemoteSocketAddr::Websocket(socket).url() == "lnpws://"@ + addr::socket_text(socket),
        RemoteSocketAddr::Smtp(socket).url() == "lnpm://"@ + addr::socket_text(socket),
{
}

/// A node is written as its key, an at sign and its socket, whatever is spoken on it. The key starts
/// with whether the y coordinate is odd.
pub proof fn law_node_is_its_key_at_its_socket(key: PublicKey, socket: InetSocketAddr)
    ensures
        key.hex() == (if key.odd {
            "03"@
        } else {
            "02"@
        }) + ident::hex32(key.hi, key.lo),
        forall|a: RemoteSocketAddr|
            a == RemoteSocketAddr::Ftcp(socket) || a == RemoteSocketAddr::Zmq(socket) || a
                == RemoteSocketAddr::Http(socket) || a == RemoteSocketAddr::Websocket(socket) || a
                == RemoteSocketAddr::Smtp(socket) ==> (#[trigger] NodeAddr {
                node_id: key,
                remote_addr: a,
            }.text()) == key.hex() + "@"@ + addr::socket_text(socket),
{
}

/// The networks of the two chains that a swap can run on together are of one kind: those with coins
/// of worth, those for public tests, and those for use on one's own.
pub proof fn law_networks_of_one_kind(b: BitcoinNetwork, m: MoneroNetwork)
    ensures
        b.kind() is Mainnet <==> b is Bitcoin,
        b.kind() is Testnet <==> b is Testnet || b is Signet,
        b.kind() is Local <==> b is Regtest,
        m.kind() is Mainnet <==> m is Mainnet,
        m.kind() is Testnet <==> m is Stagenet,
        m.kind() is Local <==> m is Testnet,
{
}

/// Coins, networks and roles go by their names.
pub proof fn law_names(coin: Coin, network: Network, role: TradeRole)
    ensures
        coin.spelled() == (match coin {
            Coin::Bitcoin => "Bitcoin"@,
            Coin::Monero => "Monero"@,
        }),
        network.spelled() == (match network {
            Network::Mainnet => "Mainnet"@,
            Network::Testnet => "Testnet"@,
            Network::Local => "Local"@,
        }),
        role.spelled() == (match role {
            TradeRole::Maker => "Maker"@,
            TradeRole::Taker => "Taker"@,
        }),
{
}

/// What is set for a network is its own, and wallets to fund swaps from are used only if that is
/// switched on.
pub proof fn law_each_network_has_its_own_servers<T>(per: PerNetwork<T>, config: Config, n: Network)
    ensures
        per.of(Network::Mainnet) == per.mainnet,
        per.of(Network::Testnet) == per.testnet,
        per.of(Network::Local) == per.local,
        !config.auto_funding ==> config.funding_for(n) is None,
        config.auto_funding ==> config.funding_for(n) == (match n {
            Network::Mainnet => config.funding_servers.mainnet,
            Network::Testnet => config.funding_servers.testnet,
            Network::Local => config.funding_servers.local,
        }),
{
}

/// Only the daemon of a swap runs one, and it runs the swap that it is named after.
pub proof fn law_only_swap_daemons_run_swaps(source: ServiceId)
    ensures
        service::swap_of(source) is Some <==> source is Swap,
        source matches ServiceId::Swap(swap) ==> service::swap_of(source) == Some(swap),
{
}

/// The swap that a service runs is that of its daemon; another service is told to be none.
pub proof fn law_swap_is_read_off_its_daemon(source: &ServiceId, r: Result<SwapId, Error>)
    requires
        call_ensures(service::get_swap_id, (source,), r),
    ensures
        r is Ok <==> source is Swap,
        r matches Ok(swap) ==> *source == ServiceId::Swap(swap),
        r matches Err(e) ==> e is NotSwapd,
{
}

/// Identifiers and secret keys are written as their halves in hexadecimal digits, the upper one
/// first, and a UUID in its own form.
pub proof fn law_identifiers_are_written_in_hex(
    swap: &SwapId,
    swap_text: String,
    key: &SecretKey,
    key_text: String,
    offer: &OfferId,
    offer_text: String,
)
    requires
        call_ensures(SwapId::to_hex, (swap,), swap_text),
        call_ensures(SecretKey::to_hex, (key,), key_text),
        call_ensures(OfferId::to_text, (offer,), offer_text),
    ensures
        swap_text@.len() == 64,
        read_hex(swap_text@.take(32)) == swap.hi,
        read_hex(swap_text@.skip(32)) == swap.lo,
        key_text@.len() == 64,
        read_hex(key_text@.take(32)) == key.hi,
        read_hex(key_text@.skip(32)) == key.lo,
        offer_text@.len() == 36,
        offer_text@.subrange(0, 8) + offer_text@.subrange(9, 13) + offer_text@.subrange(14, 18)
            + offer_text@.subrange(19, 23) + offer_text@.subrange(24, 36) == text::hex_digits(
            offer.uuid as nat,
            32,
        ),
{
    law_halves_are_written_one_after_the_other(swap.hi, swap.lo);
    law_halves_are_written_one_after_the_other(key.hi, key.lo);
    law_uuid_is_its_digits_with_hyphens(*offer);
}

/// The share of swaps that succeeded is among all that ended, however they did.
pub proof fn law_success_is_among_the_ended(stats: &Stats, r: (u64, u128))
    requires
        call_ensures(Stats::success_share, (stats,), r),
    ensures
        r.0 == stats.success,
        r.1 == stats.success + stats.refund + stats.punish,
{
}

/// What happens to a swap moves the counts of that, by one, and no others.
pub proof fn law_each_event_moves_its_own_counts(s: Stats, outcome: Outcome, coin: Coin)
    requires
        s.success < u64::MAX,
        s.refund < u64::MAX,
        s.punish < u64::MAX,
        s.initialized < u64::MAX,
        0 < s.awaiting_funding_btc < u64::MAX,
        0 < s.awaiting_funding_xmr < u64::MAX,
        s.funded_btc < u64::MAX,
        s.funded_xmr < u64::MAX,
        s.funding_canceled_xmr < u64::MAX,
    ensures
        s.with_outcome(outcome) == (Stats {
            success: s.with_outcome(outcome).success,
            refund: s.with_outcome(outcome).refund,
            punish: s.with_outcome(outcome).punish,
            ..s
        }),
        s.with_outcome(outcome).success == s.success + (if outcome is Buy {
            1int
        } else {
            0
        }),
        s.with_outcome(outcome).refund == s.refund + (if outcome is Refund {
            1int
        } else {
            0
        }),
        s.with_outcome(outcome).punish == s.punish + (if outcome is Punish {
            1int
        } else {
            0
        }),
        s.with_initiated() == (Stats { initialized: (s.initialized + 1) as u64, ..s }),
        coin is Bitcoin ==> s.with_awaiting(coin) == (Stats {
            awaiting_funding_btc: (s.awaiting_funding_btc + 1) as u64,
            ..s
        }),
        coin is Monero ==> s.with_awaiting(coin) == (Stats {
            awaiting_funding_xmr: (s.awaiting_funding_xmr + 1) as u64,
            ..s
        }),
        coin is Bitcoin ==> s.with_awaiting(coin).with_funded(coin) == (Stats {
            funded_btc: (s.funded_btc + 1) as u64,
            ..s
        }),
        coin is Monero ==> s.with_awaiting(coin).with_funded(coin) == (Stats {
            funded_xmr: (s.funded_xmr + 1) as u64,
            ..s
        }),
        s.with_awaiting(Coin::Monero).with_canceled() == (Stats {
            funding_canceled_xmr: (s.funding_canceled_xmr + 1) as u64,
            ..s
        }),
{
}

/// A text is a Monero address if its bytes are all there and are one. A tag announces 69 bytes, or
/// 77 if it is one of an address that holds a payment identifier; fewer bytes than that are none,
/// without words. Bytes that start with no tag are left to the reader.
pub proof fn law_monero_address_is_whole(t: Seq<char>)
    ensures
        chain::base58_bytes(t) matches Err(words) ==> chain::monero_network(t) == Err::<
            MoneroNetwork,
            Option<Seq<char>>,
        >(Some(words)),
        chain::base58_bytes(t) matches Ok(bytes) ==> {
            let known = seq![18u8, 19, 24, 25, 36, 42, 53, 54, 63];
            let long = seq![19u8, 25, 54];
            let cut = bytes.len() == 0 || (known.contains(bytes[0]) && bytes.len() < 69) || (
            long.contains(bytes[0]) && bytes.len() < 77);
            chain::monero_network(t) == (if cut {
                Err::<MoneroNetwork, Option<Seq<char>>>(None)
            } else {
                match chain::address_network(bytes) {
                    Ok(network) => Ok(network),
                    Err(words) => Err(Some(words)),
                }
            })
        },
{
    if let Ok(bytes) = chain::base58_bytes(t) {
        let known = seq![18u8, 19, 24, 25, 36, 42, 53, 54, 63];
        let long = seq![19u8, 25, 54];
        assert(known[0] == 18 && known[1] == 19 && known[2] == 24 && known[3] == 25 && known[4]
            == 36 && known[5] == 42 && known[6] == 53 && known[7] == 54 && known[8] == 63);
        assert(long[0] == 19 && long[1] == 25 && long[2] == 54);
        if bytes.len() > 0 {
            assert(known.contains(bytes[0]) <==> chain::is_tag(bytes[0]));
            assert(long.contains(bytes[0]) <==> chain::is_integrated(bytes[0]));
        }
    }
}

/// A public offer is what its text says: the text is the one that its version, its terms, its key
/// and its socket are written as, and the identifier and the network are those of its terms.
pub proof fn law_public_offer_agrees_with_its_text(o: PublicTerms)
    ensures
        o.agree() <==> {
            &&& offer::terms_in(o.offer.encoding) == Some((o.offer.uuid.uuid, o.offer.network))
            &&& offer::offer_made(
                o.version,
                o.offer.encoding,
                (if o.node_id.odd {
                    "03"@
                } else {
                    "02"@
                }) + ident::hex32(o.node_id.hi, o.node_id.lo),
                o.peer_address,
            ) == Some(o.text@)
        },
        o.uuid() == o.offer.uuid,
        o.offer.agree() <==> offer::terms_in(o.offer.encoding) == Some(
            (o.offer.uuid.uuid, o.offer.network),
        ),
        o.offer.made_public(o.node_id, o.peer_address) == offer::offer_made(
            1,
            o.offer.encoding,
            o.node_id.hex(),
            o.peer_address,
        ),
{
}

/// An offer is read off its encoding, and that alone; there is none where the bytes are none.
pub proof fn law_offer_is_read_off_its_encoding(encoding: Vec<u8>, r: Option<Offer>)
    requires
        call_ensures(Offer::new, (encoding,), r),
    ensures
        match offer::terms_in(encoding@) {
            None => r is None,
            Some((uuid, network)) => {
                &&& r matches Some(o)
                &&& o@.uuid == (OfferId { uuid })
                &&& o@.network == network
                &&& o@.encoding == encoding@
            },
        },
{
}

/// A public offer of any version is made of its terms, its key and its socket, and its text is the
/// one that these are written as. There is none where they are written as nothing.
pub proof fn law_public_offer_is_made_of_its_parts(
    version: u16,
    terms: Offer,
    key: PublicKey,
    socket: InetSocketAddr,
    r: Option<PublicOffer>,
)
    requires
        call_ensures(PublicOffer::new, (version, terms, key, socket), r),
    ensures
        match offer::offer_made(
            version,
            terms@.encoding,
            (if key.odd {
                "03"@
            } else {
                "02"@
            }) + ident::hex32(key.hi, key.lo),
            socket,
        ) {
            None => r is None,
            Some(t) => {
                &&& r matches Some(o)
                &&& o@.version == version
                &&& o@.offer == terms@
                &&& o@.node_id == key
                &&& o@.peer_address == socket
                &&& o@.text@ == t
            },
        },
{
}

/// What is read off a public offer is what it holds.
pub proof fn law_parts_of_a_public_offer(
    o: &PublicOffer,
    id: OfferId,
    network: Network,
    version: u16,
    key: PublicKey,
    socket: InetSocketAddr,
    t: &String,
)
    requires
        call_ensures(PublicOffer::id, (o,), id),
        call_ensures(PublicOffer::network, (o,), network),
        call_ensures(PublicOffer::version, (o,), version),
        call_ensures(PublicOffer::node_id, (o,), key),
        call_ensures(PublicOffer::peer_address, (o,), socket),
        call_ensures(PublicOffer::text, (o,), t),
    ensures
        offer::terms_in(o@.offer.encoding) == Some((id.uuid, network)),
        offer::offer_made(
            version,
            o@.offer.encoding,
            (if key.odd {
                "03"@
            } else {
                "02"@
            }) + ident::hex32(key.hi, key.lo),
            socket,
        ) == Some(t@),
{
}

/// Random bytes are as many as asked for.
pub proof fn law_noise_is_as_long_as_asked_for(len: u16, v: Vec<u8>)
    requires
        call_ensures(random::noise, (len,), v),
    ensures
        v@.len() == len,
{
}

/// What a swap daemon is told when it starts is told in full.
pub proof fn law_start_is_told_in_full(init: InitSwap, params: Params, commit: Commit)
    ensures
        init@.peerd == init.peerd,
        init@.report_to == init.report_to,
        init@.local_params == init.local_params@,
        init@.swap_id == init.swap_id,
        init.remote_commit is None <==> init@.remote_commit is None,
        init.remote_commit matches Some(c) ==> init@.remote_commit == Some(c@),
        init@.funding_address == init.funding_address,
        params matches Params::Alice(v) ==> params@ == (Parcel { alice: true, bytes: v@ }),
        params matches Params::Bob(v) ==> params@ == (Parcel { alice: false, bytes: v@ }),
        commit matches Commit::Alice(v) ==> commit@ == (Parcel { alice: true, bytes: v@ }),
        commit matches Commit::Bob(v) ==> commit@ == (Parcel { alice: false, bytes: v@ }),
{
}

/// An error that holds words of the system, the bus, the connection or a reader hands them on. An
/// error that has words of its own says what went wrong; the others say nothing.
pub proof fn law_errors_hand_words_on(e: Error)
    ensures
        e matches Error::Send(w) ==> e.words() == Some(w@),
        e matches Error::Launch(w) ==> e.words() == Some(w@),
        e matches Error::Connection(w) ==> e.words() == Some(w@),
        e matches Error::OfferFormat(Some(w)) ==> e.words() == Some(w@),
        e matches Error::AddressFormat(Some(w)) ==> e.words() == Some(w@),
        (e matches Error::OfferFormat(w) && w is None) ==> e.words() is None,
        (e matches Error::AddressFormat(w) && w is None) ==> e.words() is None,
        e is UnknownOffer ==> e.words() == Some("unknown public_offer"@),
        e is UnknownSwapd ==> e.words() == Some("Unknown swapd"@),
        e is UnexpectedPending ==> e.words() == Some(
            "Unexpected request: calling back from Keypair handling"@,
        ),
        e is OnlyTcp ==> e.words() == Some(
            "Only TCP is supported for now as an overlay protocol"@,
        ),
        e matches Error::AlreadyConnected(node) ==> e.words() == Some(
            "Already connected to peer "@ + node.text(),
        ),
        e is NotSupported || e is InvalidKey || e is NotSwapd || e is InvalidConfig || e
            is NoSocketAddr || e is InvalidEndpoint || e is TimedOut || e is NotResponding
            ==> e.words() is None,
{
}

proof fn lemma_one_piece(a: (Style, Seq<char>))
    ensures
        rpc::plain_words(seq![a]) == a.1,
{
    reveal_with_fuel(rpc::plain_words, 2);
    assert(seq![a].drop_last() =~= Seq::<(Style, Seq<char>)>::empty());
    assert(Seq::<char>::empty() + a.1 =~= a.1);
}

proof fn lemma_two_pieces(a: (Style, Seq<char>), b: (Style, Seq<char>))
    ensures
        rpc::plain_words(seq![a, b]) == a.1 + b.1,
{
    lemma_one_piece(a);
    assert(seq![a, b].drop_last() =~= seq![a]);
}

proof fn lemma_three_pieces(
    a: (Style, Seq<char>),
    b: (Style, Seq<char>),
    c: (Style, Seq<char>),
)
    ensures
        rpc::plain_words(seq![a, b, c]) == a.1 + b.1 + c.1,
{
    lemma_two_pieces(a, b);
    assert(seq![a, b, c].drop_last() =~= seq![a, b]);
}

/// What a message says to a person, given how what it is about is written.
pub proof fn law_messages_say_what_happened(n: Notice, subject: Seq<char>)
    ensures
        rpc::plain_words(n.styled(subject)) == (match n {
            Notice::Words(w) => w@,
            Notice::SwapOperational(_) => "Swap daemon "@ + subject + " operational"@,
            Notice::ConnectedTo(_) => "Connected to "@ + subject,
            Notice::PeerdLaunched(_) => "New instance of peerd launched with PID "@ + subject,
            Notice::AlreadyListening(_) => "Already listening on "@ + subject,
            Notice::AlreadyConnected(_) => "Already connected to remote peer "@ + subject,
            Notice::ShareOffer(_) => "Public offer registered, please share with taker: "@ + " "@
                + subject,
            Notice::OfferRegistered(_) => "Public offer registered"@ + ": "@ + subject,
            Notice::OfferKnown => "This Public offer was previously registered"@,
            Notice::OfferTaken(_) => subject
                + " already exists or was already taken, ignoring request"@,
            Notice::NoProgressYet => "No progress made yet on this swap"@,
            Notice::UnknownSwapd => "Unknown swapd"@,
            Notice::Trouble(_) => subject,
        }),
{
    let p = n.styled(subject);
    if p.len() == 1 {
        lemma_one_piece(p[0]);
        assert(p =~= seq![p[0]]);
    } else if p.len() == 2 {
        lemma_two_pieces(p[0], p[1]);
        assert(p =~= seq![p[0], p[1]]);
    } else {
        lemma_three_pieces(p[0], p[1], p[2]);
        assert(p =~= seq![p[0], p[1], p[2]]);
    }
}

/// What a message is about is the part of it that stands out; all else is plain, but for the first
/// part of a message that an offer was registered.
pub proof fn law_subjects_stand_out(n: Notice, subject: Seq<char>)
    ensures
        n is AlreadyConnected ==> n.styled(subject)[1] == (Style::BrightBlueItalic, subject),
        n is ShareOffer ==> n.styled(subject)[2] == (Style::BrightYellowBold, subject),
        n is OfferRegistered ==> n.styled(subject)[2] == (Style::BrightYellowBold, subject),
        n is ShareOffer ==> n.styled(subject)[0].0 is BrightBlueBold,
        n is OfferRegistered ==> n.styled(subject)[0].0 is BrightGreenBold,
        n is ShareOffer || n is OfferRegistered ==> n.styled(subject).len() == 3 && n.styled(
            subject,
        )[1].0 is Plain,
        n is AlreadyConnected ==> n.styled(subject).len() == 2 && n.styled(subject)[0].0 is Plain,
        !(n is AlreadyConnected || n is ShareOffer || n is OfferRegistered) ==> forall|i: int|
            0 <= i < n.styled(subject).len() ==> (#[trigger] n.styled(subject)[i]).0 is Plain,
{
}

/// What a message is about is written in one way where it is a number, a node, the text or the
/// identifier of an offer, or an error with words.
pub proof fn law_what_a_message_is_about(n: Notice)
    ensures
        n matches Notice::PeerdLaunched(pid) ==> n.about() == Some(text::decimal_digits(pid as nat)),
        n matches Notice::AlreadyConnected(node) ==> n.about() == Some(node.text()),
        n matches Notice::ShareOffer(w) ==> n.about() == Some(w@),
        n matches Notice::OfferTaken(w) ==> n.about() == Some(w@),
        n matches Notice::OfferRegistered(id) ==> n.about() == Some(
            ident::hyphenated(id.uuid as nat),
        ),
        n matches Notice::Trouble(e) ==> n.about() == e.words(),
        n is Words || n is SwapOperational || n is ConnectedTo || n is AlreadyListening || n
            is OfferKnown || n is NoProgressYet || n is UnknownSwapd ==> n.about() is None,
{
}

} // verus!
