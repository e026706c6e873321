//! Identifiers and keys. Each is held as the plain numbers that its bytes stand for.

use crate::table::{Key, PlainKey};
use crate::text::{self, append_text, hex_text};
use vstd::prelude::*;
use vstd::string::StringExecFns;

verus! {

/// A swap, identified by a hash of 32 bytes: the upper and the lower half, big-endian.
#[derive(Clone, Copy, PartialEq, Eq, Structural, Debug, Hash)]
pub struct SwapId {
    pub hi: u128,
    pub lo: u128,
}

/// An offer, identified by its UUID.
#[derive(Clone, Copy, PartialEq, Eq, Structural, Debug, Hash)]
pub struct OfferId {
    pub uuid: u128,
}

/// A temporary channel of the lightning network, identified by 32 bytes.
#[derive(Clone, Copy, PartialEq, Eq, Structural, Debug, Hash)]
pub struct ChannelId {
    pub hi: u128,
    pub lo: u128,
}

/// A request that waits for the wallet to answer.
#[derive(Clone, Copy, PartialEq, Eq, Structural, Debug, Hash)]
pub struct RequestId {
    pub number: u64,
}

/// A node's public key in compressed form: whether the y coordinate is odd, and the x coordinate.
#[derive(Clone, Copy, PartialEq, Eq, Structural, Debug, Hash)]
pub struct PublicKey {
    pub odd: bool,
    pub hi: u128,
    pub lo: u128,
}

/// A node's secret key.
#[derive(Clone, Copy, PartialEq, Eq, Structural, Debug, Hash)]
pub struct SecretKey {
    pub hi: u128,
    pub lo: u128,
}

impl View for SwapId {
    type V = SwapId;

    open spec fn view(&self) -> SwapId {
        *self
    }
}

impl Key for SwapId {
    fn same(&self, other: &Self) -> (r: bool) {
        *self == *other
    }
}

impl PlainKey for SwapId {
    proof fn plain(k: Self) {
    }
}

impl View for OfferId {
    type V = OfferId;

    open spec fn view(&self) -> OfferId {
        *self
    }
}

impl Key for OfferId {
    fn same(&self, other: &Self) -> (r: bool) {
        *self == *other
    }
}

impl PlainKey for OfferId {
    proof fn plain(k: Self) {
    }
}

impl View for RequestId {
    type V = RequestId;

    open spec fn view(&self) -> RequestId {
        *self
    }
}

impl Key for RequestId {
    fn same(&self, other: &Self) -> (r: bool) {
        *self == *other
    }
}

impl PlainKey for RequestId {
    proof fn plain(k: Self) {
    }
}

impl View for PublicKey {
    type V = PublicKey;

    open spec fn view(&self) -> PublicKey {
        *self
    }
}

impl Key for PublicKey {
    fn same(&self, other: &Self) -> (r: bool) {
        *self == *other
    }
}

impl PlainKey for PublicKey {
    proof fn plain(k: Self) {
    }
}

/// The 64 hexadecimal digits of 32 bytes, given as two halves.
pub open spec fn hex32(hi: u128, lo: u128) -> Seq<char> {
    text::hex_digits(hi as nat, 32) + text::hex_digits(lo as nat, 32)
}

/// Writes 32 bytes, given as two halves, in hexadecimal digits.
fn halves_text(hi: u128, lo: u128) -> (text: String)
    ensures
        text@ == hex32(hi, lo),
{
    let mut text = hex_text(hi, 32);
    let lower = hex_text(lo, 32);
    text.append(lower.as_str());
    text
}

/// The 32 hexadecimal digits of a UUID, in groups of 8, 4, 4, 4 and 12 with hyphens in between.
pub open spec fn hyphenated(n: nat) -> Seq<char> {
    text::hex_digits(n / 0x1000000000000000000000000, 8) + "-"@ + text::hex_digits(
        n / 0x100000000000000000000,
        4,
    ) + "-"@ + text::hex_digits(n / 0x10000000000000000, 4) + "-"@ + text::hex_digits(
        n / 0x1000000000000,
        4,
    ) + "-"@ + text::hex_digits(n, 12)
}

impl OfferId {
    /// The UUID in hexadecimal digits and hyphens.
    pub fn to_text(&self) -> (text: String)
        ensures
            text@ == hyphenated(self.uuid as nat),
    {
        let mut text = hex_text(self.uuid / 0x1000000000000000000000000, 8);
        let second = hex_text(self.uuid / 0x100000000000000000000, 4);
        let third = hex_text(self.uuid / 0x10000000000000000, 4);
        let fourth = hex_text(self.uuid / 0x1000000000000, 4);
        let last = hex_text(self.uuid, 12);
        text.append("-");
        text.append(second.as_str());
        text.append("-");
        text.append(third.as_str());
        text.append("-");
        text.append(fourth.as_str());
        text.append("-");
        text.append(last.as_str());
        text
    }
}

impl SwapId {
    /// The identifier in hexadecimal digits.
    pub fn to_hex(&self) -> (text: String)
        ensures
            text@ == hex32(self.hi, self.lo),
    {
        halves_text(self.hi, self.lo)
    }
}

impl SecretKey {
    /// The key in hexadecimal digits.
    pub fn to_hex(&self) -> (text: String)
        ensures
            text@ == hex32(self.hi, self.lo),
    {
        halves_text(self.hi, self.lo)
    }
}

impl PublicKey {
    /// The hexadecimal digits of the compressed form.
    pub open spec fn hex(&self) -> Seq<char> {
        (if self.odd { "03"@ } else { "02"@ }) + hex32(self.hi, self.lo)
    }

    /// The compressed form in hexadecimal digits.
    pub fn to_hex(&self) -> (text: String)
        ensures
            text@ == self.hex(),
    {
        let x = halves_text(self.hi, self.lo);
        if self.odd {
            append_text("03", x.as_str())
        } else {
            append_text("02", x.as_str())
        }
    }
}

} // verus!
