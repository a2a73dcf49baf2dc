//! The byte form that deadlines have in the storage.
//!
//! Numbers take a fixed width, least significant byte first; a compound value is
//! the concatenation of its parts.
use vstd::prelude::*;
use vstd::slice::slice_subrange;

verus! {

/// The `width` low bytes of `value`, least significant byte first.
pub open spec fn le_bytes(value: nat, width: nat) -> Seq<u8>
    decreases width,
{
    if width == 0 {
        Seq::empty()
    } else {
        seq![(value % 256) as u8] + le_bytes(value / 256, (width - 1) as nat)
    }
}

/// The number that `bytes` spell, least significant byte first.
pub open spec fn le_value(bytes: Seq<u8>) -> nat
    decreases bytes.len(),
{
    if bytes.len() == 0 {
        0
    } else {
        bytes[0] as nat + 256 * le_value(bytes.drop_first())
    }
}

/// One more than the greatest number that `width` bytes can spell.
pub open spec fn le_bound(width: nat) -> nat
    decreases width,
{
    if width == 0 {
        1
    } else {
        256 * le_bound((width - 1) as nat)
    }
}

/// Spelling a number out and reading it back is the identity on numbers that fit.
pub proof fn lemma_le_round_trip(value: nat, width: nat)
    requires
        value < le_bound(width),
    ensures
        le_bytes(value, width).len() == width,
        le_value(le_bytes(value, width)) == value,
    decreases width,
{
    if width > 0 {
        let rest = le_bytes(value / 256, (width - 1) as nat);
        lemma_le_round_trip(value / 256, (width - 1) as nat);
        assert(le_bytes(value, width).drop_first() =~= rest);
    }
}

/// A value that can be written to the storage and read back.
pub trait Codec: Sized {
    /// The bytes that stand for the value.
    spec fn encoded(&self) -> Seq<u8>;

    /// The value that `bytes` begin with and the number of bytes that it takes, if
    /// they begin with one.
    spec fn decoded(bytes: Seq<u8>) -> Option<(Self, nat)>;

    /// Decoding gives back the value that was encoded, whatever bytes follow.
    proof fn lemma_round_trip(&self, rest: Seq<u8>)
        ensures
            Self::decoded(self.encoded() + rest) == Some((*self, self.encoded().len())),
    ;

    fn encode(&self) -> (bytes: Vec<u8>)
        ensures
            bytes@ == self.encoded(),
    ;

    fn decode(bytes: &[u8]) -> (value: Option<(Self, usize)>)
        ensures
            match value {
                Some((v, taken)) => taken <= bytes.len() && Self::decoded(bytes@) == Some(
                    (v, taken as nat),
                ),
                None => Self::decoded(bytes@) is None,
            },
    ;
}

/// `parity_scale_codec::Encode::encode` on a `u32`: its four bytes, least
/// significant byte first.
#[verifier::external_body]
fn encode_u32(value: u32) -> (bytes: Vec<u8>)
    ensures
        bytes@ == le_bytes(value as nat, 4),
{
    parity_scale_codec::Encode::encode(&value)
}

/// `parity_scale_codec::Decode::decode` of a `u32`: the number that the first four
/// bytes spell, least significant byte first; none where there are fewer. Bytes
/// after these are not looked at.
#[verifier::external_body]
fn decode_u32(bytes: &[u8]) -> (value: Option<u32>)
    ensures
        value == (if bytes.len() < 4 {
            None
        } else {
            Some(le_value(bytes@.take(4)) as u32)
        }),
{
    let mut input: &[u8] = bytes;
    <u32 as parity_scale_codec::Decode>::decode(&mut input).ok()
}

/// `parity_scale_codec::Encode::encode` on a `u64`: its eight bytes, least
/// significant byte first.
#[verifier::external_body]
fn encode_u64(value: u64) -> (bytes: Vec<u8>)
    ensures
        bytes@ == le_bytes(value as nat, 8),
{
    parity_scale_codec::Encode::encode(&value)
}

/// `parity_scale_codec::Decode::decode` of a `u64`: the number that the first eight
/// bytes spell, least significant byte first; none where there are fewer. Bytes
/// after these are not looked at.
#[verifier::external_body]
fn decode_u64(bytes: &[u8]) -> (value: Option<u64>)
    ensures
        value == (if bytes.len() < 8 {
            None
        } else {
            Some(le_value(bytes@.take(8)) as u64)
        }),
{
    let mut input: &[u8] = bytes;
    <u64 as parity_scale_codec::Decode>::decode(&mut input).ok()
}

/// `parity_scale_codec::Encode::encode` on a `u128`: its sixteen bytes, least
/// significant byte first.
#[verifier::external_body]
fn encode_u128(value: u128) -> (bytes: Vec<u8>)
    ensures
        bytes@ == le_bytes(value as nat, 16),
{
    parity_scale_codec::Encode::encode(&value)
}

/// `parity_scale_codec::Decode::decode` of a `u128`: the number that the first
/// sixteen bytes spell, least significant byte first; none where there are fewer.
/// Bytes after these are not looked at.
#[verifier::external_body]
fn decode_u128(bytes: &[u8]) -> (value: Option<u128>)
    ensures
        value == (if bytes.len() < 16 {
            None
        } else {
            Some(le_value(bytes@.take(16)) as u128)
        }),
{
    let mut input: &[u8] = bytes;
    <u128 as parity_scale_codec::Decode>::decode(&mut input).ok()
}

impl Codec for u32 {
    open spec fn encoded(&self) -> Seq<u8> {
        le_bytes(*self as nat, 4)
    }

    open spec fn decoded(bytes: Seq<u8>) -> Option<(Self, nat)> {
        if bytes.len() < 4 {
            None
        } else {
            Some((le_value(bytes.take(4)) as u32, 4))
        }
    }

    proof fn lemma_round_trip(&self, rest: Seq<u8>) {
        reveal_with_fuel(le_bound, 5);
        lemma_le_round_trip(*self as nat, 4);
        assert((self.encoded() + rest).take(4) =~= self.encoded());
    }

    fn encode(&self) -> (bytes: Vec<u8>) {
        encode_u32(*self)
    }

    fn decode(bytes: &[u8]) -> (value: Option<(Self, usize)>) {
        match decode_u32(bytes) {
            Some(v) => Some((v, 4)),
            None => None,
        }
    }
}

impl Codec for u64 {
    open spec fn encoded(&self) -> Seq<u8> {
        le_bytes(*self as nat, 8)
    }

    open spec fn decoded(bytes: Seq<u8>) -> Option<(Self, nat)> {
        if bytes.len() < 8 {
            None
        } else {
            Some((le_value(bytes.take(8)) as u64, 8))
        }
    }

    proof fn lemma_round_trip(&self, rest: Seq<u8>) {
        reveal_with_fuel(le_bound, 9);
        lemma_le_round_trip(*self as nat, 8);
        assert((self.encoded() + rest).take(8) =~= self.encoded());
    }

    fn encode(&self) -> (bytes: Vec<u8>) {
        encode_u64(*self)
    }

    fn decode(bytes: &[u8]) -> (value: Option<(Self, usize)>) {
        match decode_u64(bytes) {
            Some(v) => Some((v, 8)),
            None => None,
        }
    }
}

impl Codec for u128 {
    open spec fn encoded(&self) -> Seq<u8> {
        le_bytes(*self as nat, 16)
    }

    open spec fn decoded(bytes: Seq<u8>) -> Option<(Self, nat)> {
        if bytes.len() < 16 {
            None
        } else {
            Some((le_value(bytes.take(16)) as u128, 16))
        }
    }

    proof fn lemma_round_trip(&self, rest: Seq<u8>) {
        reveal_with_fuel(le_bound, 17);
        lemma_le_round_trip(*self as nat, 16);
        assert((self.encoded() + rest).take(16) =~= self.encoded());
    }

    fn encode(&self) -> (bytes: Vec<u8>) {
        encode_u128(*self)
    }

    fn decode(bytes: &[u8]) -> (value: Option<(Self, usize)>) {
        match decode_u128(bytes) {
            Some(v) => Some((v, 16)),
            None => None,
        }
    }
}

/// A pair is written as its first part followed by its second.
impl<A: Codec, B: Codec> Codec for (A, B) {
    open spec fn encoded(&self) -> Seq<u8> {
        self.0.encoded() + self.1.encoded()
    }

    open spec fn decoded(bytes: Seq<u8>) -> Option<(Self, nat)> {
        match A::decoded(bytes) {
            None => None,
            Some((a, first)) => match B::decoded(bytes.skip(first as int)) {
                None => None,
                Some((b, second)) => Some(((a, b), first + second)),
            },
        }
    }

    proof fn lemma_round_trip(&self, rest: Seq<u8>) {
        let tail = self.1.encoded() + rest;
        self.0.lemma_round_trip(tail);
        self.1.lemma_round_trip(rest);
        assert(self.encoded() + rest =~= self.0.encoded() + tail);
        assert((self.0.encoded() + tail).skip(self.0.encoded().len() as int) =~= tail);
    }

    fn encode(&self) -> (bytes: Vec<u8>) {
        let mut bytes = self.0.encode();
        let mut second = self.1.encode();
        bytes.append(&mut second);
        bytes
    }

    fn decode(bytes: &[u8]) -> (value: Option<(Self, usize)>) {
        match A::decode(bytes) {
            None => None,
            Some((a, first)) => {
                let tail = slice_subrange(bytes, first, bytes.len());
                assert(tail@ =~= bytes@.skip(first as int));
                match B::decode(tail) {
                    None => None,
                    Some((b, second)) => Some(((a, b), first + second)),
                }
            },
        }
    }
}

} // verus!
