//! Points in time and lengths of time, in milliseconds.
use vstd::prelude::*;
use crate::codec::Codec;

verus! {

/// A point in time, in milliseconds since the UNIX epoch.
#[derive(Clone, Copy, PartialEq, Eq, Structural, Debug)]
pub struct Timestamp {
    pub unix_millis: u64,
}

/// A length of time, in milliseconds.
#[derive(Clone, Copy, PartialEq, Eq, Structural, Debug)]
pub struct Duration {
    pub millis: u64,
}

/// The point in time `millis` milliseconds after `start`, or the last one there is.
pub open spec fn later(start: Timestamp, millis: nat) -> Timestamp {
    Timestamp {
        unix_millis: if start.unix_millis + millis <= u64::MAX {
            (start.unix_millis + millis) as u64
        } else {
            u64::MAX
        },
    }
}

/// The number of milliseconds by which `end` is after `start`; none if it is not.
pub open spec fn elapsed(start: Timestamp, end: Timestamp) -> nat {
    if start.unix_millis <= end.unix_millis {
        (end.unix_millis - start.unix_millis) as nat
    } else {
        0
    }
}

/// `sp_core::offchain::Timestamp::add`: the sum in milliseconds, held at the
/// greatest `u64` where it would exceed it.
#[verifier::external_body]
fn add_millis(unix_millis: u64, millis: u64) -> (sum: u64)
    ensures
        sum == (if unix_millis + millis <= u64::MAX {
            unix_millis + millis
        } else {
            u64::MAX as int
        }),
{
    let start = sp_core::offchain::Timestamp::from_unix_millis(unix_millis);
    start.add(sp_core::offchain::Duration::from_millis(millis)).unix_millis()
}

/// `sp_core::offchain::Timestamp::diff`: the first point in time less the second, in
/// milliseconds, held at 0 where the second is later.
#[verifier::external_body]
fn diff_millis(unix_millis: u64, other_unix_millis: u64) -> (difference: u64)
    ensures
        difference == (if other_unix_millis <= unix_millis {
            unix_millis - other_unix_millis
        } else {
            0
        }),
{
    let other = sp_core::offchain::Timestamp::from_unix_millis(other_unix_millis);
    sp_core::offchain::Timestamp::from_unix_millis(unix_millis).diff(&other).millis()
}

impl Duration {
    /// The length of time of `millis` milliseconds.
    pub fn from_millis(millis: u64) -> (duration: Self)
        ensures
            duration.millis == millis,
    {
        Duration { millis }
    }
}

impl Timestamp {
    /// The point in time `unix_millis` milliseconds after the UNIX epoch.
    pub fn from_unix_millis(unix_millis: u64) -> (timestamp: Self)
        ensures
            timestamp.unix_millis == unix_millis,
    {
        Timestamp { unix_millis }
    }

    /// The point in time `duration` after this one, or the last one there is.
    pub fn add(&self, duration: Duration) -> (sum: Timestamp)
        ensures
            sum == later(*self, duration.millis as nat),
    {
        Timestamp { unix_millis: add_millis(self.unix_millis, duration.millis) }
    }

    /// How long this point in time is after `other`; no time if it is not.
    pub fn diff(&self, other: &Timestamp) -> (difference: Duration)
        ensures
            difference.millis == elapsed(*other, *self),
    {
        Duration { millis: diff_millis(self.unix_millis, other.unix_millis) }
    }
}

/// A point in time is written as its number of milliseconds.
impl Codec for Timestamp {
    open spec fn encoded(&self) -> Seq<u8> {
        self.unix_millis.encoded()
    }

    open spec fn decoded(bytes: Seq<u8>) -> Option<(Self, nat)> {
        match u64::decoded(bytes) {
            Some((unix_millis, taken)) => Some((Timestamp { unix_millis }, taken)),
            None => None,
        }
    }

    proof fn lemma_round_trip(&self, rest: Seq<u8>) {
        self.unix_millis.lemma_round_trip(rest);
    }

    fn encode(&self) -> (bytes: Vec<u8>) {
        self.unix_millis.encode()
    }

    fn decode(bytes: &[u8]) -> (value: Option<(Self, usize)>) {
        match u64::decode(bytes) {
            Some((unix_millis, taken)) => Some((Timestamp { unix_millis }, taken)),
            None => None,
        }
    }
}

} // verus!
