//! What a lock goes by to tell when it is stale.
use core::marker::PhantomData;
use vstd::prelude::*;
use vstd::std_specs::cmp::PartialEqSpecImpl;
use crate::block::{BlockNumber, BlockNumberProvider};
use crate::codec::Codec;
use crate::time::{elapsed, later, Duration, Timestamp};

verus! {

/// Default expiry duration in milliseconds.
pub const STORAGE_LOCK_DEFAULT_EXPIRY_DURATION_MS: u64 = 30_000;

/// Snooze duration before attempting to lock again in ms.
pub const STORAGE_LOCK_PER_CHECK_ITERATION_SNOOZE: u64 = 100;

/// Number of blocks after which a lock is stale by default.
pub const STORAGE_LOCK_DEFAULT_EXPIRY_BLOCKS: u32 = 3;

/// Lockable item for use with a persisted storage lock.
///
/// Bound for an item that has a stateful ordered meaning
/// without explicitly requiring `Ord` trait in general.
/// Nothing here reads a clock: the point in time is handed in.
pub trait Lockable: Sized {
    /// The instant type
    type Instant: Codec + Clone;

    /// Whether a deadline can be set at `current`.
    spec fn datable(&self, current: Self::Instant) -> bool;

    /// The deadline that is set at `current`.
    spec fn deadline_at(&self, current: Self::Instant) -> Self::Instant;

    /// Whether `deadline` has passed at `current`.
    spec fn expired_at(deadline: Self::Instant, current: Self::Instant) -> bool;

    /// The current value of the lockable, at the point in time `now`.
    fn current(now: Timestamp) -> Self::Instant;

    /// Whether a deadline can be set at `current`.
    fn can_date(&self, current: &Self::Instant) -> (datable: bool)
        ensures
            datable == self.datable(*current),
    ;

    /// Acquire a new deadline based on `current`.
    fn deadline(&self, current: Self::Instant) -> (deadline: Self::Instant)
        requires
            self.datable(current),
        ensures
            deadline == self.deadline_at(current),
    ;

    /// Verify `current` against `deadline` to determine if the lock has expired.
    fn expired(deadline: &Self::Instant, current: &Self::Instant) -> (expired: bool)
        ensures
            expired == Self::expired_at(*deadline, *current),
    ;

    /// Until when to sleep at `now` before another attempt at the lock.
    ///
    /// Only asked for while `deadline` keeps the lock from being had. The deadline
    /// is only passed to allow some optimizations for some types.
    fn snooze(_deadline: &Self::Instant, now: Timestamp) -> (wake: Timestamp)
        default_ensures
            wake == later(now, STORAGE_LOCK_PER_CHECK_ITERATION_SNOOZE as nat),
            wake.unix_millis == (if now.unix_millis + 100 <= u64::MAX {
                now.unix_millis + 100
            } else {
                u64::MAX as int
            }),
    {
        now.add(Duration::from_millis(STORAGE_LOCK_PER_CHECK_ITERATION_SNOOZE))
    }
}

/// Until when to sleep at `now` by a deadline at `deadline`: for the time that is
/// left until the deadline, but no longer than the time between two attempts.
pub open spec fn wake_by(deadline: Timestamp, now: Timestamp) -> Timestamp {
    if elapsed(now, deadline) <= STORAGE_LOCK_PER_CHECK_ITERATION_SNOOZE {
        later(now, elapsed(now, deadline))
    } else {
        later(now, STORAGE_LOCK_PER_CHECK_ITERATION_SNOOZE as nat)
    }
}

/// Until when to sleep at `now` by a deadline at `deadline`.
fn snooze_by(deadline: &Timestamp, now: Timestamp) -> (wake: Timestamp)
    ensures
        wake == wake_by(*deadline, now),
{
    let remainder: Duration = deadline.diff(&now);
    // do not snooze the full duration: the lock might get unlocked in the meantime
    let millis: u64 = if remainder.millis <= STORAGE_LOCK_PER_CHECK_ITERATION_SNOOZE {
        remainder.millis
    } else {
        STORAGE_LOCK_PER_CHECK_ITERATION_SNOOZE
    };
    now.add(Duration::from_millis(millis))
}

/// Lockable based on the current timestamp with a configurable expiration time.
#[derive(Clone, Copy)]
pub struct Time {
    /// How long the lock will stay valid once it is locked.
    pub expiration_duration: Duration,
}

impl Default for Time {
    fn default() -> (time: Self)
        ensures
            time.expiration_duration.millis == STORAGE_LOCK_DEFAULT_EXPIRY_DURATION_MS,
    {
        Time {
            expiration_duration: Duration::from_millis(STORAGE_LOCK_DEFAULT_EXPIRY_DURATION_MS),
        }
    }
}

impl Lockable for Time {
    type Instant = Timestamp;

    open spec fn datable(&self, current: Timestamp) -> bool {
        true
    }

    open spec fn deadline_at(&self, current: Timestamp) -> Timestamp {
        later(current, self.expiration_duration.millis as nat)
    }

    open spec fn expired_at(deadline: Timestamp, current: Timestamp) -> bool {
        current.unix_millis > deadline.unix_millis
    }

    fn current(now: Timestamp) -> (current: Timestamp)
        ensures
            current == now,
    {
        now
    }

    fn can_date(&self, current: &Timestamp) -> (datable: bool)
        ensures
            datable,
    {
        true
    }

    fn deadline(&self, current: Timestamp) -> (deadline: Timestamp)
        ensures
            deadline.unix_millis == (if current.unix_millis + self.expiration_duration.millis
                <= u64::MAX {
                current.unix_millis + self.expiration_duration.millis
            } else {
                u64::MAX as int
            }),
    {
        current.add(self.expiration_duration)
    }

    fn expired(deadline: &Timestamp, current: &Timestamp) -> (expired: bool)
        ensures
            expired == (current.unix_millis > deadline.unix_millis),
    {
        current.unix_millis > deadline.unix_millis
    }

    fn snooze(deadline: &Timestamp, now: Timestamp) -> (wake: Timestamp)
        ensures
            wake == wake_by(*deadline, now),
    {
        snooze_by(deadline, now)
    }
}

/// A lockable like `L`, but for snoozing, which is left to the default: it lasts the
/// same whatever the deadline.
pub struct Steady<L: Lockable> {
    pub lockable: L,
}

impl<L: Lockable> Lockable for Steady<L> {
    type Instant = L::Instant;

    open spec fn datable(&self, current: L::Instant) -> bool {
        self.lockable.datable(current)
    }

    open spec fn deadline_at(&self, current: L::Instant) -> L::Instant {
        self.lockable.deadline_at(current)
    }

    open spec fn expired_at(deadline: L::Instant, current: L::Instant) -> bool {
        L::expired_at(deadline, current)
    }

    fn current(now: Timestamp) -> (current: L::Instant)
        ensures
            call_ensures(L::current, (now,), current),
    {
        L::current(now)
    }

    fn can_date(&self, current: &L::Instant) -> (datable: bool)
        ensures
            datable == self.lockable.datable(*current),
    {
        self.lockable.can_date(current)
    }

    fn deadline(&self, current: L::Instant) -> (deadline: L::Instant)
        ensures
            deadline == self.lockable.deadline_at(current),
    {
        self.lockable.deadline(current)
    }

    fn expired(deadline: &L::Instant, current: &L::Instant) -> (expired: bool)
        ensures
            expired == L::expired_at(*deadline, *current),
    {
        L::expired(deadline, current)
    }
}

/// An instant based on block and time.
pub struct BlockAndTimeInstant<B: BlockNumberProvider> {
    pub block_number: B::BlockNumber,
    pub timestamp: Timestamp,
}

impl<B: BlockNumberProvider> PartialEq for BlockAndTimeInstant<B> {
    fn eq(&self, other: &Self) -> (equal: bool) {
        !self.block_number.is_after(&other.block_number) && !other.block_number.is_after(
            &self.block_number,
        ) && self.timestamp == other.timestamp
    }
}

/// Two instants are equal if they are at the same block and at the same time.
impl<B: BlockNumberProvider> PartialEqSpecImpl for BlockAndTimeInstant<B> {
    open spec fn obeys_eq_spec() -> bool {
        true
    }

    open spec fn eq_spec(&self, other: &Self) -> bool {
        self.block_number.number() == other.block_number.number() && self.timestamp
            == other.timestamp
    }
}

impl<B: BlockNumberProvider> Eq for BlockAndTimeInstant<B> {

}

impl<B: BlockNumberProvider> Clone for BlockAndTimeInstant<B> {
    fn clone(&self) -> (copy: Self)
        ensures
            copy == *self,
    {
        BlockAndTimeInstant { block_number: self.block_number, timestamp: self.timestamp }
    }
}

impl<B: BlockNumberProvider> BlockAndTimeInstant<B> {
    /// Provide the current state of block number and time, at the point in time `now`.
    pub fn current(now: Timestamp) -> (current: Self)
        ensures
            call_ensures(B::current_block_number, (), current.block_number),
            current.timestamp == now,
    {
        BlockAndTimeInstant { block_number: B::current_block_number(), timestamp: now }
    }
}

/// An instant is written as its block number followed by its timestamp.
impl<B: BlockNumberProvider> Codec for BlockAndTimeInstant<B> {
    open spec fn encoded(&self) -> Seq<u8> {
        (self.block_number, self.timestamp).encoded()
    }

    open spec fn decoded(bytes: Seq<u8>) -> Option<(Self, nat)> {
        match <(B::BlockNumber, Timestamp)>::decoded(bytes) {
            Some(((block_number, timestamp), taken)) => Some(
                (BlockAndTimeInstant { block_number, timestamp }, taken),
            ),
            None => None,
        }
    }

    proof fn lemma_round_trip(&self, rest: Seq<u8>) {
        (self.block_number, self.timestamp).lemma_round_trip(rest);
    }

    fn encode(&self) -> (bytes: Vec<u8>) {
        (self.block_number, self.timestamp).encode()
    }

    fn decode(bytes: &[u8]) -> (value: Option<(Self, usize)>) {
        match <(B::BlockNumber, Timestamp)>::decode(bytes) {
            Some(((block_number, timestamp), taken)) => Some(
                (BlockAndTimeInstant { block_number, timestamp }, taken),
            ),
            None => None,
        }
    }
}

/// Lockable based on the current block number and a timestamp based deadline.
pub struct BlockAndTime<B: BlockNumberProvider> {
    /// The block number offset from the time of locking
    /// when the lock is considered stale.
    pub expiration_block_number_offset: u32,
    /// Additional timestamp based deadline, which, once
    /// reached, renders the lock stale.
    pub expiration_duration: Duration,
    /// Where the block numbers come from.
    pub provider: PhantomData<B>,
}

impl<B: BlockNumberProvider> BlockAndTime<B> {
    /// Lockable that is stale `expiration_block_number_offset` blocks after it is
    /// locked, or `expiration_duration` after, whichever comes first.
    pub fn new(expiration_block_number_offset: u32, expiration_duration: Duration) -> (lockable:
        Self)
        ensures
            lockable.expiration_block_number_offset == expiration_block_number_offset,
            lockable.expiration_duration == expiration_duration,
    {
        BlockAndTime { expiration_block_number_offset, expiration_duration, provider: PhantomData }
    }
}

impl<B: BlockNumberProvider> Default for BlockAndTime<B> {
    fn default() -> (lockable: Self)
        ensures
            lockable.expiration_block_number_offset == STORAGE_LOCK_DEFAULT_EXPIRY_BLOCKS,
            lockable.expiration_duration.millis == STORAGE_LOCK_DEFAULT_EXPIRY_DURATION_MS,
    {
        BlockAndTime::new(
            STORAGE_LOCK_DEFAULT_EXPIRY_BLOCKS,
            Duration::from_millis(STORAGE_LOCK_DEFAULT_EXPIRY_DURATION_MS),
        )
    }
}

// `B` does not necessarily implement `Clone`
impl<B: BlockNumberProvider> Clone for BlockAndTime<B> {
    fn clone(&self) -> (copy: Self)
        ensures
            copy == *self,
    {
        BlockAndTime::new(self.expiration_block_number_offset, self.expiration_duration)
    }
}

impl<B: BlockNumberProvider> Lockable for BlockAndTime<B> {
    type Instant = BlockAndTimeInstant<B>;

    open spec fn datable(&self, current: BlockAndTimeInstant<B>) -> bool {
        current.block_number.number() + self.expiration_block_number_offset
            <= B::BlockNumber::greatest()
    }

    open spec fn deadline_at(&self, current: BlockAndTimeInstant<B>) -> BlockAndTimeInstant<B> {
        BlockAndTimeInstant {
            block_number: current.block_number.advanced(self.expiration_block_number_offset),
            timestamp: later(current.timestamp, self.expiration_duration.millis as nat),
        }
    }

    open spec fn expired_at(
        deadline: BlockAndTimeInstant<B>,
        current: BlockAndTimeInstant<B>,
    ) -> bool {
        ||| current.timestamp.unix_millis > deadline.timestamp.unix_millis
        ||| current.block_number.number() > deadline.block_number.number()
    }

    fn current(now: Timestamp) -> (current: BlockAndTimeInstant<B>)
        ensures
            call_ensures(B::current_block_number, (), current.block_number),
            current.timestamp == now,
    {
        BlockAndTimeInstant::current(now)
    }

    fn can_date(&self, current: &BlockAndTimeInstant<B>) -> (datable: bool)
        ensures
            datable == (current.block_number.number() + self.expiration_block_number_offset
                <= B::BlockNumber::greatest()),
    {
        current.block_number.reaches(self.expiration_block_number_offset)
    }

    fn deadline(&self, current: BlockAndTimeInstant<B>) -> (deadline: BlockAndTimeInstant<B>)
        ensures
            deadline.block_number.number() == current.block_number.number()
                + self.expiration_block_number_offset,
            deadline.timestamp.unix_millis == (if current.timestamp.unix_millis
                + self.expiration_duration.millis <= u64::MAX {
                current.timestamp.unix_millis + self.expiration_duration.millis
            } else {
                u64::MAX as int
            }),
    {
        proof {
            current.block_number.lemma_advanced(self.expiration_block_number_offset);
        }
        BlockAndTimeInstant {
            block_number: current.block_number.advance(self.expiration_block_number_offset),
            timestamp: current.timestamp.add(self.expiration_duration),
        }
    }

    fn expired(
        deadline: &BlockAndTimeInstant<B>,
        current: &BlockAndTimeInstant<B>,
    ) -> (expired: bool)
        ensures
            expired == (current.timestamp.unix_millis > deadline.timestamp.unix_millis
                || current.block_number.number() > deadline.block_number.number()),
    {
        current.timestamp.unix_millis > deadline.timestamp.unix_millis
            || current.block_number.is_after(&deadline.block_number)
    }

    fn snooze(deadline: &BlockAndTimeInstant<B>, now: Timestamp) -> (wake: Timestamp)
        ensures
            wake == wake_by(deadline.timestamp, now),
    {
        snooze_by(&deadline.timestamp, now)
    }
}

} // verus!
