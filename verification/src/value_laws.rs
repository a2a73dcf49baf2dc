//! What the operations on times, bytes, block numbers and lockables compute, in plain
//! numbers.
//!
//! Each law speaks of a call by its arguments and by what came of it.
use vstd::prelude::*;
use crate::block::{BlockNumber, BlockNumberProvider};
use crate::codec::{le_value, Codec};
use crate::lockable::{BlockAndTime, BlockAndTimeInstant, Lockable, Steady, Time};
use crate::time::{elapsed, later, Duration, Timestamp};

verus! {

/// The sum of `a` and `b`, or the greatest `u64` where the sum is greater.
pub open spec fn capped_sum(a: int, b: int) -> int {
    if a + b <= 0xffff_ffff_ffff_ffff {
        a + b
    } else {
        0xffff_ffff_ffff_ffff
    }
}

/// What is left of `a` when `b` is taken away; nothing where `b` is greater.
pub open spec fn positive_difference(a: int, b: int) -> int {
    if a > b {
        a - b
    } else {
        0
    }
}

/// When a sleeper by the deadline `due` gets up that lies down at `now`: at the
/// deadline if that comes within a tenth of a second, at once if it is over, else
/// after a tenth of a second.
pub open spec fn woken(due: int, now: int) -> int {
    if due <= now {
        now
    } else if due <= now + 100 {
        due
    } else {
        now + 100
    }
}

/// The number that the four bytes from `at` on spell, least significant byte first.
pub open spec fn number4(bytes: Seq<u8>, at: int) -> int {
    bytes[at] + 0x100 * bytes[at + 1] + 0x1_0000 * bytes[at + 2] + 0x100_0000 * bytes[at + 3]
}

/// The number that the eight bytes from `at` on spell, least significant byte first.
pub open spec fn number8(bytes: Seq<u8>, at: int) -> int {
    number4(bytes, at) + 0x1_0000_0000 * number4(bytes, at + 4)
}

/// The number that the sixteen bytes from `at` on spell, least significant byte first.
pub open spec fn number16(bytes: Seq<u8>, at: int) -> int {
    number8(bytes, at) + 0x1_0000_0000_0000_0000 * number8(bytes, at + 8)
}

/// A timestamp holds the number of milliseconds that it is made from.
pub proof fn law_timestamp_from_unix_millis(unix_millis: u64, timestamp: Timestamp)
    requires
        call_ensures(Timestamp::from_unix_millis, (unix_millis,), timestamp),
    ensures
        timestamp.unix_millis == unix_millis,
{
}

/// A duration holds the number of milliseconds that it is made from.
pub proof fn law_duration_from_millis(millis: u64, duration: Duration)
    requires
        call_ensures(Duration::from_millis, (millis,), duration),
    ensures
        duration.millis == millis,
{
}

/// Adding a duration adds its milliseconds, up to the last timestamp there is.
pub proof fn law_add(start: Timestamp, duration: Duration, sum: Timestamp)
    requires
        call_ensures(Timestamp::add, (&start, duration), sum),
    ensures
        sum.unix_millis == capped_sum(start.unix_millis as int, duration.millis as int),
{
}

/// The difference of two timestamps is that of their milliseconds, and none where the
/// other one is later.
pub proof fn law_diff(end: Timestamp, start: Timestamp, difference: Duration)
    requires
        call_ensures(Timestamp::diff, (&end, &start), difference),
    ensures
        difference.millis == positive_difference(end.unix_millis as int, start.unix_millis as int),
{
}

/// Adding the difference to the earlier of two timestamps gives the later one.
pub proof fn law_add_undoes_diff(
    start: Timestamp,
    end: Timestamp,
    difference: Duration,
    sum: Timestamp,
)
    requires
        start.unix_millis <= end.unix_millis,
        call_ensures(Timestamp::diff, (&end, &start), difference),
        call_ensures(Timestamp::add, (&start, difference), sum),
    ensures
        sum == end,
{
}

/// What contracts call later and elapsed is the capped sum and the positive
/// difference.
pub proof fn law_later_and_elapsed(start: Timestamp, end: Timestamp, millis: nat)
    ensures
        later(start, millis).unix_millis == capped_sum(start.unix_millis as int, millis as int),
        elapsed(start, end) == positive_difference(
            end.unix_millis as int,
            start.unix_millis as int,
        ),
{
}

proof fn lemma_le_value_4(bytes: Seq<u8>)
    requires
        bytes.len() >= 4,
    ensures
        le_value(bytes) == number4(bytes, 0) + 0x1_0000_0000 * le_value(bytes.skip(4)),
{
    let one = bytes.drop_first();
    let two = one.drop_first();
    let three = two.drop_first();
    assert(three.drop_first() =~= bytes.skip(4));
    assert(le_value(bytes) == bytes[0] + 256 * le_value(one));
    assert(le_value(one) == bytes[1] + 256 * le_value(two));
    assert(le_value(two) == bytes[2] + 256 * le_value(three));
    assert(le_value(three) == bytes[3] + 256 * le_value(bytes.skip(4)));
}

proof fn lemma_le_value_is_number(bytes: Seq<u8>)
    ensures
        bytes.len() >= 4 ==> le_value(bytes.take(4)) == number4(bytes, 0),
        bytes.len() >= 8 ==> le_value(bytes.take(8)) == number8(bytes, 0),
        bytes.len() >= 16 ==> le_value(bytes.take(16)) == number16(bytes, 0),
{
    if bytes.len() >= 4 {
        lemma_le_value_4(bytes.take(4));
        assert(bytes.take(4).skip(4) =~= Seq::empty());
    }
    if bytes.len() >= 8 {
        lemma_le_value_4(bytes.take(8));
        lemma_le_value_4(bytes.take(8).skip(4));
        assert(bytes.take(8).skip(4).skip(4) =~= Seq::empty());
    }
    if bytes.len() >= 16 {
        let b = bytes.take(16);
        lemma_le_value_4(b);
        lemma_le_value_4(b.skip(4));
        assert(b.skip(4).skip(4) =~= b.skip(8));
        lemma_le_value_4(b.skip(8));
        assert(b.skip(8).skip(4) =~= b.skip(12));
        lemma_le_value_4(b.skip(12));
        assert(b.skip(12).skip(4) =~= Seq::empty());
    }
}

/// The bytes of a timestamp spell its milliseconds.
pub proof fn lemma_timestamp_bytes(value: Timestamp)
    ensures
        value.encoded().len() == 8,
        number8(value.encoded(), 0) == value.unix_millis,
{
    let bytes = value.encoded();
    value.lemma_round_trip(Seq::empty());
    assert(bytes + Seq::<u8>::empty() =~= bytes);
    lemma_le_value_is_number(bytes);
}

/// A timestamp is read as the milliseconds that the first eight bytes spell.
pub proof fn lemma_timestamp_read(bytes: Seq<u8>)
    ensures
        Timestamp::decoded(bytes) is None <==> bytes.len() < 8,
        Timestamp::decoded(bytes) matches Some((value, taken)) ==> taken == 8
            && value.unix_millis == number8(bytes, 0),
{
    lemma_le_value_is_number(bytes);
}

/// A `u32` is written as four bytes that spell it.
pub proof fn law_encode_u32(value: u32, bytes: Vec<u8>)
    requires
        call_ensures(<u32 as Codec>::encode, (&value,), bytes),
    ensures
        bytes@.len() == 4,
        number4(bytes@, 0) == value,
{
    value.lemma_round_trip(Seq::empty());
    assert(bytes@ + Seq::<u8>::empty() =~= bytes@);
    lemma_le_value_is_number(bytes@);
}

/// A `u32` is read from the first four bytes, as the number that they spell, and not
/// read where there are fewer.
pub proof fn law_decode_u32(bytes: &[u8], read: Option<(u32, usize)>)
    requires
        call_ensures(<u32 as Codec>::decode, (bytes,), read),
    ensures
        read is None <==> bytes@.len() < 4,
        read matches Some((value, taken)) ==> taken == 4 && value == number4(bytes@, 0),
{
    lemma_le_value_is_number(bytes@);
}

/// A `u64` is written as eight bytes that spell it.
pub proof fn law_encode_u64(value: u64, bytes: Vec<u8>)
    requires
        call_ensures(<u64 as Codec>::encode, (&value,), bytes),
    ensures
        bytes@.len() == 8,
        number8(bytes@, 0) == value,
{
    value.lemma_round_trip(Seq::empty());
    assert(bytes@ + Seq::<u8>::empty() =~= bytes@);
    lemma_le_value_is_number(bytes@);
}

/// A `u64` is read from the first eight bytes, as the number that they spell, and not
/// read where there are fewer.
pub proof fn law_decode_u64(bytes: &[u8], read: Option<(u64, usize)>)
    requires
        call_ensures(<u64 as Codec>::decode, (bytes,), read),
    ensures
        read is None <==> bytes@.len() < 8,
        read matches Some((value, taken)) ==> taken == 8 && value == number8(bytes@, 0),
{
    lemma_le_value_is_number(bytes@);
}

/// A `u128` is written as sixteen bytes that spell it.
pub proof fn law_encode_u128(value: u128, bytes: Vec<u8>)
    requires
        call_ensures(<u128 as Codec>::encode, (&value,), bytes),
    ensures
        bytes@.len() == 16,
        number16(bytes@, 0) == value,
{
    value.lemma_round_trip(Seq::empty());
    assert(bytes@ + Seq::<u8>::empty() =~= bytes@);
    lemma_le_value_is_number(bytes@);
}

/// A `u128` is read from the first sixteen bytes, as the number that they spell, and not
/// read where there are fewer.
pub proof fn law_decode_u128(bytes: &[u8], read: Option<(u128, usize)>)
    requires
        call_ensures(<u128 as Codec>::decode, (bytes,), read),
    ensures
        read is None <==> bytes@.len() < 16,
        read matches Some((value, taken)) ==> taken == 16 && value == number16(bytes@, 0),
{
    lemma_le_value_is_number(bytes@);
}

/// A timestamp is written as eight bytes that spell its milliseconds.
pub proof fn law_encode_timestamp(value: Timestamp, bytes: Vec<u8>)
    requires
        call_ensures(<Timestamp as Codec>::encode, (&value,), bytes),
    ensures
        bytes@.len() == 8,
        number8(bytes@, 0) == value.unix_millis,
{
    value.lemma_round_trip(Seq::empty());
    assert(bytes@ + Seq::<u8>::empty() =~= bytes@);
    lemma_le_value_is_number(bytes@);
}

/// A timestamp is read from the first eight bytes, as the milliseconds that they
/// spell, and not read where there are fewer.
pub proof fn law_decode_timestamp(bytes: &[u8], read: Option<(Timestamp, usize)>)
    requires
        call_ensures(<Timestamp as Codec>::decode, (bytes,), read),
    ensures
        read is None <==> bytes@.len() < 8,
        read matches Some((value, taken)) ==> taken == 8 && value.unix_millis == number8(
            bytes@,
            0,
        ),
{
    lemma_le_value_is_number(bytes@);
}

/// A pair is written as its first part followed by its second.
pub proof fn law_encode_pair<A: Codec, B: Codec>(
    pair: (A, B),
    first: Vec<u8>,
    second: Vec<u8>,
    bytes: Vec<u8>,
)
    requires
        call_ensures(A::encode, (&pair.0,), first),
        call_ensures(B::encode, (&pair.1,), second),
        call_ensures(<(A, B) as Codec>::encode, (&pair,), bytes),
    ensures
        bytes@ == first@ + second@,
{
}

/// A pair is read by reading its first part, and its second from the bytes after it.
pub proof fn law_decode_pair<A: Codec, B: Codec>(
    bytes: &[u8],
    first: Option<(A, usize)>,
    rest: &[u8],
    second: Option<(B, usize)>,
    read: Option<((A, B), usize)>,
)
    requires
        call_ensures(A::decode, (bytes,), first),
        first is Some ==> rest@ == bytes@.skip((first->0).1 as int),
        call_ensures(B::decode, (rest,), second),
        call_ensures(<(A, B) as Codec>::decode, (bytes,), read),
    ensures
        read is None <==> first is None || second is None,
        read matches Some((pair, taken)) ==> {
            &&& pair.0 == (first->0).0
            &&& pair.1 == (second->0).0
            &&& taken == (first->0).1 + (second->0).1
        },
{
}

/// An instant by block and time is written as its block number, followed by eight
/// bytes that spell the milliseconds of its timestamp.
pub proof fn law_encode_instant<B: BlockNumberProvider>(
    instant: BlockAndTimeInstant<B>,
    number: Vec<u8>,
    bytes: Vec<u8>,
)
    requires
        call_ensures(<B::BlockNumber as Codec>::encode, (&instant.block_number,), number),
        call_ensures(<BlockAndTimeInstant<B> as Codec>::encode, (&instant,), bytes),
    ensures
        bytes@.len() == number@.len() + 8,
        bytes@.take(number@.len() as int) == number@,
        number8(bytes@, number@.len() as int) == instant.timestamp.unix_millis,
{
    let tail = instant.timestamp.encoded();
    instant.timestamp.lemma_round_trip(Seq::empty());
    assert(tail + Seq::<u8>::empty() =~= tail);
    lemma_le_value_is_number(tail);
    assert(bytes@ =~= number@ + tail);
    assert(bytes@.take(number@.len() as int) =~= number@);
    assert(number8(bytes@, number@.len() as int) == number8(tail, 0));
}

/// An instant by block and time is read as its block number, followed by the eight
/// bytes that spell the milliseconds of its timestamp, and not read where either is
/// missing.
pub proof fn law_decode_instant<B: BlockNumberProvider>(
    bytes: &[u8],
    number: Option<(B::BlockNumber, usize)>,
    read: Option<(BlockAndTimeInstant<B>, usize)>,
)
    requires
        call_ensures(<B::BlockNumber as Codec>::decode, (bytes,), number),
        call_ensures(<BlockAndTimeInstant<B> as Codec>::decode, (bytes,), read),
    ensures
        read is None <==> number is None || bytes@.len() < (number->0).1 + 8,
        read matches Some((instant, taken)) ==> {
            &&& instant.block_number == (number->0).0
            &&& instant.timestamp.unix_millis == number8(bytes@, (number->0).1 as int)
            &&& taken == (number->0).1 + 8
        },
{
    if let Some((_, k)) = number {
        lemma_le_value_is_number(bytes@.skip(k as int));
        if bytes@.len() >= k + 8 {
            assert(number8(bytes@.skip(k as int), 0) == number8(bytes@, k as int));
        }
    }
}

/// What is written is read back, whatever bytes follow, and takes as many bytes as
/// were written.
pub proof fn law_encode_decode<I: Codec>(
    value: I,
    written: Vec<u8>,
    bytes: &[u8],
    read: Option<(I, usize)>,
)
    requires
        call_ensures(I::encode, (&value,), written),
        written@.is_prefix_of(bytes@),
        call_ensures(I::decode, (bytes,), read),
    ensures
        read matches Some((back, taken)) && back == value && taken == written@.len(),
{
    let rest = bytes@.skip(written@.len() as int);
    value.lemma_round_trip(rest);
    assert(written@ + rest =~= bytes@);
}

/// Block numbers of type `u32` count up to the greatest of the type and are ordered as
/// numbers.
pub proof fn law_block_number_u32(
    block: u32,
    offset: u32,
    other: u32,
    reaches: bool,
    advanced: u32,
    after: bool,
)
    requires
        call_ensures(<u32 as BlockNumber>::reaches, (&block, offset), reaches),
        call_ensures(<u32 as BlockNumber>::advance, (&block, offset), advanced),
        call_ensures(<u32 as BlockNumber>::is_after, (&block, &other), after),
    ensures
        block.number() == block,
        u32::greatest() == 0xffff_ffff,
        reaches == (block + offset <= 0xffff_ffff),
        reaches ==> advanced == block + offset,
        after == (block > other),
{
}

/// Block numbers of type `u64` count up to the greatest of the type and are ordered as
/// numbers.
pub proof fn law_block_number_u64(
    block: u64,
    offset: u32,
    other: u64,
    reaches: bool,
    advanced: u64,
    after: bool,
)
    requires
        call_ensures(<u64 as BlockNumber>::reaches, (&block, offset), reaches),
        call_ensures(<u64 as BlockNumber>::advance, (&block, offset), advanced),
        call_ensures(<u64 as BlockNumber>::is_after, (&block, &other), after),
    ensures
        block.number() == block,
        u64::greatest() == 0xffff_ffff_ffff_ffff,
        reaches == (block + offset <= 0xffff_ffff_ffff_ffff),
        reaches ==> advanced == block + offset,
        after == (block > other),
{
}

/// Block numbers of type `u128` count up to the greatest of the type and are ordered as
/// numbers.
pub proof fn law_block_number_u128(
    block: u128,
    offset: u32,
    other: u128,
    reaches: bool,
    advanced: u128,
    after: bool,
)
    requires
        call_ensures(<u128 as BlockNumber>::reaches, (&block, offset), reaches),
        call_ensures(<u128 as BlockNumber>::advance, (&block, offset), advanced),
        call_ensures(<u128 as BlockNumber>::is_after, (&block, &other), after),
    ensures
        block.number() == block,
        u128::greatest() == 0xffff_ffff_ffff_ffff_ffff_ffff_ffff_ffff,
        reaches == (block + offset <= 0xffff_ffff_ffff_ffff_ffff_ffff_ffff_ffff),
        reaches ==> advanced == block + offset,
        after == (block > other),
{
}

/// A lock by time lasts thirty seconds by default.
pub proof fn law_time_default(time: Time)
    requires
        call_ensures(<Time as Default>::default, (), time),
    ensures
        time.expiration_duration.millis == 30_000,
{
}

/// The current instant of a lock by time is the point in time.
pub proof fn law_time_current(now: Timestamp, current: Timestamp)
    requires
        call_ensures(<Time as Lockable>::current, (now,), current),
    ensures
        current == now,
{
}

/// A lock by time can be given a deadline at any timestamp.
pub proof fn law_time_can_always_be_dated(time: Time, current: Timestamp, datable: bool)
    requires
        call_ensures(<Time as Lockable>::can_date, (&time, &current), datable),
    ensures
        datable,
        time.datable(current),
{
}

/// The deadline of a lock by time is its duration after the current timestamp, up to
/// the last timestamp there is.
pub proof fn law_time_deadline(time: Time, current: Timestamp, deadline: Timestamp)
    requires
        call_ensures(<Time as Lockable>::deadline, (&time, current), deadline),
    ensures
        deadline.unix_millis == capped_sum(
            current.unix_millis as int,
            time.expiration_duration.millis as int,
        ),
        deadline == time.deadline_at(current),
{
}

/// A deadline by time has passed at the timestamps after it, and at no others.
pub proof fn law_time_expired(deadline: Timestamp, current: Timestamp, expired: bool)
    requires
        call_ensures(<Time as Lockable>::expired, (&deadline, &current), expired),
    ensures
        expired == (current.unix_millis > deadline.unix_millis),
        expired == Time::expired_at(deadline, current),
{
}

/// A snooze by a deadline by time ends at the deadline, but at once if that is over,
/// and after a tenth of a second at the latest.
pub proof fn law_time_snooze(deadline: Timestamp, now: Timestamp, wake: Timestamp)
    requires
        call_ensures(<Time as Lockable>::snooze, (&deadline, now), wake),
    ensures
        wake.unix_millis == woken(deadline.unix_millis as int, now.unix_millis as int),
        now.unix_millis <= wake.unix_millis <= now.unix_millis + 100,
        deadline.unix_millis > now.unix_millis ==> now.unix_millis < wake.unix_millis
            <= deadline.unix_millis,
{
}

/// A lockable by block and time has the offset and the duration that it is made with.
pub proof fn law_block_and_time_new<B: BlockNumberProvider>(
    offset: u32,
    duration: Duration,
    lockable: BlockAndTime<B>,
)
    requires
        call_ensures(BlockAndTime::<B>::new, (offset, duration), lockable),
    ensures
        lockable.expiration_block_number_offset == offset,
        lockable.expiration_duration.millis == duration.millis,
{
}

/// A lock by block and time lasts three blocks or thirty seconds by default.
pub proof fn law_block_and_time_default<B: BlockNumberProvider>(lockable: BlockAndTime<B>)
    requires
        call_ensures(<BlockAndTime<B> as Default>::default, (), lockable),
    ensures
        lockable.expiration_block_number_offset == 3,
        lockable.expiration_duration.millis == 30_000,
{
}

/// A clone of a lockable by block and time has its offset and its duration.
pub proof fn law_block_and_time_clone<B: BlockNumberProvider>(
    lockable: BlockAndTime<B>,
    copy: BlockAndTime<B>,
)
    requires
        call_ensures(<BlockAndTime<B> as Clone>::clone, (&lockable,), copy),
    ensures
        copy.expiration_block_number_offset == lockable.expiration_block_number_offset,
        copy.expiration_duration.millis == lockable.expiration_duration.millis,
{
}

/// A clone of an instant is at its block and at its time.
pub proof fn law_instant_clone<B: BlockNumberProvider>(
    instant: BlockAndTimeInstant<B>,
    copy: BlockAndTimeInstant<B>,
)
    requires
        call_ensures(<BlockAndTimeInstant<B> as Clone>::clone, (&instant,), copy),
    ensures
        copy.block_number == instant.block_number,
        copy.timestamp.unix_millis == instant.timestamp.unix_millis,
{
}

/// Instants are equal if and only if they are at the same block and at the same time.
pub proof fn law_instant_eq<B: BlockNumberProvider>(
    one: BlockAndTimeInstant<B>,
    two: BlockAndTimeInstant<B>,
    equal: bool,
)
    requires
        call_ensures(<BlockAndTimeInstant<B> as PartialEq>::eq, (&one, &two), equal),
    ensures
        equal == (one.block_number.number() == two.block_number.number()
            && one.timestamp.unix_millis == two.timestamp.unix_millis),
{
}

/// The current instant by block and time is at the block that the provider gives, and
/// at the point in time.
pub proof fn law_block_and_time_current<B: BlockNumberProvider>(
    now: Timestamp,
    current: BlockAndTimeInstant<B>,
)
    requires
        call_ensures(<BlockAndTime<B> as Lockable>::current, (now,), current) || call_ensures(
            BlockAndTimeInstant::<B>::current,
            (now,),
            current,
        ),
    ensures
        call_ensures(B::current_block_number, (), current.block_number),
        current.timestamp.unix_millis == now.unix_millis,
{
}

/// A lock by block and time can be given a deadline if and only if there is a block
/// number so many blocks later.
pub proof fn law_block_and_time_can_be_dated<B: BlockNumberProvider>(
    lockable: BlockAndTime<B>,
    current: BlockAndTimeInstant<B>,
    datable: bool,
)
    requires
        call_ensures(<BlockAndTime<B> as Lockable>::can_date, (&lockable, &current), datable),
    ensures
        datable == (current.block_number.number() + lockable.expiration_block_number_offset
            <= B::BlockNumber::greatest()),
        datable == lockable.datable(current),
{
}

/// The deadline of a lock by block and time is so many blocks after the current block,
/// and its duration after the current timestamp, up to the last timestamp there is.
pub proof fn law_block_and_time_deadline<B: BlockNumberProvider>(
    lockable: BlockAndTime<B>,
    current: BlockAndTimeInstant<B>,
    deadline: BlockAndTimeInstant<B>,
)
    requires
        current.block_number.number() + lockable.expiration_block_number_offset
            <= B::BlockNumber::greatest(),
        call_ensures(<BlockAndTime<B> as Lockable>::deadline, (&lockable, current), deadline),
    ensures
        deadline.block_number.number() == current.block_number.number()
            + lockable.expiration_block_number_offset,
        deadline.timestamp.unix_millis == capped_sum(
            current.timestamp.unix_millis as int,
            lockable.expiration_duration.millis as int,
        ),
        lockable.deadline_at(current).block_number.number() == deadline.block_number.number(),
        lockable.deadline_at(current).timestamp == deadline.timestamp,
{
    current.block_number.lemma_advanced(lockable.expiration_block_number_offset);
}

/// A deadline by block and time has passed at the instants that are at a later time or
/// at a later block, and at no others.
pub proof fn law_block_and_time_expired<B: BlockNumberProvider>(
    deadline: BlockAndTimeInstant<B>,
    current: BlockAndTimeInstant<B>,
    expired: bool,
)
    requires
        call_ensures(<BlockAndTime<B> as Lockable>::expired, (&deadline, &current), expired),
    ensures
        expired == (current.timestamp.unix_millis > deadline.timestamp.unix_millis
            || current.block_number.number() > deadline.block_number.number()),
        expired == BlockAndTime::<B>::expired_at(deadline, current),
{
}

/// A snooze by a deadline by block and time ends at the timestamp of the deadline, but
/// at once if that is over, and after a tenth of a second at the latest.
pub proof fn law_block_and_time_snooze<B: BlockNumberProvider>(
    deadline: BlockAndTimeInstant<B>,
    now: Timestamp,
    wake: Timestamp,
)
    requires
        call_ensures(<BlockAndTime<B> as Lockable>::snooze, (&deadline, now), wake),
    ensures
        wake.unix_millis == woken(deadline.timestamp.unix_millis as int, now.unix_millis as int),
        now.unix_millis <= wake.unix_millis <= now.unix_millis + 100,
        deadline.timestamp.unix_millis > now.unix_millis ==> now.unix_millis < wake.unix_millis
            <= deadline.timestamp.unix_millis,
{
}

/// A lockable that leaves snoozing to the default goes by the same instants and
/// deadlines as the one that it is made of.
pub proof fn law_steady<L: Lockable>(
    steady: Steady<L>,
    now: Timestamp,
    current: L::Instant,
    deadline: L::Instant,
    at: L::Instant,
    datable: bool,
    expired: bool,
)
    requires
        call_ensures(<Steady<L> as Lockable>::current, (now,), current),
        call_ensures(<Steady<L> as Lockable>::can_date, (&steady, &at), datable),
        call_ensures(<Steady<L> as Lockable>::deadline, (&steady, at), deadline),
        call_ensures(<Steady<L> as Lockable>::expired, (&deadline, &at), expired),
    ensures
        call_ensures(L::current, (now,), current),
        datable == steady.lockable.datable(at),
        deadline == steady.lockable.deadline_at(at),
        expired == L::expired_at(deadline, at),
{
}

} // verus!
