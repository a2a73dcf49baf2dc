//! How the dialogue between an acquisition and its host goes.
//!
//! Each law follows an acquisition through the answers that it is told, and says what
//! it asks for then, or how it ends.
use vstd::prelude::*;
use crate::block::{BlockNumber, BlockNumberProvider};
use crate::codec::Codec;
use crate::lock::{Acquisition, Progress, StorageKind, StorageLock, StorageLockGuard, StorageValueRef};
use crate::lockable::{BlockAndTime, BlockAndTimeInstant, Lockable, Time};
use crate::protocol::{Reply, Request, Stage};
use crate::time::{Duration, Timestamp};
use crate::value_laws::{capped_sum, number8, woken};

verus! {

/// Whether `acquisition` asks for `request`.
pub open spec fn asks<'a, 'b, L: Lockable>(
    acquisition: Acquisition<'a, 'b, L>,
    request: Request<Vec<u8>>,
) -> bool {
    call_ensures(Acquisition::<'a, 'b, L>::request, (&acquisition,), request)
}

/// Whether `progress` is what becomes of `acquisition` when it is told `reply`.
pub open spec fn told<'a, 'b, L: Lockable>(
    acquisition: Acquisition<'a, 'b, L>,
    reply: Reply<L::Instant, Vec<u8>>,
    progress: Progress<'a, 'b, L>,
) -> bool {
    call_ensures(Acquisition::<'a, 'b, L>::step, (acquisition, reply), progress)
}

/// Whether `next` is `acquisition` further on: it is still about the same lock, and
/// waits for it if `acquisition` did.
pub open spec fn goes_on<'a, 'b, L: Lockable>(
    acquisition: Acquisition<'a, 'b, L>,
    next: Acquisition<'a, 'b, L>,
) -> bool {
    next.lock() == acquisition.lock() && next.patient() == acquisition.patient()
}

/// Whether `held` and `bytes` are both nothing, or the same bytes.
pub open spec fn same_bytes(held: Option<Vec<u8>>, bytes: Option<Vec<u8>>) -> bool {
    match (held, bytes) {
        (Some(one), Some(two)) => one@ == two@,
        (None, None) => true,
        _ => false,
    }
}

/// Whether `reply` is of the kind that `request` asks for.
pub open spec fn of_kind<I>(request: Request<Vec<u8>>, reply: Reply<I, Vec<u8>>) -> bool {
    match (request, reply) {
        (Request::Current, Reply::Current(_)) => true,
        (Request::Now, Reply::Now(_)) => true,
        (Request::Get, Reply::Entry(_)) => true,
        (Request::CompareAndSet { .. }, Reply::Written(_)) => true,
        (Request::SleepUntil { .. }, Reply::Awake) => true,
        _ => false,
    }
}

/// A single attempt begins by asking for the current instant.
pub proof fn law_try_lock_begins<'a, 'b, L: Lockable>(
    lock: &'b mut StorageLock<'a, L>,
    acquisition: Acquisition<'a, 'b, L>,
    request: Request<Vec<u8>>,
)
    requires
        call_ensures(StorageLock::<'a, L>::try_lock, (lock,), acquisition),
        asks(acquisition, request),
    ensures
        request is Current,
        acquisition.stage() is Dating,
        !acquisition.patient(),
        acquisition.lock() == *old(lock),
        *final(lock) == *old(lock),
{
}

/// Waiting for the lock begins by asking for the current instant.
pub proof fn law_lock_begins<'a, 'b, L: Lockable>(
    lock: &'b mut StorageLock<'a, L>,
    acquisition: Acquisition<'a, 'b, L>,
    request: Request<Vec<u8>>,
)
    requires
        call_ensures(StorageLock::<'a, L>::lock, (lock,), acquisition),
        asks(acquisition, request),
    ensures
        request is Current,
        acquisition.stage() is Dating,
        acquisition.patient(),
        acquisition.lock() == *old(lock),
        *final(lock) == *old(lock),
{
}

/// Told the current instant, an attempt asks for the entry.
pub proof fn law_attempt_asks_for_the_entry<'a, 'b, L: Lockable>(
    acquisition: Acquisition<'a, 'b, L>,
    current: L::Instant,
    progress: Progress<'a, 'b, L>,
)
    requires
        acquisition.stage() is Dating,
        told(acquisition, Reply::Current(current), progress),
    ensures
        progress matches Progress::Pending(next) && goes_on(acquisition, next) && (
        forall|request: Request<Vec<u8>>| asks(next, request) ==> request is Get),
{
}

/// Where no deadline can be read from the entry, an attempt asks that the entry, as it
/// was read, be replaced by the deadline that is set at the instant at which the
/// attempt began.
pub proof fn law_attempt_on_free_entry<'a, 'b, L: Lockable>(
    begun: Acquisition<'a, 'b, L>,
    dated: L::Instant,
    reading: Acquisition<'a, 'b, L>,
    entry: Option<Vec<u8>>,
    bytes: &[u8],
    progress: Progress<'a, 'b, L>,
)
    requires
        begun.stage() is Dating,
        told(begun, Reply::Current(dated), Progress::Pending(reading)),
        entry matches Some(held) ==> bytes@ == held@ && call_ensures(
            <L::Instant as Codec>::decode,
            (bytes,),
            None,
        ),
        told(reading, Reply::Entry(entry), progress),
    ensures
        progress matches Progress::Pending(next) && goes_on(begun, next) && (
        forall|request: Request<Vec<u8>>| #[trigger]
            asks(next, request) ==> (request matches Request::CompareAndSet { old, new }
                && same_bytes(old, entry) && new@ == begun.lock().lockable().deadline_at(
                dated,
            ).encoded())),
{
}

/// Where a deadline can be read from the entry, an attempt asks for the current
/// instant to judge it by. If the deadline has passed then, it asks that the entry, as
/// it was read, be replaced by the deadline that is set at the instant at which the
/// attempt began. If not, it is refused, or, if it waits for the lock, asks for the
/// time.
pub proof fn law_attempt_on_stored_deadline<'a, 'b, L: Lockable>(
    begun: Acquisition<'a, 'b, L>,
    dated: L::Instant,
    reading: Acquisition<'a, 'b, L>,
    entry: Vec<u8>,
    bytes: &[u8],
    held: (L::Instant, usize),
    judging: Acquisition<'a, 'b, L>,
    request: Request<Vec<u8>>,
    judged: L::Instant,
    expired: bool,
    progress: Progress<'a, 'b, L>,
)
    requires
        begun.stage() is Dating,
        told(begun, Reply::Current(dated), Progress::Pending(reading)),
        bytes@ == entry@,
        call_ensures(<L::Instant as Codec>::decode, (bytes,), Some(held)),
        told(reading, Reply::Entry(Some(entry)), Progress::Pending(judging)),
        asks(judging, request),
        call_ensures(L::expired, (&held.0, &judged), expired),
        told(judging, Reply::Current(judged), progress),
    ensures
        request is Current,
        goes_on(begun, judging),
        expired ==> (progress matches Progress::Pending(next) && goes_on(begun, next) && (
        forall|request: Request<Vec<u8>>| #[trigger]
            asks(next, request) ==> (request matches Request::CompareAndSet { old, new }
                && same_bytes(old, Some(entry)) && new@
                == begun.lock().lockable().deadline_at(dated).encoded()))),
        !expired && !begun.patient() ==> progress is Refused,
        !expired && begun.patient() ==> (progress matches Progress::Pending(next) && goes_on(
            begun,
            next,
        ) && (forall|request: Request<Vec<u8>>| #[trigger]
            asks(next, request) ==> request is Now)),
{
}

/// An attempt never ends with the entry: it judges what it read, or asks to replace it.
pub proof fn law_attempt_goes_on_after_reading<'a, 'b, L: Lockable>(
    begun: Acquisition<'a, 'b, L>,
    dated: L::Instant,
    reading: Acquisition<'a, 'b, L>,
    entry: Option<Vec<u8>>,
    progress: Progress<'a, 'b, L>,
)
    requires
        begun.stage() is Dating,
        told(begun, Reply::Current(dated), Progress::Pending(reading)),
        told(reading, Reply::Entry(entry), progress),
    ensures
        progress matches Progress::Pending(next) && goes_on(begun, next),
{
}

/// The lock is granted if and only if the entry was replaced. If it was not, a single
/// attempt is refused, and one that waits for the lock asks for the current instant.
pub proof fn law_replacing_the_entry_is_locking<'a, 'b, L: Lockable>(
    writing: Acquisition<'a, 'b, L>,
    request: Request<Vec<u8>>,
    written: bool,
    progress: Progress<'a, 'b, L>,
)
    requires
        asks(writing, request),
        request is CompareAndSet,
        told(writing, Reply::Written(written), progress),
    ensures
        progress is Granted <==> written,
        progress matches Progress::Granted(guard) ==> guard.lock() == Some(writing.lock()),
        progress is Refused <==> !written && !writing.patient(),
        progress matches Progress::Pending(next) ==> goes_on(writing, next) && (
        forall|request: Request<Vec<u8>>| #[trigger]
            asks(next, request) ==> request is Current),
{
}

/// No other answer grants the lock.
pub proof fn law_nothing_else_is_locking<'a, 'b, L: Lockable>(
    acquisition: Acquisition<'a, 'b, L>,
    request: Request<Vec<u8>>,
    reply: Reply<L::Instant, Vec<u8>>,
    progress: Progress<'a, 'b, L>,
)
    requires
        asks(acquisition, request),
        of_kind(request, reply),
        !(request is CompareAndSet),
        told(acquisition, reply, progress),
    ensures
        !(progress is Granted),
        acquisition.patient() ==> !(progress is Refused),
{
}

/// One that waits for a lock that is held sleeps by the deadline that it read, and
/// then begins another attempt.
pub proof fn law_waiting_for_a_held_lock<'a, 'b, L: Lockable>(
    begun: Acquisition<'a, 'b, L>,
    dated: L::Instant,
    reading: Acquisition<'a, 'b, L>,
    entry: Vec<u8>,
    bytes: &[u8],
    held: (L::Instant, usize),
    judging: Acquisition<'a, 'b, L>,
    judged: L::Instant,
    dozing: Acquisition<'a, 'b, L>,
    now: Timestamp,
    sleeping: Progress<'a, 'b, L>,
)
    requires
        begun.stage() is Dating,
        begun.patient(),
        told(begun, Reply::Current(dated), Progress::Pending(reading)),
        bytes@ == entry@,
        call_ensures(<L::Instant as Codec>::decode, (bytes,), Some(held)),
        told(reading, Reply::Entry(Some(entry)), Progress::Pending(judging)),
        call_ensures(L::expired, (&held.0, &judged), false),
        told(judging, Reply::Current(judged), Progress::Pending(dozing)),
        told(dozing, Reply::Now(now), sleeping),
    ensures
        sleeping matches Progress::Pending(next) && goes_on(begun, next) && (
        forall|request: Request<Vec<u8>>| #[trigger]
            asks(next, request) ==> (request matches Request::SleepUntil { wake }
                && call_ensures(L::snooze, (&held.0, now), wake))),
{
}

/// One that waits for a lock and lost it to another one sleeps by the deadline that
/// it would set at the current instant.
pub proof fn law_waiting_after_a_lost_race<'a, 'b, L: Lockable>(
    writing: Acquisition<'a, 'b, L>,
    request: Request<Vec<u8>>,
    redating: Acquisition<'a, 'b, L>,
    current: L::Instant,
    dozing: Progress<'a, 'b, L>,
    now: Timestamp,
    sleeping: Progress<'a, 'b, L>,
)
    requires
        asks(writing, request),
        request is CompareAndSet,
        told(writing, Reply::Written(false), Progress::Pending(redating)),
        told(redating, Reply::Current(current), dozing),
        dozing matches Progress::Pending(next) ==> told(next, Reply::Now(now), sleeping),
    ensures
        dozing matches Progress::Pending(next) && goes_on(writing, next) && (
        forall|request: Request<Vec<u8>>| #[trigger] asks(next, request) ==> request is Now),
        sleeping matches Progress::Pending(next) && goes_on(writing, next) && (
        forall|request: Request<Vec<u8>>| #[trigger]
            asks(next, request) ==> (request matches Request::SleepUntil { wake }
                && call_ensures(
                L::snooze,
                (&writing.lock().lockable().deadline_at(current), now),
                wake,
            ))),
{
}

/// After its sleep, one that waits for a lock begins another attempt, by asking for
/// the current instant.
pub proof fn law_another_attempt_after_sleep<'a, 'b, L: Lockable>(
    sleeping: Acquisition<'a, 'b, L>,
    request: Request<Vec<u8>>,
    progress: Progress<'a, 'b, L>,
)
    requires
        asks(sleeping, request),
        request is SleepUntil,
        told(sleeping, Reply::Awake, progress),
    ensures
        progress matches Progress::Pending(next) && goes_on(sleeping, next) && next.stage()
            is Dating && (forall|request: Request<Vec<u8>>| #[trigger]
            asks(next, request) ==> request is Current),
{
}

/// An acquisition accepts nothing but what it asked for, and all of that, unless it is
/// an instant at which no deadline can be set.
pub proof fn law_accepts<'a, 'b, L: Lockable>(
    acquisition: Acquisition<'a, 'b, L>,
    request: Request<Vec<u8>>,
    reply: Reply<L::Instant, Vec<u8>>,
    accepted: bool,
)
    requires
        asks(acquisition, request),
        call_ensures(Acquisition::<'a, 'b, L>::accepts, (&acquisition, &reply), accepted),
    ensures
        accepted ==> of_kind(request, reply),
        of_kind(request, reply) && !(reply is Current) ==> accepted,
        of_kind(request, reply) && (reply matches Reply::Current(current)
            && acquisition.lock().lockable().datable(current)) ==> accepted,
        acquisition.stage() is Dating && (reply matches Reply::Current(current)
            && !acquisition.lock().lockable().datable(current)) ==> !accepted,
{
}

/// A stored deadline can be judged at any instant, also at one at which no deadline can
/// be set.
pub proof fn law_judging_accepts_any_instant<'a, 'b, L: Lockable>(
    begun: Acquisition<'a, 'b, L>,
    dated: L::Instant,
    reading: Acquisition<'a, 'b, L>,
    entry: Vec<u8>,
    bytes: &[u8],
    held: (L::Instant, usize),
    judging: Acquisition<'a, 'b, L>,
    reply: Reply<L::Instant, Vec<u8>>,
    accepted: bool,
)
    requires
        begun.stage() is Dating,
        told(begun, Reply::Current(dated), Progress::Pending(reading)),
        bytes@ == entry@,
        call_ensures(<L::Instant as Codec>::decode, (bytes,), Some(held)),
        told(reading, Reply::Entry(Some(entry)), Progress::Pending(judging)),
        call_ensures(Acquisition::<'a, 'b, L>::accepts, (&judging, &reply), accepted),
    ensures
        accepted == (reply is Current),
{
}

/// One that lost the lock to another one needs an instant at which a deadline can be
/// set.
pub proof fn law_lost_race_needs_a_datable_instant<'a, 'b, L: Lockable>(
    writing: Acquisition<'a, 'b, L>,
    request: Request<Vec<u8>>,
    redating: Acquisition<'a, 'b, L>,
    reply: Reply<L::Instant, Vec<u8>>,
    accepted: bool,
)
    requires
        asks(writing, request),
        request is CompareAndSet,
        told(writing, Reply::Written(false), Progress::Pending(redating)),
        call_ensures(Acquisition::<'a, 'b, L>::accepts, (&redating, &reply), accepted),
    ensures
        accepted == (reply matches Reply::Current(current)
            && writing.lock().lockable().datable(current)),
{
}

/// An acquisition of a lock by time accepts whatever it asked for.
pub proof fn law_time_accepts<'a, 'b>(
    acquisition: Acquisition<'a, 'b, Time>,
    request: Request<Vec<u8>>,
    reply: Reply<Timestamp, Vec<u8>>,
    accepted: bool,
)
    requires
        asks(acquisition, request),
        call_ensures(Acquisition::<'a, 'b, Time>::accepts, (&acquisition, &reply), accepted),
    ensures
        accepted == of_kind(request, reply),
{
}

/// An acquisition of a lock by block and time accepts whatever it asked for, unless it
/// is an instant after which there are not as many blocks as the lock is to last.
pub proof fn law_block_and_time_accepts<'a, 'b, B: BlockNumberProvider>(
    acquisition: Acquisition<'a, 'b, BlockAndTime<B>>,
    request: Request<Vec<u8>>,
    reply: Reply<BlockAndTimeInstant<B>, Vec<u8>>,
    accepted: bool,
)
    requires
        asks(acquisition, request),
        call_ensures(
            Acquisition::<'a, 'b, BlockAndTime<B>>::accepts,
            (&acquisition, &reply),
            accepted,
        ),
    ensures
        accepted ==> of_kind(request, reply),
        of_kind(request, reply) && (reply matches Reply::Current(current) ==> (
        current.block_number.number()
            + acquisition.lock().lockable().expiration_block_number_offset
            <= B::BlockNumber::greatest())) ==> accepted,
        acquisition.stage() is Dating && (reply matches Reply::Current(current)
            && current.block_number.number()
            + acquisition.lock().lockable().expiration_block_number_offset
            > B::BlockNumber::greatest()) ==> !accepted,
{
}

/// Whether `bytes` are eight bytes that spell the time `duration` after `start`.
pub open spec fn spells_deadline(bytes: Seq<u8>, start: Timestamp, duration: Duration) -> bool {
    bytes.len() == 8 && number8(bytes, 0) == capped_sum(
        start.unix_millis as int,
        duration.millis as int,
    )
}

proof fn lemma_deadline_bytes(time: Time, start: Timestamp)
    ensures
        spells_deadline(time.deadline_at(start).encoded(), start, time.expiration_duration),
{
    crate::value_laws::lemma_timestamp_bytes(time.deadline_at(start));
}

/// A lock by time: if there is no entry, or one of fewer than eight bytes, the attempt
/// asks to replace it by the deadline, its duration after the attempt began.
pub proof fn law_time_attempt_on_free_entry<'a, 'b>(
    begun: Acquisition<'a, 'b, Time>,
    dated: Timestamp,
    reading: Acquisition<'a, 'b, Time>,
    entry: Option<Vec<u8>>,
    progress: Progress<'a, 'b, Time>,
)
    requires
        begun.stage() is Dating,
        told(begun, Reply::Current(dated), Progress::Pending(reading)),
        entry matches Some(held) ==> held@.len() < 8,
        told(reading, Reply::Entry(entry), progress),
    ensures
        progress matches Progress::Pending(next) && goes_on(begun, next) && (
        forall|request: Request<Vec<u8>>| #[trigger]
            asks(next, request) ==> (request matches Request::CompareAndSet { old, new }
                && same_bytes(old, entry) && spells_deadline(
                new@,
                dated,
                begun.lock().lockable().expiration_duration,
            ))),
{
    lemma_deadline_bytes(begun.lock().lockable(), dated);
}

/// A lock by time: if the first eight bytes of the entry spell a time that is over, the
/// attempt asks to replace the entry, as it was read, by the deadline, its duration
/// after the attempt began; if they spell a time that is not over, it is refused.
pub proof fn law_time_attempt_on_stored_deadline<'a, 'b>(
    begun: Acquisition<'a, 'b, Time>,
    dated: Timestamp,
    reading: Acquisition<'a, 'b, Time>,
    entry: Vec<u8>,
    judging: Acquisition<'a, 'b, Time>,
    judged: Timestamp,
    progress: Progress<'a, 'b, Time>,
)
    requires
        begun.stage() is Dating,
        told(begun, Reply::Current(dated), Progress::Pending(reading)),
        entry@.len() >= 8,
        told(reading, Reply::Entry(Some(entry)), Progress::Pending(judging)),
        told(judging, Reply::Current(judged), progress),
    ensures
        judged.unix_millis > number8(entry@, 0) ==> (progress matches Progress::Pending(next)
            && goes_on(begun, next) && (forall|request: Request<Vec<u8>>| #[trigger]
            asks(next, request) ==> (request matches Request::CompareAndSet { old, new }
                && same_bytes(old, Some(entry)) && spells_deadline(
                new@,
                dated,
                begun.lock().lockable().expiration_duration,
            )))),
        judged.unix_millis <= number8(entry@, 0) && !begun.patient() ==> progress is Refused,
        judged.unix_millis <= number8(entry@, 0) && begun.patient() ==> progress is Pending,
{
    lemma_deadline_bytes(begun.lock().lockable(), dated);
    crate::value_laws::lemma_timestamp_read(entry@);
}

/// A lock by time: one that waits for a lock that is held sleeps until the time that
/// the first eight bytes of the entry spell, or for a tenth of a second if that is
/// sooner.
pub proof fn law_time_waiting_for_a_held_lock<'a, 'b>(
    begun: Acquisition<'a, 'b, Time>,
    dated: Timestamp,
    reading: Acquisition<'a, 'b, Time>,
    entry: Vec<u8>,
    judging: Acquisition<'a, 'b, Time>,
    judged: Timestamp,
    dozing: Acquisition<'a, 'b, Time>,
    now: Timestamp,
    sleeping: Progress<'a, 'b, Time>,
)
    requires
        begun.stage() is Dating,
        begun.patient(),
        told(begun, Reply::Current(dated), Progress::Pending(reading)),
        entry@.len() >= 8,
        told(reading, Reply::Entry(Some(entry)), Progress::Pending(judging)),
        judged.unix_millis <= number8(entry@, 0),
        told(judging, Reply::Current(judged), Progress::Pending(dozing)),
        told(dozing, Reply::Now(now), sleeping),
    ensures
        sleeping matches Progress::Pending(next) && goes_on(begun, next) && (
        forall|request: Request<Vec<u8>>| #[trigger]
            asks(next, request) ==> (request matches Request::SleepUntil { wake }
                && wake.unix_millis == woken(number8(entry@, 0), now.unix_millis as int))),
{
    crate::value_laws::lemma_timestamp_read(entry@);
}

/// A lock by time: one that waits for a lock and lost it to another one sleeps until
/// its duration after the current instant, or for a tenth of a second if that is
/// sooner.
pub proof fn law_time_waiting_after_a_lost_race<'a, 'b>(
    writing: Acquisition<'a, 'b, Time>,
    request: Request<Vec<u8>>,
    redating: Acquisition<'a, 'b, Time>,
    current: Timestamp,
    dozing: Acquisition<'a, 'b, Time>,
    now: Timestamp,
    sleeping: Progress<'a, 'b, Time>,
)
    requires
        asks(writing, request),
        request is CompareAndSet,
        told(writing, Reply::Written(false), Progress::Pending(redating)),
        told(redating, Reply::Current(current), Progress::Pending(dozing)),
        told(dozing, Reply::Now(now), sleeping),
    ensures
        sleeping matches Progress::Pending(next) && goes_on(writing, next) && (
        forall|request: Request<Vec<u8>>| #[trigger]
            asks(next, request) ==> (request matches Request::SleepUntil { wake }
                && wake.unix_millis == woken(
                capped_sum(
                    current.unix_millis as int,
                    writing.lock().lockable().expiration_duration.millis as int,
                ),
                now.unix_millis as int,
            ))),
{
}

/// However it came to ask for the time, an acquisition of a lock by time sleeps for no
/// longer than a tenth of a second, and does not sleep past the deadline in the way.
pub proof fn law_time_sleeps_briefly<'a, 'b>(
    dozing: Acquisition<'a, 'b, Time>,
    request: Request<Vec<u8>>,
    now: Timestamp,
    sleeping: Acquisition<'a, 'b, Time>,
    sleep: Request<Vec<u8>>,
)
    requires
        asks(dozing, request),
        request is Now,
        told(dozing, Reply::Now(now), Progress::Pending(sleeping)),
        asks(sleeping, sleep),
    ensures
        sleep matches Request::SleepUntil { wake } && {
            &&& now.unix_millis <= wake.unix_millis <= now.unix_millis + 100
            &&& dozing.stage() matches Stage::Dozing { held_until } && (held_until.unix_millis
                > now.unix_millis ==> now.unix_millis < wake.unix_millis
                <= held_until.unix_millis)
        },
{
}

/// However it came to ask for the time, an acquisition of a lock by block and time
/// sleeps for no longer than a tenth of a second, and does not sleep past the deadline
/// in the way.
pub proof fn law_block_and_time_sleeps_briefly<'a, 'b, B: BlockNumberProvider>(
    dozing: Acquisition<'a, 'b, BlockAndTime<B>>,
    request: Request<Vec<u8>>,
    now: Timestamp,
    sleeping: Acquisition<'a, 'b, BlockAndTime<B>>,
    sleep: Request<Vec<u8>>,
)
    requires
        asks(dozing, request),
        request is Now,
        told(dozing, Reply::Now(now), Progress::Pending(sleeping)),
        asks(sleeping, sleep),
    ensures
        sleep matches Request::SleepUntil { wake } && {
            &&& now.unix_millis <= wake.unix_millis <= now.unix_millis + 100
            &&& dozing.stage() matches Stage::Dozing { held_until } && (
            held_until.timestamp.unix_millis > now.unix_millis ==> now.unix_millis
                < wake.unix_millis <= held_until.timestamp.unix_millis)
        },
{
}

/// The storage entry of a lock is the persistent one of the key that it is made with,
/// and a lock is stale by what it is made with.
pub proof fn law_lock_is_made_with<'a, L: Lockable + Default>(
    key: &'a [u8],
    lockable: L,
    lock: StorageLock<'a, L>,
    new: StorageLock<'a, L>,
)
    requires
        call_ensures(StorageLock::<'a, L>::with_lockable, (key, lockable), lock),
        call_ensures(StorageLock::<'a, L>::new, (key,), new),
    ensures
        lock.value_ref().key@ == key@,
        lock.value_ref().kind is Persistent,
        lock.lockable() == lockable,
        new.value_ref().key@ == key@,
        new.value_ref().kind is Persistent,
        call_ensures(L::default, (), new.lockable()),
{
}

/// A lock by time lasts as long as it is made to, and thirty seconds by default.
pub proof fn law_time_lock_is_made_with<'a>(
    key: &'a [u8],
    duration: Duration,
    lock: StorageLock<'a, Time>,
    new: StorageLock<'a, Time>,
)
    requires
        call_ensures(StorageLock::<'a, Time>::with_deadline, (key, duration), lock),
        call_ensures(StorageLock::<'a, Time>::new, (key,), new),
    ensures
        lock.value_ref().key@ == key@,
        lock.value_ref().kind is Persistent,
        lock.lockable().expiration_duration.millis == duration.millis,
        new.value_ref().key@ == key@,
        new.value_ref().kind is Persistent,
        new.lockable().expiration_duration.millis == 30_000,
{
}

/// A lock by block and time lasts as many blocks and as long as it is made to, and
/// three blocks or thirty seconds by default.
pub proof fn law_block_and_time_lock_is_made_with<'a, B: BlockNumberProvider>(
    key: &'a [u8],
    offset: u32,
    duration: Duration,
    lock: StorageLock<'a, BlockAndTime<B>>,
    new: StorageLock<'a, BlockAndTime<B>>,
)
    requires
        call_ensures(
            StorageLock::<'a, BlockAndTime<B>>::with_block_and_time_deadline,
            (key, offset, duration),
            lock,
        ),
        call_ensures(StorageLock::<'a, BlockAndTime<B>>::new, (key,), new),
    ensures
        lock.value_ref().key@ == key@,
        lock.value_ref().kind is Persistent,
        lock.lockable().expiration_block_number_offset == offset,
        lock.lockable().expiration_duration.millis == duration.millis,
        new.value_ref().key@ == key@,
        new.value_ref().kind is Persistent,
        new.lockable().expiration_block_number_offset == 3,
        new.lockable().expiration_duration.millis == 30_000,
{
}

/// A reference to a persistent entry is to the persistent entry of the key.
pub proof fn law_persistent<'a>(key: &'a [u8], value_ref: StorageValueRef<'a>)
    requires
        call_ensures(StorageValueRef::<'a>::persistent, (key,), value_ref),
    ensures
        value_ref.key@ == key@,
        value_ref.kind is Persistent,
{
}

/// What an acquisition asks of the storage is about the persistent entry of its lock.
pub proof fn law_requests_are_about_the_entry_of_the_lock<'a, 'b, L: Lockable>(
    acquisition: Acquisition<'a, 'b, L>,
    value_ref: StorageValueRef<'a>,
)
    requires
        call_ensures(Acquisition::<'a, 'b, L>::value_ref, (&acquisition,), value_ref),
    ensures
        value_ref.key@ == acquisition.lock().value_ref().key@,
        value_ref.kind == acquisition.lock().value_ref().kind,
        value_ref.kind == StorageKind::Persistent,
{
}

/// Closing the guard of a lock that was granted names the persistent entry of the
/// lock, so that the lock can be unlocked.
pub proof fn law_closing_unlocks<'a, 'b, L: Lockable>(
    writing: Acquisition<'a, 'b, L>,
    granted: StorageLockGuard<'a, 'b, L>,
    guard: &mut StorageLockGuard<'a, 'b, L>,
    value_ref: Option<StorageValueRef<'a>>,
)
    requires
        told(writing, Reply::Written(true), Progress::Granted(granted)),
        *old(guard) == granted,
        call_ensures(StorageLockGuard::<'a, 'b, L>::close, (guard,), value_ref),
    ensures
        value_ref matches Some(entry) && entry.key@ == writing.lock().value_ref().key@
            && entry.kind is Persistent,
{
}

/// Once closed, a guard has nothing left to unlock.
pub proof fn law_closing_twice_is_closing_once<'a, 'b, L: Lockable>(
    guard: &mut StorageLockGuard<'a, 'b, L>,
    first: Option<StorageValueRef<'a>>,
    closed: &mut StorageLockGuard<'a, 'b, L>,
    second: Option<StorageValueRef<'a>>,
)
    requires
        call_ensures(StorageLockGuard::<'a, 'b, L>::close, (guard,), first),
        *old(closed) == *final(guard),
        call_ensures(StorageLockGuard::<'a, 'b, L>::close, (closed,), second),
    ensures
        second is None,
{
}

/// A guard that forgot its lock unlocks nothing.
pub proof fn law_forgetting_does_not_unlock<'a, 'b, L: Lockable>(
    guard: &mut StorageLockGuard<'a, 'b, L>,
    forgetful: &mut StorageLockGuard<'a, 'b, L>,
    value_ref: Option<StorageValueRef<'a>>,
)
    requires
        call_ensures(StorageLockGuard::<'a, 'b, L>::forget, (guard,), ()),
        *old(forgetful) == *final(guard),
        call_ensures(StorageLockGuard::<'a, 'b, L>::close, (forgetful,), value_ref),
    ensures
        value_ref is None,
{
}

} // verus!
