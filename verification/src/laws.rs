//! What holds of the lock as a whole.
use vstd::prelude::*;
use crate::block::{BlockNumber, BlockNumberProvider};
use crate::codec::Codec;
use crate::lock::{StorageKind, StorageLock, StorageValueRef};
use crate::lockable::{
    wake_by, BlockAndTime, BlockAndTimeInstant, Lockable, Steady, Time,
    STORAGE_LOCK_PER_CHECK_ITERATION_SNOOZE,
};
use crate::protocol::{
    after_failure, answers, fits, held_until, moves, next_stage, request_at, Reply, Request, Stage,
};
use crate::time::{later, Timestamp};
use crate::value_laws::{capped_sum, lemma_timestamp_read, number8};

verus! {

/// Where an entry is kept: the kind of storage and the key.
pub type Place = (StorageKind, Seq<u8>);

/// All entries that the host keeps.
pub type Storage = Map<Place, Seq<u8>>;

/// Where the entry is kept that `value_ref` refers to.
pub open spec fn place_of(value_ref: StorageValueRef<'_>) -> Place {
    (value_ref.kind, value_ref.key@)
}

/// What the entry at `place` holds, if there is one.
pub open spec fn read(storage: Storage, place: Place) -> Option<Seq<u8>> {
    if storage.contains_key(place) {
        Some(storage[place])
    } else {
        None
    }
}

/// The storage once the entry at `place` is cleared.
pub open spec fn cleared(storage: Storage, place: Place) -> Storage {
    storage.remove(place)
}

/// One that wants the lock whose entry is at `place`.
pub struct Contender<L: Lockable> {
    pub place: Place,
    pub lockable: L,
    pub patient: bool,
    pub stage: Stage<L::Instant, Seq<u8>>,
}

/// A storage and all that want a lock in it.
pub struct World<L: Lockable> {
    pub storage: Storage,
    pub contenders: Map<int, Contender<L>>,
}

/// Something that happens in a world.
pub enum Event<I> {
    /// The host answers a contender.
    Answer { who: int, reply: Reply<I, Seq<u8>> },
    /// A contender that holds its lock unlocks it.
    Unlock { who: int },
    /// A contender that is done starts over, without unlocking.
    Restart { who: int },
}

/// The contender that `event` is about.
pub open spec fn concerned<I>(event: Event<I>) -> int {
    match event {
        Event::Answer { who, .. } => who,
        Event::Unlock { who } => who,
        Event::Restart { who } => who,
    }
}

/// What the host does with a request about the entry at `place`, where the storage
/// is `before` and then `after`.
pub open spec fn serves<I>(
    before: Storage,
    place: Place,
    request: Request<Seq<u8>>,
    reply: Reply<I, Seq<u8>>,
    after: Storage,
) -> bool {
    &&& answers(request, reply)
    &&& match request {
        Request::Get => reply->Entry_0 == read(before, place) && after == before,
        Request::CompareAndSet { old, new } => {
            &&& reply->Written_0 == (read(before, place) == old)
            &&& after == (if read(before, place) == old {
                before.insert(place, new)
            } else {
                before
            })
        },
        _ => after == before,
    }
}

/// The contenders after the one called `who` has come to `stage`.
pub open spec fn with_stage<L: Lockable>(
    contenders: Map<int, Contender<L>>,
    who: int,
    stage: Stage<L::Instant, Seq<u8>>,
) -> Map<int, Contender<L>> {
    contenders.insert(
        who,
        Contender {
            place: contenders[who].place,
            lockable: contenders[who].lockable,
            patient: contenders[who].patient,
            stage,
        },
    )
}

/// Whether `event` turns the world `before` into the world `after`.
pub open spec fn happens<L: Lockable>(
    before: World<L>,
    event: Event<L::Instant>,
    after: World<L>,
) -> bool {
    let who = concerned(event);
    let contender = before.contenders[who];
    &&& before.contenders.contains_key(who)
    &&& match event {
        Event::Answer { reply, .. } => {
            let next = after.contenders[who].stage;
            &&& fits(contender.lockable, contender.stage, reply)
            &&& serves(
                before.storage,
                contender.place,
                request_at(contender.stage)->0,
                reply,
                after.storage,
            )
            &&& moves(contender.lockable, contender.patient, contender.stage, reply, next)
            &&& after.contenders == with_stage(before.contenders, who, next)
        },
        Event::Unlock { .. } => {
            &&& contender.stage is Granted
            &&& after.storage == cleared(before.storage, contender.place)
            &&& after.contenders == with_stage(before.contenders, who, Stage::Dating)
        },
        Event::Restart { .. } => {
            &&& request_at(contender.stage) is None
            &&& after.storage == before.storage
            &&& after.contenders == with_stage(before.contenders, who, Stage::Dating)
        },
    }
}

/// A course of events: `worlds[i]` is the world after the first `i` of `events`. At
/// the outset all contenders are about to make their first attempt.
pub open spec fn is_course<L: Lockable>(
    worlds: Seq<World<L>>,
    events: Seq<Event<L::Instant>>,
) -> bool {
    &&& worlds.len() == events.len() + 1
    &&& forall|who: int|
        worlds[0].contenders.contains_key(who) ==> (
        #[trigger] worlds[0].contenders[who]).stage is Dating
    &&& forall|i: int|
        0 <= i < events.len() ==> happens(worlds[i], #[trigger] events[i], worlds[i + 1])
}

/// Whether the `i`-th event grants the lock at `place`, to be held until `deadline`.
pub open spec fn grants<L: Lockable>(
    worlds: Seq<World<L>>,
    events: Seq<Event<L::Instant>>,
    i: int,
    place: Place,
    deadline: L::Instant,
) -> bool {
    &&& 0 <= i < events.len()
    &&& events[i] matches Event::Answer { who, .. }
    &&& worlds[i + 1].contenders[who].place == place
    &&& worlds[i + 1].contenders[who].stage == (Stage::<L::Instant, Seq<u8>>::Granted { deadline })
}

/// Whether the lock at `place` is unlocked by an event after the `first` and before
/// the `second`.
pub open spec fn unlocked_between<L: Lockable>(
    worlds: Seq<World<L>>,
    events: Seq<Event<L::Instant>>,
    first: int,
    second: int,
    place: Place,
) -> bool {
    exists|i: int|
        first < i < second && #[trigger] events[i] is Unlock && worlds[i].contenders[concerned(
            events[i],
        )].place == place
}

/// Whether `event` tells a contender that `deadline` has passed.
pub open spec fn tells_expired<L: Lockable>(
    event: Event<L::Instant>,
    deadline: L::Instant,
) -> bool {
    event matches Event::Answer { reply: Reply::Current(current), .. } && L::expired_at(
        deadline,
        current,
    )
}

/// What keeps a contender at `stage` from replacing an entry that holds `deadline`.
spec fn harmless<I: Codec>(stage: Stage<I, Seq<u8>>, deadline: I) -> bool {
    match stage {
        Stage::Judging { entry, held_until: held, .. } => held_until::<I>(Some(entry)) == Some(
            held,
        ),
        Stage::Writing { seen, .. } => seen != Some(deadline.encoded()),
        _ => true,
    }
}

/// An entry that holds the encoded `deadline` holds `deadline`.
pub proof fn law_entry_round_trip<I: Codec>(deadline: I)
    ensures
        held_until::<I>(Some(deadline.encoded())) == Some(deadline),
{
    deadline.lemma_round_trip(Seq::empty());
    assert(deadline.encoded() + Seq::<u8>::empty() =~= deadline.encoded());
}

proof fn lemma_harmless<L: Lockable>(
    worlds: Seq<World<L>>,
    events: Seq<Event<L::Instant>>,
    deadline: L::Instant,
    n: int,
)
    requires
        is_course(worlds, events),
        0 <= n <= events.len(),
        forall|i: int| 0 <= i < n ==> !tells_expired::<L>(#[trigger] events[i], deadline),
    ensures
        forall|who: int|
            worlds[n].contenders.contains_key(who) ==> harmless(
                (#[trigger] worlds[n].contenders[who]).stage,
                deadline,
            ),
    decreases n,
{
    if n > 0 {
        lemma_harmless(worlds, events, deadline, n - 1);
        law_entry_round_trip(deadline);
        assert(happens(worlds[n - 1], events[n - 1], worlds[n - 1 + 1]));
        assert(!tells_expired::<L>(events[n - 1], deadline));
        assert forall|who: int| worlds[n].contenders.contains_key(who) implies harmless(
            (#[trigger] worlds[n].contenders[who]).stage,
            deadline,
        ) by {
            assert(worlds[n - 1].contenders.contains_key(who));
            assert(harmless(worlds[n - 1].contenders[who].stage, deadline));
        }
    }
}

proof fn lemma_entry_kept<L: Lockable>(
    worlds: Seq<World<L>>,
    events: Seq<Event<L::Instant>>,
    place: Place,
    deadline: L::Instant,
    first: int,
    n: int,
)
    requires
        is_course(worlds, events),
        grants(worlds, events, first, place, deadline),
        first < n <= events.len(),
        forall|i: int| 0 <= i < n ==> !tells_expired::<L>(#[trigger] events[i], deadline),
        !unlocked_between(worlds, events, first, n, place),
    ensures
        read(worlds[n].storage, place) == Some(deadline.encoded()),
    decreases n,
{
    assert(happens(worlds[n - 1], events[n - 1], worlds[n - 1 + 1]));
    if n - 1 > first {
        assert(!unlocked_between(worlds, events, first, n - 1, place));
        lemma_entry_kept(worlds, events, place, deadline, first, n - 1);
        lemma_harmless(worlds, events, deadline, n - 1);
    }
}

/// Mutual exclusion: once a lock is granted, and unless it is unlocked, it is not
/// granted again until a contender has been told an instant at which the deadline
/// of the first grant has passed.
pub proof fn law_mutual_exclusion<L: Lockable>(
    worlds: Seq<World<L>>,
    events: Seq<Event<L::Instant>>,
    place: Place,
    first: int,
    deadline: L::Instant,
    second: int,
    other: L::Instant,
)
    requires
        is_course(worlds, events),
        grants(worlds, events, first, place, deadline),
        grants(worlds, events, second, place, other),
        first < second,
        !unlocked_between(worlds, events, first, second, place),
    ensures
        exists|i: int| 0 <= i < second && tells_expired::<L>(#[trigger] events[i], deadline),
{
    if forall|i: int| 0 <= i < second ==> !tells_expired::<L>(#[trigger] events[i], deadline) {
        lemma_entry_kept(worlds, events, place, deadline, first, second);
        lemma_harmless(worlds, events, deadline, second);
        assert(happens(worlds[second], events[second], worlds[second + 1]));
        assert(false);
    }
}

/// Whether no instant that is handed out is before one that was handed out earlier.
pub open spec fn clock_runs_forward(events: Seq<Event<Timestamp>>) -> bool {
    forall|i: int, j: int|
        #![trigger events[i], events[j]]
        0 <= i <= j < events.len() ==> match (events[i], events[j]) {
            (
                Event::Answer { reply: Reply::Current(earlier), .. },
                Event::Answer { reply: Reply::Current(later), .. },
            ) => earlier.unix_millis <= later.unix_millis,
            _ => true,
        }
}

/// Mutual exclusion by the clock: where the clock does not run backwards, a lock by
/// time that was granted, and not unlocked since, is granted again only after its
/// deadline, so that every instant that is handed out from then on is after it.
pub proof fn law_mutual_exclusion_in_time(
    worlds: Seq<World<Time>>,
    events: Seq<Event<Timestamp>>,
    place: Place,
    first: int,
    deadline: Timestamp,
    second: int,
    other: Timestamp,
    next: int,
    current: Timestamp,
)
    requires
        is_course(worlds, events),
        clock_runs_forward(events),
        grants(worlds, events, first, place, deadline),
        grants(worlds, events, second, place, other),
        first < second <= next < events.len(),
        !unlocked_between(worlds, events, first, second, place),
        events[next] matches Event::Answer { reply: Reply::Current(c), .. } && c == current,
    ensures
        Time::expired_at(deadline, current),
        current.unix_millis > deadline.unix_millis,
{
    law_mutual_exclusion(worlds, events, place, first, deadline, second, other);
    let i = choose|i: int|
        0 <= i < second && tells_expired::<Time>(#[trigger] events[i], deadline);
    assert(events[next] is Answer);
}

/// Whether of the instants that are handed out none is at an earlier time, or at an
/// earlier block, than one that was handed out earlier.
pub open spec fn clock_and_blocks_run_forward<B: BlockNumberProvider>(
    events: Seq<Event<BlockAndTimeInstant<B>>>,
) -> bool {
    forall|i: int, j: int|
        #![trigger events[i], events[j]]
        0 <= i <= j < events.len() ==> match (events[i], events[j]) {
            (
                Event::Answer { reply: Reply::Current(earlier), .. },
                Event::Answer { reply: Reply::Current(later), .. },
            ) => {
                &&& earlier.timestamp.unix_millis <= later.timestamp.unix_millis
                &&& earlier.block_number.number() <= later.block_number.number()
            },
            _ => true,
        }
}

/// Mutual exclusion by block and clock: where neither the clock nor the block numbers
/// run backwards, a lock by block and time that was granted, and not unlocked since,
/// is granted again only once it is stale, so that it is stale at every instant that
/// is handed out from then on.
pub proof fn law_mutual_exclusion_in_blocks_and_time<B: BlockNumberProvider>(
    worlds: Seq<World<BlockAndTime<B>>>,
    events: Seq<Event<BlockAndTimeInstant<B>>>,
    place: Place,
    first: int,
    deadline: BlockAndTimeInstant<B>,
    second: int,
    other: BlockAndTimeInstant<B>,
    next: int,
    current: BlockAndTimeInstant<B>,
)
    requires
        is_course(worlds, events),
        clock_and_blocks_run_forward(events),
        grants(worlds, events, first, place, deadline),
        grants(worlds, events, second, place, other),
        first < second <= next < events.len(),
        !unlocked_between(worlds, events, first, second, place),
        events[next] matches Event::Answer { reply: Reply::Current(c), .. } && c == current,
    ensures
        BlockAndTime::<B>::expired_at(deadline, current),
        current.timestamp.unix_millis > deadline.timestamp.unix_millis
            || current.block_number.number() > deadline.block_number.number(),
{
    law_mutual_exclusion(worlds, events, place, first, deadline, second, other);
    let i = choose|i: int|
        0 <= i < second && tells_expired::<BlockAndTime<B>>(#[trigger] events[i], deadline);
    assert(events[next] is Answer);
}

/// Only the step that grants a lock and unlocking change the entry of the lock:
/// whatever else happens leaves it as it is.
pub proof fn law_entry_is_only_changed_by_grant_and_unlock<L: Lockable>(
    before: World<L>,
    event: Event<L::Instant>,
    after: World<L>,
)
    requires
        happens(before, event, after),
    ensures
        ({
            let who = concerned(event);
            let held = read(before.storage, before.contenders[who].place);
            let holds = read(after.storage, before.contenders[who].place);
            match event {
                Event::Answer { .. } => match after.contenders[who].stage {
                    Stage::Granted { deadline } => holds == Some(deadline.encoded()),
                    _ => holds == held,
                },
                Event::Unlock { .. } => holds is None,
                Event::Restart { .. } => holds == held,
            }
        }),
{
}

/// The key tells locks apart: what happens to one that wants a lock changes no entry
/// but that of the lock.
pub proof fn law_other_entries_are_left_alone<L: Lockable>(
    before: World<L>,
    event: Event<L::Instant>,
    after: World<L>,
    other: Place,
)
    requires
        happens(before, event, after),
        other != before.contenders[concerned(event)].place,
    ensures
        read(after.storage, other) == read(before.storage, other),
{
}

/// What other entries hold makes no difference to a lock: in a storage that agrees
/// on the entry of the lock, the same can happen, with the same consequence.
pub proof fn law_other_entries_make_no_difference<L: Lockable>(
    before: World<L>,
    event: Event<L::Instant>,
    after: World<L>,
    storage: Storage,
)
    requires
        happens(before, event, after),
        ({
            let place = before.contenders[concerned(event)].place;
            read(storage, place) == read(before.storage, place)
        }),
    ensures
        exists|result: World<L>|
            {
                let place = before.contenders[concerned(event)].place;
                &&& #[trigger] happens(
                    World { storage, contenders: before.contenders },
                    event,
                    result,
                )
                &&& result.contenders == after.contenders
                &&& read(result.storage, place) == read(after.storage, place)
            },
{
    let place = before.contenders[concerned(event)].place;
    let result = World {
        storage: match read(after.storage, place) {
            Some(bytes) if read(before.storage, place) != read(after.storage, place)
                || after.contenders[concerned(event)].stage is Granted => storage.insert(
                place,
                bytes,
            ),
            None => cleared(storage, place),
            _ => storage,
        },
        contenders: after.contenders,
    };
    if read(storage, place) is None {
        assert(cleared(storage, place) =~= storage);
    }
    assert(happens(World { storage, contenders: before.contenders }, event, result));
}

/// Unlocking: whatever the storage holds, clearing the entry of `lock` leaves it
/// without an entry and leaves every other entry as it is, and doing so once more
/// changes nothing.
pub proof fn law_unlock<L>(lock: StorageLock<'_, L>, storage: Storage, other: Place)
    ensures
        ({
            let place = place_of(lock.value_ref());
            &&& read(cleared(storage, place), place) is None
            &&& other != place ==> read(cleared(storage, place), other) == read(storage, other)
            &&& cleared(cleared(storage, place), place) == cleared(storage, place)
        }),
{
    let place = place_of(lock.value_ref());
    assert(cleared(cleared(storage, place), place) =~= cleared(storage, place));
}

/// Whether a lock with the given entry can be had at the instant `current`.
pub open spec fn is_free<L: Lockable>(entry: Option<Seq<u8>>, current: L::Instant) -> bool {
    match held_until::<L::Instant>(entry) {
        Some(deadline) => L::expired_at(deadline, current),
        None => true,
    }
}

/// The stage in which an attempt ends that nobody interferes with, where the entry
/// holds `entry`, the attempt begins at the instant `dated`, and looks at the
/// deadline in the entry at the instant `judged`.
pub open spec fn attempt<L: Lockable>(
    lockable: L,
    patient: bool,
    entry: Option<Seq<u8>>,
    dated: L::Instant,
    judged: L::Instant,
) -> Stage<L::Instant, Seq<u8>> {
    let reading = next_stage(lockable, patient, Stage::Dating, Reply::Current(dated));
    let examined = next_stage(lockable, patient, reading, Reply::Entry(entry));
    let decided = if examined is Judging {
        next_stage(lockable, patient, examined, Reply::Current(judged))
    } else {
        examined
    };
    if decided is Writing {
        next_stage(lockable, patient, decided, Reply::Written(true))
    } else {
        decided
    }
}

/// An attempt that nobody interferes with gets the lock, with a deadline counted
/// from its beginning, if there is no entry, if no deadline can be read from it, or
/// if that deadline has passed; else it fails.
pub proof fn law_attempt<L: Lockable>(
    lockable: L,
    patient: bool,
    entry: Option<Seq<u8>>,
    dated: L::Instant,
    judged: L::Instant,
)
    ensures
        attempt(lockable, patient, entry, dated, judged) == (if is_free::<L>(entry, judged) {
            Stage::Granted { deadline: lockable.deadline_at(dated) }
        } else {
            after_failure(patient, held_until::<L::Instant>(entry))
        }),
{
}

/// Whether in a course of events nothing happens but that the contender called `who`
/// is answered, and it has come to the end of its first attempt.
pub open spec fn is_lone_attempt<L: Lockable>(
    worlds: Seq<World<L>>,
    events: Seq<Event<L::Instant>>,
    who: int,
) -> bool {
    &&& is_course(worlds, events)
    &&& worlds[0].contenders.contains_key(who)
    &&& forall|i: int|
        0 <= i < events.len() ==> #[trigger] events[i] is Answer && concerned(events[i]) == who
    &&& match worlds.last().contenders[who].stage {
        Stage::Dating => false,
        Stage::Reading { .. } => false,
        Stage::Judging { .. } => false,
        Stage::Writing { .. } => false,
        _ => true,
    }
}

proof fn lemma_lone_attempt<L: Lockable>(
    worlds: Seq<World<L>>,
    events: Seq<Event<L::Instant>>,
    who: int,
)
    requires
        is_lone_attempt(worlds, events, who),
    ensures
        events.len() >= 3,
        happens(worlds[0], events[0], worlds[1]),
        happens(worlds[1], events[1], worlds[2]),
        happens(worlds[2], events[2], worlds[3]),
        events.len() > 3 ==> happens(worlds[3], events[3], worlds[4]),
        events.len() > 4 ==> happens(worlds[4], events[4], worlds[5]),
{
    assert(worlds[0].contenders[who].stage is Dating);
    assert(events.len() > 0 ==> happens(worlds[0], events[0], worlds[0int + 1]));
    assert(events.len() > 1 ==> happens(worlds[1], events[1], worlds[1int + 1]));
    assert(events.len() > 2 ==> happens(worlds[2], events[2], worlds[2int + 1]));
    assert(events.len() > 3 ==> happens(worlds[3], events[3], worlds[3int + 1]));
    assert(events.len() > 4 ==> happens(worlds[4], events[4], worlds[4int + 1]));
    assert(events.len() > 0 ==> concerned(events[0]) == who);
    assert(events.len() > 1 ==> concerned(events[1]) == who);
    assert(events.len() > 2 ==> concerned(events[2]) == who);
    assert(events.len() > 3 ==> concerned(events[3]) == who);
}

/// A lock that is free is had: one that nobody interferes with, and whose entry is
/// free at every instant that it is told once it has begun, ends with the lock. The
/// storage, answering as it does, then holds the deadline that is set at the instant
/// at which the attempt began.
pub proof fn law_free_lock_is_had<L: Lockable>(
    worlds: Seq<World<L>>,
    events: Seq<Event<L::Instant>>,
    who: int,
    dated: L::Instant,
)
    requires
        is_lone_attempt(worlds, events, who),
        events[0] matches Event::Answer { reply: Reply::Current(current), .. } && current == dated,
        forall|i: int|
            0 < i < events.len() ==> (#[trigger] events[i] matches Event::Answer {
                reply: Reply::Current(current),
                ..
            } ==> is_free::<L>(
                read(worlds[0].storage, worlds[0].contenders[who].place),
                current,
            )),
    ensures
        ({
            let deadline = worlds[0].contenders[who].lockable.deadline_at(dated);
            let place = worlds[0].contenders[who].place;
            &&& worlds.last().contenders[who].stage == (
            Stage::<L::Instant, Seq<u8>>::Granted { deadline })
            &&& read(worlds.last().storage, place) == Some(deadline.encoded())
        }),
{
    lemma_lone_attempt(worlds, events, who);
    assert(concerned(events[0]) == who);
    assert(concerned(events[1]) == who);
    assert(concerned(events[2]) == who);
    assert(events.len() > 3 ==> concerned(events[3]) == who);
    assert(events.len() > 4 ==> concerned(events[4]) == who);
    assert(events.len() <= 4);
    assert(worlds.last() == worlds[events.len() as int]);
}

/// A lock that is held is not had: one that nobody interferes with, and whose entry is
/// not free at any instant that it is told once it has begun, does not get the lock,
/// and the storage stays as it is.
pub proof fn law_held_lock_is_not_had<L: Lockable>(
    worlds: Seq<World<L>>,
    events: Seq<Event<L::Instant>>,
    who: int,
)
    requires
        is_lone_attempt(worlds, events, who),
        !worlds[0].contenders[who].patient,
        held_until::<L::Instant>(
            read(worlds[0].storage, worlds[0].contenders[who].place),
        ) is Some,
        forall|i: int|
            0 < i < events.len() ==> (#[trigger] events[i] matches Event::Answer {
                reply: Reply::Current(current),
                ..
            } ==> !is_free::<L>(
                read(worlds[0].storage, worlds[0].contenders[who].place),
                current,
            )),
    ensures
        worlds.last().contenders[who].stage is Refused,
        worlds.last().storage == worlds[0].storage,
{
    lemma_lone_attempt(worlds, events, who);
    assert(concerned(events[0]) == who);
    assert(concerned(events[1]) == who);
    assert(concerned(events[2]) == who);
    assert(events.len() > 3 ==> concerned(events[3]) == who);
    assert(events.len() <= 3);
    assert(worlds.last() == worlds[events.len() as int]);
}

/// An entry of a lock by time is free if it has fewer than eight bytes, or spells a
/// time that is over.
pub proof fn law_time_entry_is_free(entry: Option<Seq<u8>>, current: Timestamp)
    ensures
        is_free::<Time>(entry, current) == match entry {
            None => true,
            Some(bytes) => bytes.len() < 8 || current.unix_millis > number8(bytes, 0),
        },
{
    if let Some(bytes) = entry {
        lemma_timestamp_read(bytes);
    }
}

/// A lock that is unlocked can be had by anyone at any time.
pub proof fn law_unlocked_lock_is_free<L: Lockable>(
    lockable: L,
    patient: bool,
    dated: L::Instant,
    judged: L::Instant,
)
    ensures
        attempt(lockable, patient, None, dated, judged) == (
        Stage::<L::Instant, Seq<u8>>::Granted { deadline: lockable.deadline_at(dated) }),
{
}

/// A lock that was granted until `deadline` and then forgotten stays locked until
/// its deadline has passed, and can be had again from then on.
pub proof fn law_forgotten_lock_is_free_once_expired<L: Lockable>(
    lockable: L,
    patient: bool,
    deadline: L::Instant,
    dated: L::Instant,
    judged: L::Instant,
)
    ensures
        attempt(lockable, patient, Some(deadline.encoded()), dated, judged) == (
        if L::expired_at(deadline, judged) {
            Stage::Granted { deadline: lockable.deadline_at(dated) }
        } else {
            after_failure(patient, Some(deadline))
        }),
{
    law_entry_round_trip(deadline);
}

/// An acquisition that waits for the lock is never refused it.
pub proof fn law_patient_acquisition_is_not_refused<L: Lockable>(
    lockable: L,
    stage: Stage<L::Instant, Seq<u8>>,
    reply: Reply<L::Instant, Seq<u8>>,
    next: Stage<L::Instant, Seq<u8>>,
)
    requires
        fits(lockable, stage, reply),
        moves(lockable, true, stage, reply, next),
    ensures
        !(next is Refused),
{
}

/// How many answers an attempt at `stage` can still take.
pub open spec fn answers_left<I>(stage: Stage<I, Seq<u8>>) -> nat {
    match stage {
        Stage::Dating => 4,
        Stage::Reading { .. } => 3,
        Stage::Judging { .. } => 2,
        Stage::Writing { .. } => 1,
        _ => 0,
    }
}

/// A single attempt ends after four answers at the latest, without ever snoozing.
pub proof fn law_single_attempt_ends<L: Lockable>(
    lockable: L,
    stage: Stage<L::Instant, Seq<u8>>,
    reply: Reply<L::Instant, Seq<u8>>,
    next: Stage<L::Instant, Seq<u8>>,
)
    requires
        answers_left(stage) > 0,
        fits(lockable, stage, reply),
        moves(lockable, false, stage, reply, next),
    ensures
        answers_left(next) < answers_left(stage),
        answers_left(next) == 0 ==> next is Granted || next is Refused,
{
}

/// How many answers a snooze at `stage` still takes.
pub open spec fn snooze_left<I>(stage: Stage<I, Seq<u8>>) -> nat {
    match stage {
        Stage::Redating => 3,
        Stage::Dozing { .. } => 2,
        Stage::Sleeping { .. } => 1,
        _ => 0,
    }
}

/// A failed attempt of an acquisition that waits for the lock is followed by another
/// one, after three answers at the latest.
pub proof fn law_snooze_ends_in_another_attempt<L: Lockable>(
    lockable: L,
    held: Option<L::Instant>,
    stage: Stage<L::Instant, Seq<u8>>,
    reply: Reply<L::Instant, Seq<u8>>,
    next: Stage<L::Instant, Seq<u8>>,
)
    requires
        snooze_left(stage) > 0,
        fits(lockable, stage, reply),
        moves(lockable, true, stage, reply, next),
    ensures
        snooze_left(after_failure(true, held)) > 0,
        snooze_left(next) < snooze_left(stage),
        snooze_left(next) == 0 ==> next is Dating,
{
}

/// A lock by time is stale from the first millisecond after the one that is the
/// expiration duration after its locking, and not before.
pub proof fn law_time_lock_window(time: Time, locked: Timestamp, current: Timestamp)
    ensures
        Time::expired_at(time.deadline_at(locked), current) == (current.unix_millis
            > locked.unix_millis + time.expiration_duration.millis),
{
}

/// A lock by block and time is stale once its number of blocks or its time has passed
/// since its locking, whichever comes first, and not before.
pub proof fn law_block_and_time_lock_window<B: BlockNumberProvider>(
    lockable: BlockAndTime<B>,
    locked: BlockAndTimeInstant<B>,
    current: BlockAndTimeInstant<B>,
)
    requires
        lockable.datable(locked),
    ensures
        BlockAndTime::<B>::expired_at(lockable.deadline_at(locked), current) == {
            ||| current.timestamp.unix_millis > locked.timestamp.unix_millis
                + lockable.expiration_duration.millis
            ||| current.block_number.number() > locked.block_number.number()
                + lockable.expiration_block_number_offset
        },
{
    locked.block_number.lemma_advanced(lockable.expiration_block_number_offset);
}

/// A snooze lasts no longer than the time between two attempts. While the deadline is
/// ahead it takes some time, and ends by the deadline.
pub proof fn law_snooze_is_short(deadline: Timestamp, now: Timestamp)
    ensures
        now.unix_millis <= wake_by(deadline, now).unix_millis <= now.unix_millis
            + STORAGE_LOCK_PER_CHECK_ITERATION_SNOOZE,
        now.unix_millis < deadline.unix_millis ==> now.unix_millis < wake_by(
            deadline,
            now,
        ).unix_millis <= deadline.unix_millis,
{
}

/// The default snooze lasts for a tenth of a second, whatever the deadline: by any two
/// deadlines it ends at the same time.
pub fn law_default_snooze_ignores_deadline<L: Lockable>(
    one: &L::Instant,
    two: &L::Instant,
    now: Timestamp,
) -> (wakes: (Timestamp, Timestamp))
    ensures
        wakes.0 == later(now, STORAGE_LOCK_PER_CHECK_ITERATION_SNOOZE as nat),
        wakes.1 == wakes.0,
        wakes.0.unix_millis == capped_sum(now.unix_millis as int, 100),
{
    (Steady::<L>::snooze(one, now), Steady::<L>::snooze(two, now))
}

} // verus!
