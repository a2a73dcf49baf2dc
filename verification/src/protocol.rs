//! How a lock is acquired, as a dialogue with the host that keeps the storage.
//!
//! An acquisition is at a stage, at which it asks one thing of the host; the host's
//! answer moves it on to the next stage.
use vstd::prelude::*;
use crate::codec::Codec;
use crate::lockable::Lockable;
use crate::time::Timestamp;

verus! {

/// What is asked of the host. `D` is how bytes are held.
pub enum Request<D> {
    /// The current instant.
    Current,
    /// The current point in time.
    Now,
    /// What the storage entry of the lock holds.
    Get,
    /// To let the entry hold `new` if, at that moment, it holds `old`.
    CompareAndSet { old: Option<D>, new: D },
    /// To let time pass until `wake`.
    SleepUntil { wake: Timestamp },
}

/// What the host answers. `I` is the instant type, `D` is how bytes are held.
pub enum Reply<I, D> {
    /// The current instant.
    Current(I),
    /// The current point in time.
    Now(Timestamp),
    /// What the entry holds, if there is one.
    Entry(Option<D>),
    /// Whether the entry now holds the new value.
    Written(bool),
    /// The time has passed.
    Awake,
}

/// How far an acquisition has come. `I` is the instant type, `D` is how bytes are
/// held.
pub enum Stage<I, D> {
    /// The attempt begins: it needs the instant to count its deadline from.
    Dating,
    /// It knows the deadline to lock with, and needs the entry.
    Reading { deadline: I },
    /// The entry holds the deadline of another lock: it needs the instant to judge
    /// that by.
    Judging { deadline: I, entry: D, held_until: I },
    /// The lock is free: it needs the entry replaced.
    Writing { deadline: I, seen: Option<D> },
    /// Another one was quicker: it needs the instant to count a deadline from, by
    /// which to snooze.
    Redating,
    /// It is to snooze by the deadline, and needs the point in time.
    Dozing { held_until: I },
    /// It snoozes.
    Sleeping { wake: Timestamp },
    /// The lock is acquired, and held until the deadline.
    Granted { deadline: I },
    /// The lock is not acquired.
    Refused,
}

impl<D> View for Request<D> where D: View {
    type V = Request<D::V>;

    open spec fn view(&self) -> Request<D::V> {
        match *self {
            Request::Current => Request::Current,
            Request::Now => Request::Now,
            Request::Get => Request::Get,
            Request::CompareAndSet { old, new } => Request::CompareAndSet {
                old: bytes_of(old),
                new: new@,
            },
            Request::SleepUntil { wake } => Request::SleepUntil { wake },
        }
    }
}

impl<I, D> View for Reply<I, D> where D: View {
    type V = Reply<I, D::V>;

    open spec fn view(&self) -> Reply<I, D::V> {
        match *self {
            Reply::Current(current) => Reply::Current(current),
            Reply::Now(now) => Reply::Now(now),
            Reply::Entry(entry) => Reply::Entry(bytes_of(entry)),
            Reply::Written(written) => Reply::Written(written),
            Reply::Awake => Reply::Awake,
        }
    }
}

impl<I, D> View for Stage<I, D> where D: View {
    type V = Stage<I, D::V>;

    open spec fn view(&self) -> Stage<I, D::V> {
        match *self {
            Stage::Dating => Stage::Dating,
            Stage::Reading { deadline } => Stage::Reading { deadline },
            Stage::Judging { deadline, entry, held_until } => Stage::Judging {
                deadline,
                entry: entry@,
                held_until,
            },
            Stage::Writing { deadline, seen } => Stage::Writing {
                deadline,
                seen: bytes_of(seen),
            },
            Stage::Redating => Stage::Redating,
            Stage::Dozing { held_until } => Stage::Dozing { held_until },
            Stage::Sleeping { wake } => Stage::Sleeping { wake },
            Stage::Granted { deadline } => Stage::Granted { deadline },
            Stage::Refused => Stage::Refused,
        }
    }
}

/// What is held, if anything, seen as bytes.
pub open spec fn bytes_of<D: View>(held: Option<D>) -> Option<D::V> {
    match held {
        Some(data) => Some(data@),
        None => None,
    }
}

/// The deadline that an entry holds; none if there is no entry or if its bytes do
/// not spell one.
pub open spec fn held_until<I: Codec>(entry: Option<Seq<u8>>) -> Option<I> {
    match entry {
        Some(bytes) => match I::decoded(bytes) {
            Some((deadline, _)) => Some(deadline),
            None => None,
        },
        None => None,
    }
}

/// What an acquisition asks for at `stage`.
pub open spec fn request_at<I: Codec>(stage: Stage<I, Seq<u8>>) -> Option<Request<Seq<u8>>> {
    match stage {
        Stage::Dating => Some(Request::Current),
        Stage::Reading { .. } => Some(Request::Get),
        Stage::Judging { .. } => Some(Request::Current),
        Stage::Writing { deadline, seen } => Some(
            Request::CompareAndSet { old: seen, new: deadline.encoded() },
        ),
        Stage::Redating => Some(Request::Current),
        Stage::Dozing { .. } => Some(Request::Now),
        Stage::Sleeping { wake } => Some(Request::SleepUntil { wake }),
        Stage::Granted { .. } => None,
        Stage::Refused => None,
    }
}

/// Whether `reply` is an answer to `request`.
pub open spec fn answers<I, D>(request: Request<D>, reply: Reply<I, D>) -> bool {
    match request {
        Request::Current => reply is Current,
        Request::Now => reply is Now,
        Request::Get => reply is Entry,
        Request::CompareAndSet { .. } => reply is Written,
        Request::SleepUntil { .. } => reply is Awake,
    }
}

/// Whether an acquisition of `lockable` at `stage` can go on with `reply`: it is an
/// answer to what was asked and, where a deadline is to be set at the instant, one
/// can be.
pub open spec fn fits<L: Lockable>(
    lockable: L,
    stage: Stage<L::Instant, Seq<u8>>,
    reply: Reply<L::Instant, Seq<u8>>,
) -> bool {
    &&& request_at(stage) matches Some(request) && answers(request, reply)
    &&& (stage is Dating || stage is Redating) ==> (reply matches Reply::Current(current)
        && lockable.datable(current))
}

/// The stage after an attempt that failed, where `held` is the deadline of the lock
/// in the way, if it is known. A patient acquisition goes on trying.
pub open spec fn after_failure<I>(patient: bool, held: Option<I>) -> Stage<I, Seq<u8>> {
    if !patient {
        Stage::Refused
    } else {
        match held {
            Some(held_until) => Stage::Dozing { held_until },
            None => Stage::Redating,
        }
    }
}

/// The stage to which `reply` moves an acquisition of `lockable` on from `stage`,
/// where that is not for the lockable to say.
pub open spec fn next_stage<L: Lockable>(
    lockable: L,
    patient: bool,
    stage: Stage<L::Instant, Seq<u8>>,
    reply: Reply<L::Instant, Seq<u8>>,
) -> Stage<L::Instant, Seq<u8>> {
    match (stage, reply) {
        (Stage::Dating, Reply::Current(current)) => Stage::Reading {
            deadline: lockable.deadline_at(current),
        },
        (Stage::Reading { deadline }, Reply::Entry(entry)) => match held_until(entry) {
            Some(held_until) => Stage::Judging { deadline, entry: entry->0, held_until },
            None => Stage::Writing { deadline, seen: entry },
        },
        (Stage::Judging { deadline, entry, held_until }, Reply::Current(current)) => {
            if L::expired_at(held_until, current) {
                Stage::Writing { deadline, seen: Some(entry) }
            } else {
                after_failure(patient, Some(held_until))
            }
        },
        (Stage::Writing { deadline, .. }, Reply::Written(written)) => {
            if written {
                Stage::Granted { deadline }
            } else {
                after_failure(patient, None)
            }
        },
        (Stage::Redating, Reply::Current(current)) => Stage::Dozing {
            held_until: lockable.deadline_at(current),
        },
        (Stage::Sleeping { .. }, Reply::Awake) => Stage::Dating,
        _ => stage,
    }
}

/// Whether `reply` moves an acquisition of `lockable` on from `stage` to `next`.
///
/// How long to sleep is for the lockable to say; all else is `next_stage`.
pub open spec fn moves<L: Lockable>(
    lockable: L,
    patient: bool,
    stage: Stage<L::Instant, Seq<u8>>,
    reply: Reply<L::Instant, Seq<u8>>,
    next: Stage<L::Instant, Seq<u8>>,
) -> bool {
    match (stage, reply) {
        (Stage::Dozing { held_until }, Reply::Now(now)) => next matches Stage::Sleeping { wake }
            && call_ensures(L::snooze, (&held_until, now), wake),
        _ => next == next_stage(lockable, patient, stage, reply),
    }
}

} // verus!
