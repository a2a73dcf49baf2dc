//! The storage lock.
use vstd::prelude::*;
use crate::block::BlockNumberProvider;
use crate::codec::Codec;
use crate::lockable::{BlockAndTime, Lockable, Time};
use crate::protocol::{
    after_failure, bytes_of, fits, held_until, moves, request_at, Reply, Request, Stage,
};
use crate::time::Duration;

verus! {

/// The kinds of storage that a host keeps.
#[derive(Clone, Copy, PartialEq, Eq, Structural, Debug)]
pub enum StorageKind {
    /// Kept across re-orgs and restarts of the node.
    Persistent,
    /// Taken back when the block that wrote it is.
    Local,
}

/// A reference to a storage entry.
#[derive(Clone, Copy)]
pub struct StorageValueRef<'a> {
    pub key: &'a [u8],
    pub kind: StorageKind,
}

impl<'a> StorageValueRef<'a> {
    /// The entry `key` of the persistent storage.
    pub fn persistent(key: &'a [u8]) -> (value_ref: Self)
        ensures
            value_ref.key == key,
            value_ref.kind == StorageKind::Persistent,
    {
        StorageValueRef { key, kind: StorageKind::Persistent }
    }
}

/// Storage based lock.
///
/// A lock that is persisted in the DB and provides a mutex behavior
/// with a defined safety expiry deadline based on a [`Lockable`]
/// implementation.
pub struct StorageLock<'a, L = Time> {
    // A storage value ref which defines the DB entry representing the lock.
    value_ref: StorageValueRef<'a>,
    lockable: L,
}

impl<'a, L> StorageLock<'a, L> {
    /// The storage entry that represents the lock.
    pub closed spec fn value_ref(&self) -> StorageValueRef<'a> {
        self.value_ref
    }

    /// What the lock goes by to tell when it is stale.
    pub closed spec fn lockable(&self) -> L {
        self.lockable
    }

    /// The entry outlives re-orgs and restarts of the node.
    #[verifier::type_invariant]
    closed spec fn persists(self) -> bool {
        self.value_ref.kind == StorageKind::Persistent
    }
}

impl<'a, L: Lockable + Default> StorageLock<'a, L> {
    /// Create a new storage lock with a `default()` instance of type `L`.
    pub fn new(key: &'a [u8]) -> (lock: Self)
        ensures
            lock.value_ref().key == key,
            lock.value_ref().kind == StorageKind::Persistent,
            call_ensures(L::default, (), lock.lockable()),
    {
        Self::with_lockable(key, L::default())
    }
}

impl<'a, L: Lockable> StorageLock<'a, L> {
    /// Create a new storage lock with an explicit instance of a lockable `L`.
    pub fn with_lockable(key: &'a [u8], lockable: L) -> (lock: Self)
        ensures
            lock.value_ref().key == key,
            lock.value_ref().kind == StorageKind::Persistent,
            lock.lockable() == lockable,
    {
        StorageLock { value_ref: StorageValueRef::persistent(key), lockable }
    }

    /// Attempt to lock the storage entry.
    ///
    /// The acquisition ends with a lock guard on success, and refused if the lock is
    /// still held or if another one locked the entry in the meantime.
    pub fn try_lock<'b>(&'b mut self) -> (acquisition: Acquisition<'a, 'b, L>)
        ensures
            *final(self) == *old(self),
            acquisition.lock() == *old(self),
            !acquisition.patient(),
            acquisition.stage() is Dating,
    {
        Acquisition { lock: self, patient: false, stage: Stage::Dating }
    }

    /// Try grabbing the lock until it is had, with a snooze between two attempts.
    ///
    /// The acquisition ends with a lock guard.
    pub fn lock<'b>(&'b mut self) -> (acquisition: Acquisition<'a, 'b, L>)
        ensures
            *final(self) == *old(self),
            acquisition.lock() == *old(self),
            acquisition.patient(),
            acquisition.stage() is Dating,
    {
        Acquisition { lock: self, patient: true, stage: Stage::Dating }
    }

    /// The entry that has to be cleared for the lock to be unlocked.
    fn unlock(&self) -> (value_ref: StorageValueRef<'a>)
        ensures
            value_ref == self.value_ref(),
            value_ref.kind == StorageKind::Persistent,
    {
        proof {
            use_type_invariant(self);
        }
        self.value_ref
    }
}

/// Allows explicitly setting the timeout on construction
/// instead of using the implicit default timeout.
impl<'a> StorageLock<'a, Time> {
    pub fn with_deadline(key: &'a [u8], expiration_duration: Duration) -> (lock: Self)
        ensures
            lock.value_ref().key == key,
            lock.value_ref().kind == StorageKind::Persistent,
            lock.lockable().expiration_duration == expiration_duration,
    {
        Self::with_lockable(key, Time { expiration_duration })
    }
}

impl<'a, B> StorageLock<'a, BlockAndTime<B>> where B: BlockNumberProvider {
    pub fn with_block_and_time_deadline(
        key: &'a [u8],
        expiration_block_number_offset: u32,
        expiration_duration: Duration,
    ) -> (lock: Self)
        ensures
            lock.value_ref().key == key,
            lock.value_ref().kind == StorageKind::Persistent,
            lock.lockable().expiration_block_number_offset == expiration_block_number_offset,
            lock.lockable().expiration_duration == expiration_duration,
    {
        Self::with_lockable(
            key,
            BlockAndTime::new(expiration_block_number_offset, expiration_duration),
        )
    }
}

/// An acquisition of a lock that is under way.
///
/// It waits for the answer to its [`request`](Acquisition::request), with which it
/// is to [`step`](Acquisition::step) on.
pub struct Acquisition<'a, 'b, L: Lockable> {
    lock: &'b StorageLock<'a, L>,
    patient: bool,
    stage: Stage<L::Instant, Vec<u8>>,
}

/// What has become of an acquisition.
pub enum Progress<'a, 'b, L: Lockable> {
    /// It is still under way.
    Pending(Acquisition<'a, 'b, L>),
    /// The lock is acquired.
    Granted(StorageLockGuard<'a, 'b, L>),
    /// The lock is not acquired.
    Refused,
}

impl<'a, 'b, L: Lockable> Acquisition<'a, 'b, L> {
    /// The lock that is to be acquired.
    pub closed spec fn lock(&self) -> StorageLock<'a, L> {
        *self.lock
    }

    /// Whether failed attempts are followed by others.
    pub closed spec fn patient(&self) -> bool {
        self.patient
    }

    /// How far it has come.
    pub closed spec fn stage(&self) -> Stage<L::Instant, Seq<u8>> {
        self.stage@
    }

    /// It waits for an answer.
    #[verifier::type_invariant]
    closed spec fn waits(self) -> bool {
        request_at(self.stage@) is Some
    }

    /// The storage entry that requests to the storage are about.
    pub fn value_ref(&self) -> (value_ref: StorageValueRef<'a>)
        ensures
            value_ref == self.lock().value_ref(),
            value_ref.kind == StorageKind::Persistent,
    {
        proof {
            use_type_invariant(self.lock);
        }
        self.lock.value_ref
    }

    /// What is asked of the host.
    pub fn request(&self) -> (request: Request<Vec<u8>>)
        ensures
            request_at(self.stage()) == Some(request@),
    {
        proof {
            use_type_invariant(self);
        }
        match &self.stage {
            Stage::Reading { .. } => Request::Get,
            Stage::Writing { deadline, seen } => {
                let old = match seen {
                    Some(bytes) => {
                        let copy = bytes.clone();
                        assert(copy@ =~= bytes@);
                        Some(copy)
                    },
                    None => None,
                };
                Request::CompareAndSet { old, new: deadline.encode() }
            },
            Stage::Dozing { .. } => Request::Now,
            Stage::Sleeping { wake } => Request::SleepUntil { wake: *wake },
            _ => Request::Current,
        }
    }

    /// Whether the acquisition can go on with `reply`.
    pub fn accepts(&self, reply: &Reply<L::Instant, Vec<u8>>) -> (accepts: bool)
        ensures
            accepts == fits(self.lock().lockable(), self.stage(), reply@),
    {
        match (&self.stage, reply) {
            (Stage::Dating, Reply::Current(current)) => self.lock.lockable.can_date(current),
            (Stage::Reading { .. }, Reply::Entry(_)) => true,
            (Stage::Judging { .. }, Reply::Current(_)) => true,
            (Stage::Writing { .. }, Reply::Written(_)) => true,
            (Stage::Redating, Reply::Current(current)) => self.lock.lockable.can_date(current),
            (Stage::Dozing { .. }, Reply::Now(_)) => true,
            (Stage::Sleeping { .. }, Reply::Awake) => true,
            _ => false,
        }
    }

    /// The stage after a failed attempt, where `held` is the deadline of the lock in
    /// the way, if it is known.
    fn fail(patient: bool, held: Option<L::Instant>) -> (stage: Stage<L::Instant, Vec<u8>>)
        ensures
            stage@ == after_failure(patient, held),
    {
        if !patient {
            return Stage::Refused;
        }
        match held {
            Some(held_until) => Stage::Dozing { held_until },
            // use the default
            None => Stage::Redating,
        }
    }

    /// The stage after the entry is read, where `deadline` is the one to lock with.
    fn examine(deadline: L::Instant, entry: Option<Vec<u8>>) -> (stage: Stage<
        L::Instant,
        Vec<u8>,
    >)
        ensures
            stage@ == (match held_until::<L::Instant>(bytes_of(entry)) {
                Some(held_until) => Stage::<L::Instant, Seq<u8>>::Judging {
                    deadline,
                    entry: entry->0@,
                    held_until,
                },
                None => Stage::<L::Instant, Seq<u8>>::Writing { deadline, seen: bytes_of(entry) },
            }),
    {
        match entry {
            // no lock set, we can safely acquire it
            None => Stage::Writing { deadline, seen: None },
            Some(bytes) => match L::Instant::decode(bytes.as_slice()) {
                // there is an entry, but no deadline can be read from it
                None => Stage::Writing { deadline, seen: Some(bytes) },
                Some((held_until, _)) => Stage::Judging { deadline, entry: bytes, held_until },
            },
        }
    }

    /// The stage after `reply`.
    fn next(
        lockable: &L,
        patient: bool,
        stage: Stage<L::Instant, Vec<u8>>,
        reply: Reply<L::Instant, Vec<u8>>,
    ) -> (next: Stage<L::Instant, Vec<u8>>)
        requires
            fits(*lockable, stage@, reply@),
        ensures
            moves(*lockable, patient, stage@, reply@, next@),
    {
        match (stage, reply) {
            (Stage::Dating, Reply::Current(current)) => Stage::Reading {
                deadline: lockable.deadline(current),
            },
            (Stage::Reading { deadline }, Reply::Entry(entry)) => Self::examine(deadline, entry),
            (Stage::Judging { deadline, entry, held_until }, Reply::Current(current)) => {
                if L::expired(&held_until, &current) {
                    // lock is set, but it's old. We can re-acquire it.
                    Stage::Writing { deadline, seen: Some(entry) }
                } else {
                    // lock is present and is still active
                    Self::fail(patient, Some(held_until))
                }
            },
            (Stage::Writing { deadline, .. }, Reply::Written(written)) => {
                if written {
                    Stage::Granted { deadline }
                } else {
                    Self::fail(patient, None)
                }
            },
            (Stage::Redating, Reply::Current(current)) => Stage::Dozing {
                held_until: lockable.deadline(current),
            },
            (Stage::Dozing { held_until }, Reply::Now(now)) => Stage::Sleeping {
                wake: L::snooze(&held_until, now),
            },
            (Stage::Sleeping { .. }, Reply::Awake) => Stage::Dating,
            (stage, _) => stage,
        }
    }

    /// Goes on with the answer to what was asked.
    pub fn step(self, reply: Reply<L::Instant, Vec<u8>>) -> (progress: Progress<'a, 'b, L>)
        requires
            fits(self.lock().lockable(), self.stage(), reply@),
        ensures
            match progress {
                Progress::Pending(next) => {
                    &&& next.lock() == self.lock()
                    &&& next.patient() == self.patient()
                    &&& request_at(next.stage()) is Some
                    &&& moves(
                        self.lock().lockable(),
                        self.patient(),
                        self.stage(),
                        reply@,
                        next.stage(),
                    )
                },
                Progress::Granted(guard) => {
                    &&& guard.lock() == Some(self.lock())
                    &&& self.stage() matches Stage::Writing { deadline, .. }
                    &&& moves(
                        self.lock().lockable(),
                        self.patient(),
                        self.stage(),
                        reply@,
                        Stage::Granted { deadline },
                    )
                },
                Progress::Refused => moves(
                    self.lock().lockable(),
                    self.patient(),
                    self.stage(),
                    reply@,
                    Stage::Refused,
                ),
            },
    {
        let Acquisition { lock, patient, stage } = self;
        match Self::next(&lock.lockable, patient, stage, reply) {
            Stage::Granted { .. } => Progress::Granted(StorageLockGuard { lock: Some(lock) }),
            Stage::Refused => Progress::Refused,
            next => Progress::Pending(Acquisition { lock, patient, stage: next }),
        }
    }
}

/// Guard for a lock.
///
/// Once it is done with, the entry that [`close`](StorageLockGuard::close) names has
/// to be cleared.
pub struct StorageLockGuard<'a, 'b, L: Lockable> {
    lock: Option<&'b StorageLock<'a, L>>,
}

impl<'a, 'b, L: Lockable> StorageLockGuard<'a, 'b, L> {
    /// The lock that the guard stands for, unless it was let go of.
    pub closed spec fn lock(&self) -> Option<StorageLock<'a, L>> {
        match self.lock {
            Some(lock) => Some(*lock),
            None => None,
        }
    }

    /// Let go of the lock but DO NOT unlock it.
    ///
    /// Can be used to implement a grace period after doing some
    /// heavy computations and sending a transaction to be included
    /// on-chain. By forgetting the lock, it will stay locked until
    /// its expiration deadline is reached while the off-chain worker
    /// can already complete.
    pub fn forget(&mut self)
        ensures
            final(self).lock() is None,
    {
        let _ = self.lock.take();
    }

    /// Let go of the lock and unlock it: the entry that has to be cleared for that,
    /// unless the guard has let go of the lock before.
    pub fn close(&mut self) -> (value_ref: Option<StorageValueRef<'a>>)
        ensures
            final(self).lock() is None,
            match old(self).lock() {
                Some(lock) => value_ref == Some(lock.value_ref()) && lock.value_ref().kind
                    == StorageKind::Persistent,
                None => value_ref is None,
            },
    {
        match self.lock.take() {
            Some(lock) => Some(lock.unlock()),
            None => None,
        }
    }
}

} // verus!
