use storage_lock::block::BlockNumberProvider;
use storage_lock::codec::Codec;
use storage_lock::lock::{
    Acquisition, Progress, StorageKind, StorageLock, StorageLockGuard, StorageValueRef,
};
use storage_lock::lockable::{BlockAndTime, BlockAndTimeInstant, Lockable, Time};
use storage_lock::protocol::{Reply, Request};
use storage_lock::time::{Duration, Timestamp};

fn at(unix_millis: u64) -> Timestamp {
    Timestamp::from_unix_millis(unix_millis)
}

fn deadline(unix_millis: u64) -> Vec<u8> {
    at(unix_millis).encode()
}

fn pending<'a, 'b, L: Lockable>(progress: Progress<'a, 'b, L>) -> Acquisition<'a, 'b, L> {
    match progress {
        Progress::Pending(next) => next,
        Progress::Granted(_) => panic!("granted"),
        Progress::Refused => panic!("refused"),
    }
}

fn granted<'a, 'b, L: Lockable>(progress: Progress<'a, 'b, L>) -> StorageLockGuard<'a, 'b, L> {
    match progress {
        Progress::Granted(guard) => guard,
        _ => panic!("not granted"),
    }
}

/// A storage entry and a clock that a test sets by hand.
struct Host {
    entry: Option<Vec<u8>>,
    now: u64,
}

impl Host {
    /// Does one thing that the acquisition asks for.
    fn serve<'a, 'b>(
        &mut self,
        acquisition: Acquisition<'a, 'b, Time>,
    ) -> Progress<'a, 'b, Time> {
        let reply = match acquisition.request() {
            Request::Current => Reply::Current(Time::current(at(self.now))),
            Request::Now => Reply::Now(at(self.now)),
            Request::Get => Reply::Entry(self.entry.clone()),
            Request::CompareAndSet { old, new } => {
                let set = self.entry == old;
                if set {
                    self.entry = Some(new);
                }
                Reply::Written(set)
            }
            Request::SleepUntil { wake } => {
                self.now = wake.unix_millis;
                Reply::Awake
            }
        };
        assert!(acquisition.accepts(&reply));
        acquisition.step(reply)
    }

    /// Makes a single attempt at the lock.
    fn attempt<'a, 'b>(
        &mut self,
        lock: &'b mut StorageLock<'a, Time>,
    ) -> Option<StorageLockGuard<'a, 'b, Time>> {
        let mut acquisition = lock.try_lock();
        loop {
            match self.serve(acquisition) {
                Progress::Pending(next) => acquisition = next,
                Progress::Granted(guard) => return Some(guard),
                Progress::Refused => return None,
            }
        }
    }

    fn clear(&mut self, value_ref: Option<StorageValueRef<'_>>) {
        if value_ref.is_some() {
            self.entry = None;
        }
    }
}

#[test]
fn attempt_asks_in_order() {
    let mut lock = StorageLock::with_deadline(b"lock", Duration::from_millis(200));
    let acquisition = lock.try_lock();
    assert_eq!(acquisition.value_ref().key, &b"lock"[..]);
    assert_eq!(acquisition.value_ref().kind, StorageKind::Persistent);
    assert!(matches!(acquisition.request(), Request::Current));
    let acquisition = pending(acquisition.step(Reply::Current(at(1_000))));
    assert!(matches!(acquisition.request(), Request::Get));
    let acquisition = pending(acquisition.step(Reply::Entry(Some(deadline(1_100)))));
    assert!(matches!(acquisition.request(), Request::Current));
    let acquisition = pending(acquisition.step(Reply::Current(at(1_101))));
    match acquisition.request() {
        Request::CompareAndSet { old, new } => {
            assert_eq!(old, Some(deadline(1_100)));
            assert_eq!(new, deadline(1_200));
        }
        _ => panic!("no write"),
    }
    let mut guard = granted(acquisition.step(Reply::Written(true)));
    let value_ref = guard.close().unwrap();
    assert_eq!(value_ref.key, &b"lock"[..]);
    assert_eq!(value_ref.kind, StorageKind::Persistent);
    assert!(guard.close().is_none());
}

#[test]
fn entry_without_deadline_is_overwritten() {
    let mut lock = StorageLock::<Time>::new(b"lock");
    let acquisition = pending(lock.try_lock().step(Reply::Current(at(1_000))));
    let acquisition = pending(acquisition.step(Reply::Entry(Some(vec![1, 2, 3]))));
    match acquisition.request() {
        Request::CompareAndSet { old, new } => {
            assert_eq!(old, Some(vec![1, 2, 3]));
            assert_eq!(new, deadline(31_000));
        }
        _ => panic!("no write"),
    }
}

#[test]
fn trailing_bytes_do_not_free_a_lock() {
    let mut lock = StorageLock::<Time>::new(b"lock");
    let mut entry = deadline(5_000);
    entry.push(1);
    let acquisition = pending(lock.try_lock().step(Reply::Current(at(1_000))));
    let acquisition = pending(acquisition.step(Reply::Entry(Some(entry))));
    assert!(matches!(acquisition.request(), Request::Current));
    assert!(matches!(
        acquisition.step(Reply::Current(at(5_000))),
        Progress::Refused
    ));
}

#[test]
fn lost_race_is_refused() {
    let mut lock = StorageLock::<Time>::new(b"lock");
    let acquisition = pending(lock.try_lock().step(Reply::Current(at(1_000))));
    let acquisition = pending(acquisition.step(Reply::Entry(None)));
    assert!(matches!(
        acquisition.step(Reply::Written(false)),
        Progress::Refused
    ));
}

#[test]
fn waiting_snoozes_by_the_deadline_in_the_way() {
    let mut lock = StorageLock::<Time>::new(b"lock");
    let acquisition = pending(lock.lock().step(Reply::Current(at(1_000))));
    let acquisition = pending(acquisition.step(Reply::Entry(Some(deadline(5_000)))));
    let acquisition = pending(acquisition.step(Reply::Current(at(1_010))));
    assert!(matches!(acquisition.request(), Request::Now));
    let acquisition = pending(acquisition.step(Reply::Now(at(1_020))));
    match acquisition.request() {
        Request::SleepUntil { wake } => assert_eq!(wake, at(1_120)),
        _ => panic!("no snooze"),
    }
    let acquisition = pending(acquisition.step(Reply::Awake));
    assert!(matches!(acquisition.request(), Request::Current));
    let acquisition = pending(acquisition.step(Reply::Current(at(1_120))));
    let acquisition = pending(acquisition.step(Reply::Entry(None)));
    match acquisition.request() {
        Request::CompareAndSet { old, new } => {
            assert_eq!(old, None);
            assert_eq!(new, deadline(31_120));
        }
        _ => panic!("no write"),
    }
    granted(acquisition.step(Reply::Written(true)));
}

#[test]
fn waiting_after_a_lost_race_snoozes_by_a_deadline_of_its_own() {
    let mut lock = StorageLock::with_deadline(b"lock", Duration::from_millis(10));
    let acquisition = pending(lock.lock().step(Reply::Current(at(1_000))));
    let acquisition = pending(acquisition.step(Reply::Entry(None)));
    let acquisition = pending(acquisition.step(Reply::Written(false)));
    assert!(matches!(acquisition.request(), Request::Current));
    let acquisition = pending(acquisition.step(Reply::Current(at(2_000))));
    assert!(matches!(acquisition.request(), Request::Now));
    let acquisition = pending(acquisition.step(Reply::Now(at(2_003))));
    match acquisition.request() {
        Request::SleepUntil { wake } => assert_eq!(wake, at(2_010)),
        _ => panic!("no snooze"),
    }
}

#[test]
fn only_answers_are_accepted() {
    let mut lock = StorageLock::<Time>::new(b"lock");
    let acquisition = lock.try_lock();
    assert!(acquisition.accepts(&Reply::Current(at(0))));
    assert!(!acquisition.accepts(&Reply::Now(at(0))));
    assert!(!acquisition.accepts(&Reply::Entry(None)));
    assert!(!acquisition.accepts(&Reply::Written(true)));
    assert!(!acquisition.accepts(&Reply::Awake));
    let acquisition = pending(acquisition.step(Reply::Current(at(0))));
    assert!(acquisition.accepts(&Reply::Entry(None)));
    assert!(!acquisition.accepts(&Reply::Current(at(0))));
    let acquisition = pending(acquisition.step(Reply::Entry(None)));
    assert!(acquisition.accepts(&Reply::Written(false)));
    assert!(!acquisition.accepts(&Reply::Entry(None)));
}

#[test]
fn second_lock_is_refused_until_the_first_is_unlocked() {
    let mut host = Host { entry: None, now: 1_000 };
    let mut first = StorageLock::<Time>::new(b"lock");
    let mut second = StorageLock::<Time>::new(b"lock");
    let mut guard = host.attempt(&mut first).unwrap();
    assert_eq!(host.entry, Some(deadline(31_000)));
    host.now = 31_000;
    assert!(host.attempt(&mut second).is_none());
    assert_eq!(host.entry, Some(deadline(31_000)));
    host.clear(guard.close());
    assert_eq!(host.entry, None);
    assert!(host.attempt(&mut second).is_some());
    assert_eq!(host.entry, Some(deadline(61_000)));
}

#[test]
fn forgotten_lock_stays_locked_until_it_expires() {
    let mut host = Host { entry: None, now: 1_000 };
    let mut first = StorageLock::with_deadline(b"lock", Duration::from_millis(200));
    let mut second = StorageLock::<Time>::new(b"lock");
    let mut guard = host.attempt(&mut first).unwrap();
    guard.forget();
    host.clear(guard.close());
    assert_eq!(host.entry, Some(deadline(1_200)));
    host.now = 1_200;
    assert!(host.attempt(&mut second).is_none());
    host.now = 1_201;
    assert!(host.attempt(&mut second).is_some());
    assert_eq!(host.entry, Some(deadline(31_201)));
}

#[test]
fn deadline_is_counted_from_the_attempt() {
    let mut host = Host { entry: None, now: 1_000 };
    let mut lock = StorageLock::with_deadline(b"lock", Duration::from_millis(200));
    let mut guard = host.attempt(&mut lock).unwrap();
    host.clear(guard.close());
    host.now = 9_000;
    let _guard = host.attempt(&mut lock).unwrap();
    assert_eq!(host.entry, Some(deadline(9_200)));
}

#[test]
fn one_of_two_that_saw_the_same_entry_wins() {
    let mut host = Host { entry: Some(deadline(10)), now: 1_000 };
    let mut first = StorageLock::with_deadline(b"lock", Duration::from_millis(200));
    let mut second = StorageLock::with_deadline(b"lock", Duration::from_millis(300));
    let mut one = first.try_lock();
    let mut two = second.try_lock();
    // both see the stale lock, and are about to replace it
    for _ in 0..3 {
        one = pending(host.serve(one));
        two = pending(host.serve(two));
    }
    assert!(matches!(host.serve(two), Progress::Granted(_)));
    assert!(matches!(host.serve(one), Progress::Refused));
    assert_eq!(host.entry, Some(deadline(1_300)));
}

#[test]
fn waiting_ends_once_the_lock_expires() {
    let mut host = Host { entry: Some(deadline(1_250)), now: 1_000 };
    let mut lock = StorageLock::<Time>::new(b"lock");
    let mut acquisition = lock.lock();
    let mut sleeps = vec![];
    loop {
        if let Request::SleepUntil { wake } = acquisition.request() {
            sleeps.push(wake.unix_millis);
        }
        match host.serve(acquisition) {
            Progress::Pending(next) => acquisition = next,
            Progress::Granted(_) => break,
            Progress::Refused => panic!("refused"),
        }
        if host.now == 1_250 {
            host.now += 1;
        }
    }
    assert_eq!(sleeps, vec![1_100, 1_200, 1_250]);
    assert_eq!(host.entry, Some(deadline(31_251)));
}

struct Chain;

impl BlockNumberProvider for Chain {
    type BlockNumber = u64;

    fn current_block_number() -> u64 {
        u64::MAX - 1
    }
}

fn instant(block_number: u64, unix_millis: u64) -> BlockAndTimeInstant<Chain> {
    BlockAndTimeInstant {
        block_number,
        timestamp: at(unix_millis),
    }
}

#[test]
fn lock_by_block_and_time() {
    let mut lock = StorageLock::<BlockAndTime<Chain>>::with_block_and_time_deadline(
        b"lock",
        2,
        Duration::from_millis(200),
    );
    let acquisition = lock.try_lock();
    assert_eq!(acquisition.value_ref().key, &b"lock"[..]);
    assert_eq!(acquisition.value_ref().kind, StorageKind::Persistent);
    let acquisition = pending(acquisition.step(Reply::Current(instant(5, 1_000))));
    let held = instant(6, 1_500).encode();
    let acquisition = pending(acquisition.step(Reply::Entry(Some(held.clone()))));
    let acquisition = pending(acquisition.step(Reply::Current(instant(7, 1_501))));
    match acquisition.request() {
        Request::CompareAndSet { old, new } => {
            assert_eq!(old, Some(held));
            assert_eq!(new, instant(7, 1_200).encode());
        }
        _ => panic!("no write"),
    }
    granted(acquisition.step(Reply::Written(true)));
}

#[test]
fn lock_by_block_and_time_is_held_until_either_has_passed() {
    let lockable = BlockAndTime::<Chain>::new(2, Duration::from_millis(200));
    for (current, free) in [
        (instant(6, 1_500), false),
        (instant(7, 1_500), true),
        (instant(6, 1_501), true),
        (instant(7, 1_501), true),
    ] {
        let mut lock = StorageLock::with_lockable(b"lock", lockable.clone());
        let acquisition = pending(lock.try_lock().step(Reply::Current(instant(5, 1_000))));
        let held = instant(6, 1_500).encode();
        let acquisition = pending(acquisition.step(Reply::Entry(Some(held))));
        let progress = acquisition.step(Reply::Current(current));
        assert_eq!(matches!(progress, Progress::Pending(_)), free);
        assert_eq!(matches!(progress, Progress::Refused), !free);
    }
}

#[test]
fn lock_by_block_needs_a_block_to_end_at() {
    let mut lock = StorageLock::<BlockAndTime<Chain>>::new(b"lock");
    let acquisition = lock.try_lock();
    let current = BlockAndTime::<Chain>::current(at(1_000));
    assert!(!acquisition.accepts(&Reply::Current(current)));
    assert!(acquisition.accepts(&Reply::Current(instant(u64::MAX - 3, 1_000))));
}
