use parity_scale_codec::{Decode, Encode};
use sp_core::offchain::{testing, OffchainExt, OffchainStorage};
use sp_io::{offchain, TestExternalities};
use storage_lock::lock::{
    Acquisition, Progress, StorageKind, StorageLock, StorageLockGuard, StorageValueRef,
};
use storage_lock::lockable::{Lockable, Time};
use storage_lock::protocol::{Reply, Request};
use storage_lock::time::{Duration, Timestamp};

const VAL_1: u32 = 0u32;
const VAL_2: u32 = 0xFFFF_FFFFu32;

fn kind(value_ref: &StorageValueRef<'_>) -> sp_core::offchain::StorageKind {
    match value_ref.kind {
        StorageKind::Persistent => sp_core::offchain::StorageKind::PERSISTENT,
        StorageKind::Local => sp_core::offchain::StorageKind::LOCAL,
    }
}

fn now() -> Timestamp {
    Timestamp::from_unix_millis(offchain::timestamp().unix_millis())
}

/// Answers the requests of an acquisition until it ends.
fn drive<'a, 'b, L: Lockable>(
    acquisition: Acquisition<'a, 'b, L>,
) -> Option<StorageLockGuard<'a, 'b, L>> {
    let mut acquisition = acquisition;
    loop {
        let entry = acquisition.value_ref();
        let reply = match acquisition.request() {
            Request::Current => Reply::Current(L::current(now())),
            Request::Now => Reply::Now(now()),
            Request::Get => Reply::Entry(offchain::local_storage_get(kind(&entry), entry.key)),
            Request::CompareAndSet { old, new } => Reply::Written(
                offchain::local_storage_compare_and_set(kind(&entry), entry.key, old, &new),
            ),
            Request::SleepUntil { wake } => {
                offchain::sleep_until(sp_core::offchain::Timestamp::from_unix_millis(
                    wake.unix_millis,
                ));
                Reply::Awake
            }
        };
        assert!(acquisition.accepts(&reply));
        match acquisition.step(reply) {
            Progress::Pending(next) => acquisition = next,
            Progress::Granted(guard) => return Some(guard),
            Progress::Refused => return None,
        }
    }
}

/// Unlocks when it goes out of scope.
struct Scoped<'a, 'b, L: Lockable>(StorageLockGuard<'a, 'b, L>);

impl<'a, 'b, L: Lockable> Scoped<'a, 'b, L> {
    fn forget(mut self) {
        self.0.forget();
    }
}

impl<'a, 'b, L: Lockable> Drop for Scoped<'a, 'b, L> {
    fn drop(&mut self) {
        if let Some(entry) = self.0.close() {
            offchain::local_storage_clear(kind(&entry), entry.key);
        }
    }
}

fn lock<'a, 'b, L: Lockable>(lock: &'b mut StorageLock<'a, L>) -> Scoped<'a, 'b, L> {
    Scoped(drive(lock.lock()).unwrap())
}

fn try_lock<'a, 'b, L: Lockable>(
    lock: &'b mut StorageLock<'a, L>,
) -> Result<Scoped<'a, 'b, L>, ()> {
    drive(lock.try_lock()).map(Scoped).ok_or(())
}

fn set_value(key: &[u8], value: &u32) {
    offchain::local_storage_set(
        sp_core::offchain::StorageKind::PERSISTENT,
        key,
        &value.encode(),
    );
}

fn get_value(key: &[u8]) -> Option<Option<u32>> {
    offchain::local_storage_get(sp_core::offchain::StorageKind::PERSISTENT, key)
        .map(|bytes| u32::decode(&mut &bytes[..]).ok())
}

#[test]
fn storage_lock_write_unlock_lock_read_unlock() {
    let (offchain, state) = testing::TestOffchainExt::new();
    let mut t = TestExternalities::default();
    t.register_extension(OffchainExt::new(offchain));

    t.execute_with(|| {
        let mut storage_lock = StorageLock::<'_, Time>::new(b"lock_1");

        let val: &[u8] = b"protected_value";

        {
            let _guard = lock(&mut storage_lock);

            set_value(val, &VAL_1);

            assert_eq!(get_value(val), Some(Some(VAL_1)));
        }

        {
            let _guard = lock(&mut storage_lock);
            set_value(val, &VAL_2);

            assert_eq!(get_value(val), Some(Some(VAL_2)));
        }
    });
    // lock must have been cleared at this point
    assert_eq!(state.read().persistent_storage.get(b"", b"lock_1"), None);
}

#[test]
fn storage_lock_and_forget() {
    let (offchain, state) = testing::TestOffchainExt::new();
    let mut t = TestExternalities::default();
    t.register_extension(OffchainExt::new(offchain));

    t.execute_with(|| {
        let mut storage_lock = StorageLock::<'_, Time>::new(b"lock_2");

        let val: &[u8] = b"protected_value";

        let guard = lock(&mut storage_lock);

        set_value(val, &VAL_1);

        assert_eq!(get_value(val), Some(Some(VAL_1)));

        guard.forget();
    });
    // lock must still be set at this point
    let opt = state.read().persistent_storage.get(b"", b"lock_2");
    assert!(opt.is_some());
}

#[test]
fn storage_lock_and_let_expire_and_lock_again() {
    let (offchain, state) = testing::TestOffchainExt::new();
    let mut t = TestExternalities::default();
    t.register_extension(OffchainExt::new(offchain));

    t.execute_with(|| {
        let sleep_until =
            offchain::timestamp().add(sp_core::offchain::Duration::from_millis(500));
        let lock_expiration = Duration::from_millis(200);

        let mut storage_lock = StorageLock::<'_, Time>::with_deadline(b"lock_3", lock_expiration);

        {
            let guard = lock(&mut storage_lock);
            guard.forget();
        }

        // assure the lock expires
        offchain::sleep_until(sleep_until);

        let mut storage_lock = StorageLock::<'_, Time>::new(b"lock_3");
        let res = try_lock(&mut storage_lock);
        assert!(res.is_ok());
        let guard = res.unwrap();
        guard.forget();
    });

    // lock must be set again at this point
    let opt = state.read().persistent_storage.get(b"", b"lock_3");
    assert!(opt.is_some());
}

#[test]
fn locks_of_different_keys_are_independent() {
    let (offchain, state) = testing::TestOffchainExt::new();
    let mut t = TestExternalities::default();
    t.register_extension(OffchainExt::new(offchain));

    t.execute_with(|| {
        let mut one = StorageLock::<'_, Time>::new(b"lock_a");
        let mut two = StorageLock::<'_, Time>::new(b"lock_b");
        let mut again = StorageLock::<'_, Time>::new(b"lock_a");

        let guard_one = try_lock(&mut one).ok().unwrap();
        let guard_two = try_lock(&mut two).ok().unwrap();
        assert!(try_lock(&mut again).is_err());

        drop(guard_one);
        assert_eq!(state.read().persistent_storage.get(b"", b"lock_a"), None);
        assert!(state.read().persistent_storage.get(b"", b"lock_b").is_some());
        guard_two.forget();
    });
    assert!(state.read().persistent_storage.get(b"", b"lock_b").is_some());
    assert!(state.read().local_storage.get(b"", b"lock_b").is_none());
}

#[test]
fn unlocking_twice_is_unlocking_once() {
    let (offchain, state) = testing::TestOffchainExt::new();
    let mut t = TestExternalities::default();
    t.register_extension(OffchainExt::new(offchain));

    t.execute_with(|| {
        set_value(b"other", &VAL_2);
        let mut storage_lock = StorageLock::<'_, Time>::new(b"lock_c");
        let mut guard = drive(storage_lock.try_lock()).unwrap();
        let entry = guard.close().unwrap();
        for _ in 0..2 {
            offchain::local_storage_clear(kind(&entry), entry.key);
            assert_eq!(state.read().persistent_storage.get(b"", b"lock_c"), None);
            assert_eq!(get_value(b"other"), Some(Some(VAL_2)));
        }
        assert!(guard.close().is_none());
    });
}

#[test]
fn waiting_for_a_held_lock_takes_its_time() {
    let (offchain, state) = testing::TestOffchainExt::new();
    let mut t = TestExternalities::default();
    t.register_extension(OffchainExt::new(offchain));

    t.execute_with(|| {
        let mut first = StorageLock::<'_, Time>::with_deadline(b"lock_d", Duration::from_millis(200));
        lock(&mut first).forget();

        let mut second = StorageLock::<'_, Time>::new(b"lock_d");
        let mut acquisition = second.lock();
        // a date, the entry, a judgement, the time
        for _ in 0..4 {
            let entry = acquisition.value_ref();
            let reply = match acquisition.request() {
                Request::Current => Reply::Current(Time::current(now())),
                Request::Now => Reply::Now(now()),
                Request::Get => Reply::Entry(offchain::local_storage_get(kind(&entry), entry.key)),
                _ => panic!("not asked for yet"),
            };
            acquisition = match acquisition.step(reply) {
                Progress::Pending(next) => next,
                _ => panic!("not pending"),
            };
        }
        match acquisition.request() {
            Request::SleepUntil { wake } => assert_eq!(wake.unix_millis, 100),
            _ => panic!("no snooze"),
        }
    });
    assert_eq!(state.read().timestamp.unix_millis(), 0);
}
