use parity_scale_codec::Encode;
use storage_lock::block::{BlockNumber, BlockNumberProvider};
use storage_lock::codec::Codec;
use storage_lock::laws::law_default_snooze_ignores_deadline;
use storage_lock::lockable::{BlockAndTime, BlockAndTimeInstant, Lockable, Steady, Time};
use storage_lock::time::{Duration, Timestamp};

fn at(unix_millis: u64) -> Timestamp {
    Timestamp::from_unix_millis(unix_millis)
}

struct Chain;

impl BlockNumberProvider for Chain {
    type BlockNumber = u32;

    fn current_block_number() -> u32 {
        7
    }
}

fn instant(block_number: u32, unix_millis: u64) -> BlockAndTimeInstant<Chain> {
    BlockAndTimeInstant {
        block_number,
        timestamp: at(unix_millis),
    }
}

/// A lockable that leaves snoozing to the default.
struct Plain;

impl Lockable for Plain {
    type Instant = Timestamp;

    // the next three are for proofs and never run

    fn datable(&self, _current: Timestamp) -> bool {
        unreachable!()
    }

    fn deadline_at(&self, _current: Timestamp) -> Timestamp {
        unreachable!()
    }

    fn expired_at(_deadline: Timestamp, _current: Timestamp) -> bool {
        unreachable!()
    }

    fn current(now: Timestamp) -> Timestamp {
        now
    }

    fn can_date(&self, _current: &Timestamp) -> bool {
        true
    }

    fn deadline(&self, current: Timestamp) -> Timestamp {
        current
    }

    fn expired(deadline: &Timestamp, current: &Timestamp) -> bool {
        current.unix_millis > deadline.unix_millis
    }
}

#[test]
fn timestamps_add_and_saturate() {
    assert_eq!(at(1_000).add(Duration::from_millis(234)), at(1_234));
    assert_eq!(at(u64::MAX - 1).add(Duration::from_millis(1)), at(u64::MAX));
    assert_eq!(at(u64::MAX - 1).add(Duration::from_millis(2)), at(u64::MAX));
}

#[test]
fn timestamps_differ_one_way() {
    assert_eq!(at(1_234).diff(&at(1_000)), Duration::from_millis(234));
    assert_eq!(at(1_000).diff(&at(1_000)), Duration::from_millis(0));
    assert_eq!(at(1_000).diff(&at(1_234)), Duration::from_millis(0));
}

#[test]
fn numbers_are_written_least_significant_byte_first() {
    assert_eq!(Codec::encode(&0x0403_0201u32), vec![1, 2, 3, 4]);
    assert_eq!(
        Codec::encode(&0x0807_0605_0403_0201u64),
        vec![1, 2, 3, 4, 5, 6, 7, 8]
    );
    let mut wide = vec![0xffu8];
    wide.resize(16, 0);
    assert_eq!(Codec::encode(&0xffu128), wide);
}

#[test]
fn numbers_are_read_from_the_front() {
    assert_eq!(<u32 as Codec>::decode(&[1, 2, 3, 4, 5]), Some((0x0403_0201, 4)));
    assert_eq!(<u32 as Codec>::decode(&[1, 2, 3]), None);
    assert_eq!(
        <u64 as Codec>::decode(&[1, 0, 0, 0, 0, 0, 0, 2, 9]),
        Some((0x0200_0000_0000_0001, 8))
    );
    assert_eq!(<u64 as Codec>::decode(&[1, 0, 0, 0, 0, 0, 0]), None);
    let mut wide = vec![5u8, 1];
    wide.resize(16, 0);
    assert_eq!(<u128 as Codec>::decode(&wide), Some((0x105, 16)));
    assert_eq!(<u128 as Codec>::decode(&wide[..15]), None);
}

#[test]
fn timestamps_are_written_as_the_node_writes_them() {
    for unix_millis in [0u64, 1, 255, 256, 1_600_000_000_000, u64::MAX] {
        let bytes = sp_core::offchain::Timestamp::from_unix_millis(unix_millis).encode();
        assert_eq!(Codec::encode(&at(unix_millis)), bytes);
        assert_eq!(
            <Timestamp as Codec>::decode(&bytes),
            Some((at(unix_millis), 8))
        );
    }
}

#[test]
fn instants_are_written_as_block_number_and_timestamp() {
    let bytes = (
        3u32,
        sp_core::offchain::Timestamp::from_unix_millis(0x1234),
    )
        .encode();
    let written = instant(3, 0x1234);
    assert_eq!(Codec::encode(&written), bytes);
    let (read, taken) = <BlockAndTimeInstant<Chain> as Codec>::decode(&bytes).unwrap();
    assert!(read == written);
    assert_eq!(taken, 12);
    assert!(<BlockAndTimeInstant<Chain> as Codec>::decode(&bytes[..11]).is_none());
    assert!(<BlockAndTimeInstant<Chain> as Codec>::decode(&bytes[..3]).is_none());
}

#[test]
fn block_numbers_run_out() {
    assert!((u32::MAX - 3).reaches(3));
    assert!(!(u32::MAX - 3).reaches(4));
    assert_eq!((u32::MAX - 3).advance(3), u32::MAX);
    assert!((u64::MAX - 3).reaches(3));
    assert!(!(u64::MAX - 3).reaches(4));
    assert_eq!(10u64.advance(u32::MAX), 4_294_967_305);
    assert!((u128::MAX - 3).reaches(3));
    assert!(!(u128::MAX - 3).reaches(4));
    assert_eq!(10u128.advance(u32::MAX), 4_294_967_305);
    assert!(2u32.is_after(&1) && !1u32.is_after(&1) && !0u32.is_after(&1));
    assert!(2u64.is_after(&1) && !1u64.is_after(&1) && !0u64.is_after(&1));
    assert!(2u128.is_after(&1) && !1u128.is_after(&1) && !0u128.is_after(&1));
}

#[test]
fn time_expires_after_its_duration() {
    let time = Time::default();
    assert_eq!(time.expiration_duration, Duration::from_millis(30_000));
    assert_eq!(Time::current(at(5)), at(5));
    assert!(time.can_date(&at(5)));
    let deadline = time.deadline(at(1_000));
    assert_eq!(deadline, at(31_000));
    assert!(!Time::expired(&deadline, &at(1_000)));
    assert!(!Time::expired(&deadline, &at(31_000)));
    assert!(Time::expired(&deadline, &at(31_001)));
}

#[test]
fn time_that_saturates_never_expires() {
    let time = Time {
        expiration_duration: Duration::from_millis(10),
    };
    let deadline = time.deadline(at(u64::MAX - 5));
    assert_eq!(deadline, at(u64::MAX));
    assert!(!Time::expired(&deadline, &at(u64::MAX)));
}

#[test]
fn snooze_is_at_most_a_tenth_of_a_second() {
    assert_eq!(Time::snooze(&at(30_000), at(0)), at(100));
    assert_eq!(Time::snooze(&at(1_000), at(899)), at(999));
    assert_eq!(Time::snooze(&at(1_000), at(900)), at(1_000));
    assert_eq!(Time::snooze(&at(1_000), at(960)), at(1_000));
    assert_eq!(Time::snooze(&at(1_000), at(1_000)), at(1_000));
    assert_eq!(Time::snooze(&at(1_000), at(9_000)), at(9_000));
    assert_eq!(
        Time::snooze(&at(u64::MAX), at(u64::MAX - 40)),
        at(u64::MAX)
    );
    assert_eq!(
        BlockAndTime::<Chain>::snooze(&instant(3, 1_000), at(960)),
        at(1_000)
    );
    assert_eq!(
        BlockAndTime::<Chain>::snooze(&instant(3, 9_000), at(1_000)),
        at(1_100)
    );
}

#[test]
fn default_snooze_is_a_tenth_of_a_second() {
    assert_eq!(Plain::snooze(&at(1_000), at(900)), at(1_000));
    assert_eq!(Plain::snooze(&at(1_000), at(9_000)), at(9_100));
    assert_eq!(Steady::<Time>::snooze(&at(1_000), at(990)), at(1_090));
    assert_eq!(
        law_default_snooze_ignores_deadline::<Time>(&at(10), &at(70_000), at(1_000)),
        (at(1_100), at(1_100))
    );
    let steady = Steady {
        lockable: Time::default(),
    };
    assert_eq!(Steady::<Time>::current(at(5)), at(5));
    assert!(steady.can_date(&at(5)));
    assert_eq!(steady.deadline(at(5)), at(30_005));
    assert!(Steady::<Time>::expired(&at(5), &at(6)));
    assert!(!Steady::<Time>::expired(&at(5), &at(5)));
}

#[test]
fn block_and_time_expires_by_either() {
    let lockable = BlockAndTime::<Chain>::default();
    assert_eq!(lockable.expiration_block_number_offset, 3);
    assert_eq!(lockable.expiration_duration, Duration::from_millis(30_000));
    let current = BlockAndTime::<Chain>::current(at(1_000));
    assert!(current == instant(7, 1_000));
    let deadline = lockable.deadline(current);
    assert!(deadline == instant(10, 31_000));
    assert!(!BlockAndTime::<Chain>::expired(&deadline, &instant(10, 31_000)));
    assert!(BlockAndTime::<Chain>::expired(&deadline, &instant(10, 31_001)));
    assert!(BlockAndTime::<Chain>::expired(&deadline, &instant(11, 31_000)));
    assert!(BlockAndTime::<Chain>::expired(&deadline, &instant(11, 31_001)));
    assert!(BlockAndTime::<Chain>::expired(&instant(13, 31_000), &instant(11, 40_000)));
}

#[test]
fn block_and_time_cannot_be_dated_past_the_last_block() {
    let lockable = BlockAndTime::<Chain>::new(5, Duration::from_millis(1));
    assert!(lockable.can_date(&instant(u32::MAX - 5, 0)));
    assert!(!lockable.can_date(&instant(u32::MAX - 4, 0)));
}

#[test]
fn instants_and_lockables_are_cloned_whole() {
    let original = instant(3, 4);
    assert!(original.clone() == original);
    assert!(original != instant(3, 5));
    assert!(original != instant(4, 4));
    let lockable = BlockAndTime::<Chain>::new(5, Duration::from_millis(6));
    let copy = lockable.clone();
    assert_eq!(copy.expiration_block_number_offset, 5);
    assert_eq!(copy.expiration_duration, Duration::from_millis(6));
}
