//! A storage-based lock with a defined expiry time.
//!
//! The lock lives in a storage entry that off-chain workers share. It lets a section
//! of code be run by one worker at a time: a worker that has written its deadline to
//! the entry holds the lock until it clears the entry or the deadline has passed.
//!
//! Nothing in this crate touches a storage or a clock. A
//! [`StorageLock`](lock::StorageLock) hands out an
//! [`Acquisition`](lock::Acquisition), which says what it needs to have read, written
//! or waited for, and is told what came of it.
pub mod block;
pub mod codec;
pub mod laws;
pub mod lock;
pub mod lockable;
pub mod protocol;
pub mod time;
pub mod trace_laws;
pub mod value_laws;
