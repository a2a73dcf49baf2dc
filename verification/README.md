# storage_lock

A storage-based lock with a defined expiry time, for off-chain workers that share a
storage. A worker holds the lock while the storage entry of the lock holds its
deadline; the lock ends when the worker clears the entry, or when the deadline has
passed.

The library in `src/` is verified with Verus and touches neither storage nor clock. It
says what is to be read, written and waited for, and is told what came of it:

- `time`: points in time and durations
- `codec`: the bytes that deadlines are stored as
- `block`: block numbers
- `lockable`: deadlines by time, and by block number and time
- `protocol`: the stages of an acquisition
- `lock`: the lock, its acquisitions and its guards
- `laws`: what holds of the lock as a whole, mutual exclusion above all

`app/` puts the lock on the storage and the clock of the node.

A lock has to be unlocked before its deadline passes. Unlocking clears the entry
whatever it holds, so a worker that is late clears the lock of its successor.
