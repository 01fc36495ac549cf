//! A concurrent-friendly, in-memory key-value store core with per-entry
//! expiration timers.
//!
//! The `store` module holds the guarded state itself: a keyed map whose
//! entries own a cancellable handle to their scheduled expiration task.
//! Every mutation that displaces an entry cancels that entry's timer first,
//! and a timer's own removal is conditional on its identity still being the
//! one stored for the key, so a stale timer can never delete a newer entry.
//! The `laws` module states and proves the governing properties.
pub mod laws;
pub mod store;
