//! Two small demonstrations of shared mutable state under a lock: an integer
//! behind a mutual-exclusion lock that two actors increment, and an integer
//! behind a reader/writer lock that many readers observe while one writer
//! increments it.
//!
//! The critical sections, the text of the observation lines and the replay of
//! a demonstration under a given grant order are verified. The locks are those
//! of the standard library; what is assumed of them is stated on the items that
//! call them. No function here waits for a lock: each attempt at a critical
//! section ends at once, and where the lock was busy the caller asks again.

pub mod attempt;
pub mod counter;
pub mod exclusive;
pub mod replay;
pub mod report;
pub mod shared;
pub mod transcript;
