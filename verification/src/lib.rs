//! Core logic of a disk-space reclaimer: a rule-based matcher that recognizes
//! package-manager artifact directories by their sibling listing, a shared
//! append-only candidate store with a monotone status lifecycle, and the
//! decision steps of the concurrent scanner, size estimator and deletion
//! worker. All filesystem access, terminal rendering and thread-pool plumbing
//! live outside this crate; the functions here take plain values (listings,
//! byte counts, outcomes) and return decisions and store updates.

pub mod checker;
pub mod content;
pub mod estimate;
pub mod scan;
pub mod store;
