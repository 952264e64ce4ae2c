//! Checks that weekly training-report files are present, one per apprentice,
//! in each apprentice's repository.
//!
//! The library holds the logic: the Monday-aligned week count since the start
//! of the apprenticeship, the naming convention for the expected report file,
//! and the classification of a lookup reply. The binary around it does the
//! configuration loading, the prompting and the remote lookup.

pub mod date;
pub mod digits;
pub mod lookup;
pub mod path;
