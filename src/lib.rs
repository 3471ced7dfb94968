//! Per-accessor dependency tracking for memoized computations.
//!
//! A computation reads a tracked value only through its declared accessors.
//! While it runs, each accessor output it observes is recorded in a tracker;
//! later a candidate value is checked against that tracker, and the cached
//! result may be reused when every recorded observation still holds.
pub mod access;
pub mod declare;
pub mod fields;
pub mod tracker;
pub mod session;
pub mod laws;
