//! In-process alert aggregation: producers submit notification events tagged
//! with a grouping key, the store batches them per key, and a flush cycle
//! turns every pending batch into one JSON document addressed to its
//! destination.
//!
//! The library holds the sequential core. Every operation on the store takes
//! `&mut self`, so a host that shares one store between threads wraps it in a
//! lock and each call is one critical section. The I/O is the host's as
//! well: the flush cycle says which POST is due next, the host sends it and
//! reports how it went.

pub mod alert;
pub mod delivery;
pub mod encoding;
pub mod endpoint;
pub mod formatter;
pub mod gateway;
pub mod history;
pub mod scheduler;
pub mod store;
pub mod wide;
