//! A data access layer that coordinates a volatile key/value cache and a
//! durable structured store behind one API.
//!
//! The network clients live outside this crate's verified core: every
//! decision they make (time-to-live policy, query selection, error
//! classification, row collection, write ordering and read races) is made
//! here, by functions whose contracts are checked by Verus.
pub mod redis;
pub mod scylla;
pub mod handler;
