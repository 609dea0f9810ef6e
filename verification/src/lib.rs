//! Distributed mutually exclusive locks kept in a MongoDB collection.
//!
//! The crate holds the protocol and leaves the network to its caller: it says
//! which conditional write acquires a lock, which delete releases it, and what
//! each answer of the database means for the handle. The laws that the
//! protocol obeys against a database that applies each request atomically are
//! proved in [`protocol`].
//!
//! The protocol relies on wall-clock time: keep the clocks of all
//! participating machines synchronised.

pub mod clock;
pub mod document;
pub mod lock;
pub mod protocol;
pub mod reply;
pub mod request;

pub use lock::Lock;
pub use request::prepare_database;
