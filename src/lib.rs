//! Connection and statement lifecycle over an embedded SQL engine, with the
//! translation of the engine's status codes into typed errors. The engine
//! itself is reached by the caller; this crate decides, from what the engine
//! reported, what each operation returns and whether a handle may still be
//! used or must be released.
pub mod database;
pub mod error;
pub mod laws;
pub mod statement;
