//! Bridge between a host scripting runtime and a native full-text search
//! engine.
//!
//! The host holds handles to native values ([`boxarc`], [`boxcell`],
//! [`boxmutex`]) and describes what it wants in plain values
//! ([`descriptor`], [`num`]). The library compiles descriptions into engine
//! configuration ([`schema`], [`analyzer`], [`query`]), prepares what the
//! engine is asked ([`engine`]), and decides how an operation on a
//! lock-guarded handle proceeds ([`task`]). Reading and writing storage is
//! left to the caller.

pub mod analyzer;
pub mod boxarc;
pub mod boxcell;
pub mod boxmutex;
pub mod descriptor;
pub mod engine;
pub mod num;
pub mod query;
pub mod schema;
pub mod task;
