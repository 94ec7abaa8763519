//! A differential-testing harness for externally supplied "solver" libraries.
//!
//! The `testing` module holds the reference solver, the argument generator and
//! the tester that compares a candidate's answers against the reference. The
//! `libraries` module holds the capability that every loaded candidate offers,
//! the registry of supported source languages and the discovery conventions of
//! the per-language loaders. The `server` module holds the data handed over by
//! the request surface.

pub mod libraries;
pub mod server;
pub mod testing;
