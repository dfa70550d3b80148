//! Validation of an IP prefix, optionally with an origin AS, against route
//! origin authorizations received from an RPKI-to-Router cache.
//!
//! The crate holds the decisions of such a validator: the typed prefix, the
//! sink that accumulates announced route origins and decides when the initial
//! synchronization is complete, the classification of how a session ended,
//! and the exact-match evaluation that yields the verdict. Connections,
//! timers and output belong to the program that drives it.

pub mod collector;
pub mod matching;
pub mod prefix;
pub mod roa;
pub mod session;
pub mod text;
pub mod validation;
