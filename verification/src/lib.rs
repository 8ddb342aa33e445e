//! Selection and supervision of the single configuration source of a proxy.
//!
//! `selector` picks the one provider that a configuration makes active.
//! `supervisor` holds the decisions of the retry loop that keeps the watch
//! task of that provider alive, `policy` its backoff schedule, `health` the
//! liveness flag that it lowers, and `trace` what it does over a whole run.

pub mod health;
pub mod policy;
pub mod selector;
pub mod supervisor;
pub mod trace;
