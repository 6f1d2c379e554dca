//! Watches a job market contract for new jobs and checks that each job's
//! instance becomes reachable, reporting every failure it finds.
//!
//! - `poller`: which block range each tick queries, and when the watermark moves.
//! - `scope`: which job events are verified, and the task each one becomes.
//! - `worker`: the per-job verification state machine and the failures it reports.
//! - `resolver`: the bounded retry policy of address resolution.
//! - `records`: failure records and their time stamps.
//! - `ident`: the `0x`-prefixed hex form of job ids and addresses.

pub mod ident;
pub mod poller;
pub mod records;
pub mod reply;
pub mod resolver;
pub mod scope;
pub mod worker;
