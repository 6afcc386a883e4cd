//! An optimistic-concurrency transfer engine: it moves funds between two
//! accounts inside one serializable transaction, retries on commit-time
//! serialization conflicts, and reports the payer's new balance together with
//! the number of attempts made.

pub mod conflict;
pub mod engine;
pub mod guard;
pub mod ledger;
pub mod money;
pub mod report;
pub mod theorems;
pub mod transfer;
pub mod workload;
