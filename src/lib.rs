//! Leader-side failover coordination for a consumer group: a persisted state
//! machine whose transitions are written to a shared store under
//! optimistic-concurrency guards.

mod bytes;
pub mod keys;
pub mod machine;
pub mod signal;
pub mod state;
pub mod store;

pub use state::{ConsumerGroupLeaderSM, LeaderError, LeaderInitError, ProducerId};
pub use machine::{select_producer, LeaderRuntime, LeaderWork, WorkOutcome, BARRIER_LEASE_TTL_SECS};
pub use signal::{DeadSignal, WatchEventKind};
pub use store::{init_guard, persist_guard, CompareOp, CompareTarget, TxnCompare};
