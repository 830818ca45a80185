//! Async task bridge for a single-threaded, cooperatively scheduled script
//! host: task id allocation, a cross-thread completion registry, the loopback
//! notification protocol, a bounded connection pool, the yield-override round
//! trip, and the task future state machine.

pub mod client;
pub mod core_types;
pub mod filter;
pub mod future;
pub mod headers;
pub mod ids;
pub mod pool;
pub mod protocol;
pub mod proxy;
pub mod registry;
pub mod yield_override;

pub use client::{ClientAction, ClientEvent, YieldClient, YieldPhase};
pub use core_types::{Action, LogLevel, ServiceMode, Time};
pub use filter::{FilterMethod, FilterResult};
pub use future::{start_task, PollOutcome, TaskFuture};
pub use ids::TaskIdGen;
pub use pool::{ResourcePool, PER_WORKER_POOL_SIZE};
pub use protocol::{parse_request, Reply, Request};
pub use proxy::{ProxyCapability, ProxyMode};
pub use registry::TaskRegistry;
pub use yield_override::YieldOverride;
