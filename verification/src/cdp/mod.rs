//! Chrome DevTools Protocol backends: a single-endpoint client and an endpoint pool.
pub mod client;
pub mod fetch;
pub mod pool;
pub mod protocol;

pub use client::{CdpClient, CdpClientBuilder};
pub use fetch::{FetchAction, PageFetch};
pub use pool::{CdpPool, CdpPoolBuilder, CdpStrategy, PoolBuildError, PoolRound};
pub use protocol::{CdpCommand, CdpError, WsEvent};
