//! Configuration, request planning and decision logic for the crawlkit
//! cloud and headless-browser fetch backends (Jina Reader, Firecrawl, CDP).

pub mod cdp;
pub mod firecrawl;
pub mod jina;
pub mod json;
pub mod random;
pub mod retry;
pub mod text;
pub mod time;

pub use firecrawl::FirecrawlClient;
pub use jina::JinaClient;
