//! A depth-bounded, filtered, deduplicating link-graph traversal engine.
//!
//! The engine explores the pages reachable from a seed URL: each pending
//! visit is normalized, filtered, deduplicated and recorded, and the links
//! extracted from a fetched page become new pending visits one level deeper.
//! Two traversal modes are supported: a generic hyperlink graph and an
//! encyclopedia article graph with random-walk hops. Accepted edges are also
//! queued for best-effort reporting to a graph-visualization service.
//!
//! The engine itself is a sequential state machine over two work pools; the
//! asynchronous driver that performs HTTP fetches and drains the pools in
//! rounds lives outside the library and only calls the functions here.

pub mod args;
pub mod crawler;
pub mod exporter;
pub mod extract;
pub mod gephi;
pub mod hashing;
pub mod text;
pub mod url_data;

pub use args::Args;
pub use args::Command;
pub use crawler::Crawler;
pub use crawler::CrawlerData;
pub use crawler::EdgeReportUnit;
pub use crawler::TraversalUnit;
pub use exporter::Exporter;
pub use gephi::GephiClient;
pub use gephi::GephiRequest;
pub use hashing::hash_string;
pub use url_data::Url;
