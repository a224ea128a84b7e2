//! Concurrent port-probing and HTTP transfer core.
//!
//! The library holds the verified logic of the tool: the well-known-port
//! catalog, the port-range resolver, the bounded-concurrency probe
//! scheduler, the planning rules of the HTTP path (body selection,
//! streaming thresholds, destination file names) and the progress
//! accounting of streaming transfers. The surrounding binary performs the
//! socket and HTTP I/O and feeds plain values into these functions.

pub mod catalog;
pub mod http;
pub mod resolve;
pub mod progress;
pub mod render;
pub mod scheduler;

pub use catalog::TransportProtocol;
pub use http::FizzResult;
