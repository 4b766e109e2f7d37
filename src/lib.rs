//! Load generation engine: configuration checks, request outcome records, a metrics
//! aggregator with nearest-rank percentiles, and an admission controller that keeps a fixed
//! number of requests in flight until a deadline.
pub mod config;
pub mod controller;
pub mod metrics;
pub mod percentiles;
pub mod request;
