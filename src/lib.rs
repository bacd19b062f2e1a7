//! A read-only catalog of dog records served over HTTP.
//!
//! The library holds the decisions of the request pipeline: validation of the
//! path parameter, the mapping of executor and store failures onto a fixed
//! error taxonomy, the cap on listings, the bound on pending blocking tasks,
//! and the status and payload of every response. The HTTP server, the
//! connection pool, the blocking executor and the template engine run around
//! it and hand it plain values.
pub mod config;
pub mod errors;
pub mod executor;
pub mod laws;
pub mod models;
pub mod pipeline;
pub mod validation;

pub use config::database_url_key;
pub use errors::UserError;
pub use models::Dog;
pub use validation::DogEndpointPath;
