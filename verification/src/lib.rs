//! Replication of a periodically refreshed GeoIP country database into
//! parallel worker processes.
//!
//! A single refresh coordinator fetches the database blob over HTTP and
//! publishes it into a versioned shared store with compare-and-swap writes.
//! Each worker polls the store on a timer, decodes the blob into a queryable
//! database, and runs a readiness state machine. A per-request lookup filter
//! reads the worker's cached database, resolves the client address to a
//! country code, and attaches it as request metadata, passing the request
//! through untouched whenever anything along that path is unavailable.

pub mod config;
pub mod coordinator;
pub mod filter;
pub mod geodb;
pub mod headers;
pub mod host;
pub mod ip;
pub mod store;
pub mod worker;
