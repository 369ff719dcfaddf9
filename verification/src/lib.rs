//! Read-side client core for a service-discovery health subsystem.
//!
//! The crate models health checks reported by a remote catalog, reduces a
//! list of checks to a single aggregate status, builds the catalog queries
//! that fetch service health entries, and shapes the returned entries into
//! address strings. Transport, decoding and shared-client plumbing live
//! outside this crate; everything here is pure logic with contracts.

pub mod aggregate;
pub mod facade;
pub mod model;
pub mod query;
pub mod status;
pub mod text;
