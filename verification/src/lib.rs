//! A typed client library for the GitHub Actions REST API, covering
//! workflow-run artifacts and Actions cache usage.
//!
//! The verified core is the response-mapping layer: fixed-format timestamp
//! conversion, decoding of wire-shape payloads into domain values (with
//! normalization of empty collections), and construction of the request
//! URLs and query parameters for each endpoint. The HTTP transport itself
//! is an external collaborator and lives outside this library.

pub mod decode;
pub mod errors;
pub mod structs;
pub mod timestamp;
pub mod urls;
pub mod wire;
