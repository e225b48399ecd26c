//! A compiler for remote-callable method interfaces: it validates a set of
//! method declarations into a registry, routes JSON-RPC calls against it,
//! and derives a client stub description and a schema document from it,
//! both drawing on one deduplicated catalogue of the types involved.

pub mod catalogue;
pub mod client;
pub mod consistency;
pub mod decode;
pub mod dispatch;
pub mod json;
pub mod laws;
pub mod naming;
pub mod registry;
pub mod schema;
pub mod template;
pub mod types;
