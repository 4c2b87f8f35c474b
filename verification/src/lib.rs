//! A typed client library for a remote CRM's HTTP API: authenticated
//! header construction, resource codecs with passthrough of unmodeled
//! fields, and a pagination engine that aggregates multi-page list
//! responses into a single envelope.

pub mod client;
pub mod codec;
pub mod contacts;
pub mod errors;
pub mod json;
pub mod pagination;
pub mod util;

pub use client::Client;
pub use errors::Error;
