//! A client for a financial-data REST API: endpoint URLs, the bearer
//! header, the interpretation of HTTP statuses and the decoding of the
//! response envelope. The transport itself is left to the caller.
pub mod api;
pub mod common;
pub mod encode;
pub mod endpoint;
pub mod error;
