//! A minimal JSON-RPC core with a verified authorization middleware.
//!
//! The crate models the request/response envelope as plain data, extracts
//! the `X-Admin-Auth` header into per-request metadata, and guards a set of
//! protected methods behind a shared-secret check before dispatching to the
//! registered handlers. Transport (HTTP, serialization) lives outside.

pub mod dispatch;
pub mod metadata;
pub mod methods;
pub mod middleware;
pub mod protocol;
pub mod server;
