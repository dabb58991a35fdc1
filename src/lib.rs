//! Admission and lifecycle decisions for an HTTP(S) service reached through
//! an overlay transport.
//!
//! The library decides; the caller performs. Each inbound stream request is
//! screened by the port check, then driven through its lifecycle by a
//! [`connection::Connection`] state machine, while a [`dispatch::Dispatcher`]
//! governs the accept loop itself.
pub mod admission;
pub mod connection;
pub mod lifecycle;
pub mod dispatch;
