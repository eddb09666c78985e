//! Verified core of an administrative console for a fleet of network cameras.
//!
//! The library holds the in-memory entity store over five record collections,
//! the request-handler logic that maps store results to HTTP status codes,
//! the client-side interpretation of fetch outcomes, and the view-state
//! bookkeeping that mirrors server collections into UI state. All I/O — the
//! HTTP server, JSON codecs, and the browser runtime — lives outside the
//! library and hands it plain values.

pub mod client;
pub mod handlers;
pub mod models;
pub mod store;
pub mod table;
pub mod ui;
