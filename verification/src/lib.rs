//! Verified core of a desktop application's settings backend.
//!
//! The application persists two optional folder paths — a default folder and
//! the last-opened folder — as independent keys of a JSON-backed key-value
//! store. This crate models the store's contents and proves the accessor
//! operations correct against a `Map` view; the host runtime that owns the
//! backing file calls in with plain values.

pub mod laws;
pub mod settings;
pub mod store;
