//! A small card (task) service: a verified data-access layer over a table of
//! cards, the route matching and parameter parsing for its HTTP surface, the
//! error taxonomy with its status-code mapping, and the translation of every
//! operation's outcome into an HTTP response.
//!
//! Real I/O (the HTTP listener, the relational database) lives outside this
//! crate; everything here is plain logic over plain values.

pub mod date;
pub mod domain;
pub mod errors;
pub mod handlers;
pub mod http;
pub mod router;
pub mod service;
pub mod store;
pub mod text;

pub use date::Date;
