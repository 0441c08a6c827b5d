//! The decision core of a small HTTP service that keeps a table of users.
//!
//! The crate holds everything the service decides: which endpoint a request
//! addresses ([`route`]), and which response follows from what the storage
//! engine answered ([`handlers`]). Sockets and database drivers stay with the
//! caller: it hands in the verb, the path, the decoded body and the engine's
//! answer as plain values, and sends out the [`response::Response`] it gets
//! back.
//!
//! [`table`] is an in-memory users table, and [`service`] runs the whole
//! service against it. [`guarantees`] states over the two what holds across
//! several requests.

pub mod guarantees;
pub mod handlers;
pub mod id;
pub mod response;
pub mod route;
pub mod service;
pub mod storage;
pub mod table;
pub mod text;
pub mod user;

pub use user::{User, UserPayload};
