//! Verified core of a small category service.
//!
//! The library holds the logic of a generic database access layer: a row
//! model with a decoding contract, an insert encoding contract, the
//! decision logic of the client operations, and an error taxonomy with its
//! HTTP status mapping. The I/O itself (the database driver and the HTTP
//! framework) lives outside the library; callers execute statements and
//! hand the outcomes to the functions here, which are verified for every
//! possible outcome.

pub mod category;
pub mod config;
pub mod db;
pub mod error;
pub mod id;
pub mod json;
pub mod rest;
pub mod sql;
