//! A minimal network file store: clients upload a named file, list stored
//! file names, and delete a file by name, over HTTP.
//!
//! This crate holds the request-handling pipeline — route dispatch, multipart
//! body parsing, the storage model, and the uniform mapping of errors to HTTP
//! responses — as verified code over plain byte values. The surrounding
//! process (the HTTP listener and the real filesystem directory) lives
//! outside the library and hands it plain values.

pub mod bytes_util;
pub mod msgs;
pub mod router;
pub mod storage;
pub mod multipart;
pub mod handlers;
pub mod pipeline;

