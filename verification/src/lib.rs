//! A minimal plaintext HTTP responder.
//!
//! The crate holds the decisions of a tiny server: how the start of a request
//! is classified, which bytes answer it, in which order a connection is read,
//! answered and flushed, and how the listener reacts to what happens on its
//! socket. Sockets and threads are left to the program that drives it.

pub mod connection;
pub mod failure;
pub mod listener;
pub mod request;
pub mod response;
