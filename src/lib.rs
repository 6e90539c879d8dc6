//! A semantic layer over the X11 protocol and the EWMH conventions.
//!
//! The library never talks to the display server itself. Every command it
//! issues becomes a [`wire::Request`] value queued on the connection's
//! [`api::Api`]; a transport drains that queue and performs the requests in
//! order. Everything the library needs to know from the server (interned
//! atoms, property reads, geometry) is handed to it as plain values, so each
//! decision it makes is verified for every possible answer of the server.
pub mod atoms;
pub mod wire;
pub mod api;
pub mod classify;
pub mod text;
pub mod xconn;
pub mod laws;

