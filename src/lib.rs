//! A probe that shrinks a datagram socket's send buffer and counts the sends
//! that the kernel refuses because the buffer is full.
//!
//! The library holds the probe's decisions: the datagram's header, and the
//! sequence of socket operations with the tally of would-block failures. The
//! socket calls themselves are made by the caller, which feeds each result back.
pub mod config;
pub mod header;
pub mod laws;
pub mod probe;
