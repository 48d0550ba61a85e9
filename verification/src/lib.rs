//! A small library around a single object-storage download operation.
//!
//! The library models the life of one download — issue a fetch request,
//! create the destination file, stream the body into it chunk by chunk —
//! as a state machine whose transitions are verified. The unverified
//! binary around it performs the actual network and file I/O and feeds
//! the observed events into the machine.

pub mod config;
pub mod error;
pub mod request;
pub mod transfer;
