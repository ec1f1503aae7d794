//! A chat channel used as file storage: the index of the virtual file
//! system, the splitting of uploads into bounded chunks, and the requests
//! that store, fetch and remove those chunks on the remote service.
//!
//! The library decides and never waits. An operation that needs the
//! stream of a transfer or the remote service is a value that says what is
//! to be done next; the caller does it and hands in what came of it:
//!
//! - [`backend::DiscordBackend`] offers the operations of a storage over an
//!   index that the caller has loaded and will write back;
//! - [`ftp::index::Files`] is that index, and [`ftp::laws`] says what its
//!   operations keep true of it;
//! - [`ftp::upload`], [`ftp::download`] and [`ftp::removal`] carry a
//!   transfer or a deletion from step to step;
//! - [`discord::bot::Bot`] writes the requests, and [`discord::fetch`]
//!   follows an attachment whose address has expired.
use vstd::prelude::*;

pub mod backend;
pub mod discord;
pub mod error;
pub mod ftp;
pub mod path;

verus! {

/// Largest payload, in bytes, that one remote message may carry.
pub const CHUNK_CEILING: usize = 25_000_000;

/// Capacity, in bytes, of the buffers placed over transfer streams.
pub const BUFFER_CAPACITY: usize = 1_048_576;

/// Pause, in milliseconds, after each upload.
pub const PACING_MILLIS: u64 = 500;

} // verus!
