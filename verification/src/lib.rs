//! The core engine of a local music library player: a collection of
//! artists, albums and songs built from on-disk audio metadata, the
//! precomputed orderings over it, a fuzzy search index, a playback
//! queue with persistent state, file-signal decoding for
//! inter-process commands, and the kernel that routes messages
//! between them.

pub mod audio;
pub mod ccd;
pub mod cli;
pub mod collection;
pub mod constants;
pub mod date;
pub mod entity;
pub mod kernel;
pub mod key;
pub mod ordering;
pub mod persist;
pub mod phase;
pub mod search;
pub mod sort;
pub mod strings;
pub mod tag;
pub mod watch;
