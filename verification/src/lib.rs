//! A reader and a writer as one stream.
//!
//! Some places hand out a reader and a writer as two values where others ask
//! for one value that is both. [`Duplex`] holds one of each and is itself a
//! reader and a writer: every read is the reader's, every write, flush and
//! close is the writer's, and the duplex adds nothing of its own. It buffers
//! nothing, retries nothing and changes no result.
//!
//! The stream traits are in [`io`]. Each method of the duplex states in its
//! contract what it hands on and what it leaves alone; what follows from
//! those contracts over several calls is proved in [`laws`].

pub mod duplex;
pub mod io;
pub mod laws;

pub use duplex::Duplex;
pub use io::{BufRead, Read, Write};
