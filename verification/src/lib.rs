//! Streaming FASTA sequence statistics: a single pass over the bytes of a
//! FASTA file yields the total number of bases and the number of G/C bases,
//! from which the caller derives the GC-content ratio.
//!
//! The crate is split into the byte classifier tables (`tables`) and the
//! line-context state machine with its accumulating scan (`scanner`).
//! File I/O stays outside: callers hand the scanner byte chunks in order.

pub mod scanner;
pub mod tables;
