//! A verified core for a parallel file-hashing pipeline.
//!
//! A tree walker discovers regular files under a root path and feeds their
//! canonical paths through an unbounded work queue to a pool of digest
//! workers, each of which reports one line per file: the lowercase
//! hexadecimal SHA-256 of the file's contents, a space, and the path.
//!
//! This crate holds the pipeline's decisions: the skip policy for
//! pseudo-filesystem paths, the walker's pending-work bookkeeping, the
//! shape of each digest line, and the diagnostics for the failures the
//! pipeline tolerates. The filesystem reads, the threads and the console
//! belong to the surrounding program, which drives these functions.

pub mod digest;
pub mod policy;
pub mod queue;
pub mod walk;
