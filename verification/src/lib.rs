//! Cache-warming and fingerprinting library.
//!
//! The library holds the logic of a read-only diagnostic pass over a
//! directory of files: deciding which files to fingerprint, computing the
//! XOR word-checksum that the optional GPU path produces, turning per-file
//! load outcomes into reports, aggregating reports into a final summary,
//! and rendering byte counts in human-readable form. All file, thread and
//! device I/O lives outside the library and hands plain values in.

pub mod aggregate;
pub mod checksum;
pub mod human;
pub mod pool;
pub mod process;
pub mod report;
pub mod scan;
