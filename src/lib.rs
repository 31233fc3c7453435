//! Extraction-and-indexing core for protein sequence collections: header
//! metadata, sliding-window k-mers with encoded positions, and the plan of
//! store operations that persists them.
pub mod header;
pub mod index;
pub mod kmer;
pub mod pipeline;
pub mod storage;
