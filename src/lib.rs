//! A client-side publishing pipeline for a content-addressed code registry.
//!
//! Binary content is cut into bounded chunks, each chunk is stored, a file
//! record gathers the chunk hashes in order, code units reference their
//! files, a template references its code units in order, and an instantiated
//! package references its template. Every remote interaction is left to the
//! caller: the library decides which call comes next and what it carries.
use vstd::prelude::*;

pub mod chunking;
pub mod types;
pub mod publisher;
pub mod target;
pub mod laws;
