//! A typed, nullable, nestable, zero-copy-sliceable in-memory columnar
//! data model: scalar values, structural data types, immutable column
//! variants with slicing and replication, append-only builders, and
//! canonical text serialization.

pub mod access;
pub mod arcs;
pub mod basic;
pub mod bitmap;
pub mod column;
pub mod error;
pub mod interp;
pub mod mutable;
pub mod replicate;
pub mod serialize;
pub mod series;
pub mod transform;
pub mod text;
pub mod types;
pub mod value;
pub mod variants;
