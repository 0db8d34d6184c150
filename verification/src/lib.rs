//! Runtime type layer of a schema-flexible data store.
//!
//! The crate defines a closed universe of primitive and compound data kinds, a
//! tagged in-memory representation for them ([`types::Value`]), a binary codec
//! that reads and writes such values at a byte offset inside a caller-owned
//! buffer, fixed-width digests for indexing, and a small arithmetic reducer
//! over tagged values.
//!
//! Floating-point kinds are carried by their IEEE-754 bit patterns, so that
//! every value has a total, structural equality and every codec is a function
//! on integers and bytes.
pub mod bytes;
pub mod expr;
pub mod hash;
pub mod types;
