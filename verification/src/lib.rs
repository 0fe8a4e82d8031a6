//! Verified decoder for SET scene-description files.
//!
//! A SET file is a binary stream of fixed-width records, each describing one
//! placed object in a game scene (object template id, rotation, world-space
//! position, and three per-object attributes). Three platform variants encode
//! the same logical record with different byte orders. This crate decodes such
//! a stream into an ordered, indexable collection of platform-independent
//! scene objects, and proves the decoding correct against a mathematical
//! model of the byte layout.

pub mod codec;
pub mod decoder;
pub mod laws;
