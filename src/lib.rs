//! Type descriptors for a foreign type system: their canonical signatures, an
//! interning store for their payloads, and a decoder that rebuilds them from a
//! memory image and its layout.

pub mod model;
pub mod python;
pub mod arena;
pub mod store;
pub mod decode;
pub mod exposed;
