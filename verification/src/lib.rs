//! Assembly of a single UBL 2.1 invoice document and its serialization into
//! the UBL JSON encoding, where every schema element is wrapped in a
//! single-element array and leaf values sit under a `"_"` key.
//!
//! The crate is organised leaves-first: validated scalar values, then the
//! party / line / invoice builders, then the envelope and serializer.

pub mod error;
pub mod scalar;
pub mod num;
pub mod date;
pub mod party;
pub mod line;
pub mod invoice;
pub mod ser;
pub mod laws;
