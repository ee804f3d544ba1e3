//! A compact, self-describing binary codec for scalar values.
//!
//! Small integers take one byte; larger ones take a one-byte header code
//! followed by a fixed-width little-endian payload. The modules state the
//! wire format as functions on byte sequences and prove the serializer and
//! the deserializer against it.

pub mod common;
pub mod de;
pub mod endian;
pub mod error;
pub mod laws;
pub mod ser;
pub mod std_specs;
pub mod wire;
