//! Marshaling layer between a host process and values stored in the linear
//! memory of a sandboxed, garbage-collected guest runtime.
//!
//! The crate provides the codec contract every marshalable type satisfies
//! (byte-exact encode / version-aware decode), the versioned object-layout
//! dispatch keyed on the guest's declared API version, the static type-tag
//! registry the guest's GC needs for freshly placed objects, and the closed
//! error taxonomy surfaced on malformed or oversized guest data.

pub mod array;
pub mod base;
pub mod encoding;
pub mod errors;
pub mod heap;
pub mod pow2;
pub mod string;
pub mod tags;
pub mod value;
pub mod version;
