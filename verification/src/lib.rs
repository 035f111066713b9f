//! Decoder for the binCraft compressed aircraft snapshot format.
//!
//! A snapshot is a zstd-compressed buffer: a fixed little-endian header,
//! then zero or more fixed-stride aircraft records, each holding ~50
//! optional bit-masked telemetry fields. The library decompresses the
//! frame, parses the header, splits the remainder into records and
//! decodes each one; every field it hands out is pinned to the bytes it
//! came from by the decode contracts.

pub mod aircraft;
pub mod bytes;
pub mod decode;
pub mod laws;
pub mod signal;
pub mod snapshot;
pub mod text;
