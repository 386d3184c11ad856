//! Binary log codec for flight-telemetry streams: a self-describing file
//! header followed by records that carry raw bytes, UTF-8 text or MAVLink
//! frames, with a decoder and a record writer that agree byte for byte.
pub mod codec;
pub mod entry;
pub mod header;
pub mod parser;
pub mod roundtrip;
pub mod wire;
pub mod writer;
