//! The wire codec: one frame per message, made of a tag byte, the length
//! of the payload in four bytes and the payload.

pub mod endian;
pub mod format;
pub mod roundtrip;
pub mod codec;
pub mod accumulator;
