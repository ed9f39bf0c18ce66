//! Conversion of mono 24-bit 48 kHz PCM WAV data into a fixed-length
//! classic PCM WAV image, and the decisions of a durable file replace.

pub mod encode;
pub mod decode;
pub mod frame;
pub mod path;
pub mod durable;
