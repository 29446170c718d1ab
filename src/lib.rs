//! Byte-at-a-time decoding of a small attitude/telemetry wire protocol.
//!
//! Every frame starts with one header byte naming its message type;
//! telemetry and set-attitude frames carry a six-byte payload of three
//! big-endian signed 16-bit axis values.
pub mod commands;
pub mod data_format;
pub mod message;
pub mod stream;
