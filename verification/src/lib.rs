//! Decoders for proprietary binary advertisement payloads broadcast by
//! consumer environmental sensors over a short-range wireless beacon
//! protocol. Raw byte buffers, keyed by a service identifier, are turned
//! into structured sensor readings (temperature, humidity, battery level,
//! barometric pressure).

pub mod bytes;
pub mod mac;
pub mod models;
pub mod parsers;
pub mod registry;
