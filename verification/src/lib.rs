//! Decoder for the VE.Direct text protocol spoken by solar charge
//! controllers, battery monitors and inverters.
//!
//! Raw bytes are split into frames of key/value fields, a frame is
//! guarded by a one-byte checksum, and the fields of a frame are mapped
//! onto a typed device record.

pub mod checksum;
pub mod constants;
pub mod firmware_version;
pub mod framing;
pub mod mapping;
pub mod mppt;
pub mod parser;
pub mod text;
pub mod types;
pub mod utils;
pub mod ve_error;
