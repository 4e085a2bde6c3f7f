//! Client-side engine for the Modbus TCP protocol: a connection state
//! machine, timeout-bounded register reads, typed decoding of raw 16-bit
//! register words, and multi-range batch orchestration.

pub mod batch;
pub mod client;
pub mod csv;
pub mod errors;
pub mod requests;
pub mod text;
pub mod types;
