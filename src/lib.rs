//! Decoding of base64-encoded query results into typed values, with a small
//! closed error taxonomy for the decode side.

pub mod amount;
pub mod codec;
pub mod error;
pub mod reward;
