//! Protocols spoken between the two parties before a swap is committed.

pub mod cbor;
pub mod reader;
pub mod spot_price;
pub mod wire;
