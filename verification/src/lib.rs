//! Coordination core of a cross-chain atomic swap: the deployment profiles
//! with their timelocks, the shape of the price negotiation, and the ordered
//! setup handshake of the responding party.

pub mod config;
pub mod duration;
pub mod env;
pub mod network;
pub mod protocol;
pub mod timelock;
