//! The swap protocol, one module per role.

pub mod alice;
