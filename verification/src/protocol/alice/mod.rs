//! The responding party of a swap.

pub mod execution_setup;
