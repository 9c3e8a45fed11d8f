//! The example plugin: declared tag sets and the descriptor lists its
//! handlers return.

pub mod particles;
