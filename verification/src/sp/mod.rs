//! The particle interface to the host engine: models of the host's record
//! shapes and the typed descriptor layer over them.

pub mod host;
pub mod particles;
