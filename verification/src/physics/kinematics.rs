//! Motion along a line.

pub mod mru;
pub mod mrua;
