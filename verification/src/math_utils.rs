//! Small mathematical types.

pub mod vector_2d;
