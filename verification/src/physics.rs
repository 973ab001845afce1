//! The relations of physics that the model rests on.

pub mod dynamics;
pub mod gas_dynamics;
pub mod kinematics;

pub use kinematics::{mru, mrua};
