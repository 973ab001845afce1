//! The constants of the standard rocket and of its surroundings.

use vstd::prelude::*;
use crate::math_utils::vector_2d::Vector2D;
use crate::scalar::Scalar;

verus! {

/// 9.81 m/s^2, the acceleration of gravity.
pub const GRAVITY: Scalar = 0x4023_9EB8_51EB_851F;

/// 1000 kg/m^3, the density of water.
pub const WATER_DENSITY: Scalar = 0x408F_4000_0000_0000;

/// 101325 Pa, the pressure of the atmosphere at sea level.
pub const ATMOSFERIC_PRESSURE: Scalar = 0x40F8_BCD0_0000_0000;

/// 1.4, the adiabatic index of air.
pub const ADIABATIC_INDEX_AIR: Scalar = 0x3FF6_6666_6666_6666;

/// The rocket starts at the origin,
pub const INITIAL_POSITION_X: Scalar = 0;

pub const INITIAL_POSITION_Y: Scalar = 0;

/// at rest,
pub const INITIAL_VELOCITY_X: Scalar = 0;

pub const INITIAL_VELOCITY_Y: Scalar = 0;

/// and without acceleration.
pub const INITIAL_ACCELERATION_X: Scalar = 0;

pub const INITIAL_ACCELERATION_Y: Scalar = 0;

/// 45 degrees, the angle of the launch over the ground.
pub const LAUNCHING_ANGLE_DEG: Scalar = 0x4046_8000_0000_0000;

/// 0.6 kg, the mass of the empty rocket.
pub const DRY_MASS: Scalar = 0x3FE3_3333_3333_3333;

/// 1 kg, the mass of the water at the start.
pub const INITIAL_WATER_MASS: Scalar = 0x3FF0_0000_0000_0000;

/// 45 psi, the pressure of the air at the start, over that of the atmosphere.
pub const INITIAL_AIR_PRESSURE_PSI: Scalar = 0x4046_8000_0000_0000;

/// 0, which stands for no discharge coefficient: the plain orifice formula.
pub const DISCHARGE_COEFFICIENT: Scalar = 0;

/// 0.002 m^3, the volume of the bottle: two litres.
pub const BOTTLE_VOLUME: Scalar = 0x3F60_624D_D2F1_A9FC;

/// 0.021 m, the diameter of the nozzle.
pub const NOZZLE_DIAMETER: Scalar = 0x3F95_8106_24DD_2F1B;

/// 6894.757293168361, the pascals in one psi.
pub const PASCALS_PER_PSI: Scalar = 0x40BA_EEC1_DDF7_0F98;

/// 1e-12 m^3, the least volume of air that the model reckons with.
pub const LEAST_AIR_VOLUME: Scalar = 0x3D71_9799_812D_EA11;

/// 0.02 s, the time after launch during which touching the ground ends nothing.
pub const ARMING_DELAY: Scalar = 0x3F94_7AE1_47AE_147B;

/// The number pi.
pub const PI: Scalar = 0x4009_21FB_5444_2D18;

/// The number 2.
pub const TWO: Scalar = 0x4000_0000_0000_0000;

/// The number 0.5.
pub const HALF: Scalar = 0x3FE0_0000_0000_0000;

/// What a simulation is made from.  Every entry can be set; `default()` gives
/// the standard rocket.
#[derive(Clone, Copy, Debug, PartialEq, Eq, Structural)]
pub struct Config {
    /// The acceleration of gravity, in m/s^2.
    pub gravity: Scalar,
    /// The density of water, in kg/m^3.
    pub water_density: Scalar,
    /// The pressure of the atmosphere, in Pa.
    pub atmospheric_pressure: Scalar,
    /// The adiabatic index of the air in the bottle.
    pub adiabatic_index: Scalar,
    /// Where the rocket starts, in m.
    pub initial_position: Vector2D,
    /// The velocity at the start, in m/s.
    pub initial_velocity: Vector2D,
    /// The acceleration at the start, in m/s^2.
    pub initial_acceleration: Vector2D,
    /// The angle of the launch over the ground, in degrees.
    pub launching_angle_deg: Scalar,
    /// The mass of the empty rocket, in kg.
    pub dry_mass: Scalar,
    /// The mass of the water at the start, in kg.
    pub initial_water_mass: Scalar,
    /// The pressure of the air at the start over that of the atmosphere, in psi.
    pub initial_air_pressure_psi: Scalar,
    /// The discharge coefficient of the nozzle; zero for the plain orifice
    /// formula.
    pub discharge_coefficient: Scalar,
    /// The volume of the bottle, in m^3.
    pub bottle_volume: Scalar,
    /// The diameter of the nozzle, in m.
    pub nozzle_diameter: Scalar,
    /// The time after launch during which touching the ground ends nothing,
    /// in s.
    pub arming_delay: Scalar,
}

impl Config {
    /// The standard rocket, made of the constants above.
    pub open spec fn standard() -> Config {
        Config {
            gravity: GRAVITY,
            water_density: WATER_DENSITY,
            atmospheric_pressure: ATMOSFERIC_PRESSURE,
            adiabatic_index: ADIABATIC_INDEX_AIR,
            initial_position: Vector2D { x: INITIAL_POSITION_X, y: INITIAL_POSITION_Y },
            initial_velocity: Vector2D { x: INITIAL_VELOCITY_X, y: INITIAL_VELOCITY_Y },
            initial_acceleration: Vector2D {
                x: INITIAL_ACCELERATION_X,
                y: INITIAL_ACCELERATION_Y,
            },
            launching_angle_deg: LAUNCHING_ANGLE_DEG,
            dry_mass: DRY_MASS,
            initial_water_mass: INITIAL_WATER_MASS,
            initial_air_pressure_psi: INITIAL_AIR_PRESSURE_PSI,
            discharge_coefficient: DISCHARGE_COEFFICIENT,
            bottle_volume: BOTTLE_VOLUME,
            nozzle_diameter: NOZZLE_DIAMETER,
            arming_delay: ARMING_DELAY,
        }
    }
}

impl Default for Config {
    /// The standard rocket.
    fn default() -> (config: Config)
        ensures
            config == Config::standard(),
    {
        Config {
            gravity: GRAVITY,
            water_density: WATER_DENSITY,
            atmospheric_pressure: ATMOSFERIC_PRESSURE,
            adiabatic_index: ADIABATIC_INDEX_AIR,
            initial_position: Vector2D { x: INITIAL_POSITION_X, y: INITIAL_POSITION_Y },
            initial_velocity: Vector2D { x: INITIAL_VELOCITY_X, y: INITIAL_VELOCITY_Y },
            initial_acceleration: Vector2D {
                x: INITIAL_ACCELERATION_X,
                y: INITIAL_ACCELERATION_Y,
            },
            launching_angle_deg: LAUNCHING_ANGLE_DEG,
            dry_mass: DRY_MASS,
            initial_water_mass: INITIAL_WATER_MASS,
            initial_air_pressure_psi: INITIAL_AIR_PRESSURE_PSI,
            discharge_coefficient: DISCHARGE_COEFFICIENT,
            bottle_volume: BOTTLE_VOLUME,
            nozzle_diameter: NOZZLE_DIAMETER,
            arming_delay: ARMING_DELAY,
        }
    }
}

} // verus!
