//! The physical state of the rocket, and what one step makes of it.

use vstd::prelude::*;
use crate::arithmetic::{answer, Op};
use crate::constants::{Config, LEAST_AIR_VOLUME, PASCALS_PER_PSI, PI, TWO};
use crate::math_utils::vector_2d::Vector2D;
use crate::physics::gas_dynamics::{
    exit_velocity_spec,
    exit_velocity_with_cd_spec,
    mass_flow_rate_spec,
    thrust_spec,
};
use crate::scalar::{floored_at, gt, gt_zero, le_zero, lt, lt_zero, Scalar, ZERO};

verus! {

/// Everything that the model knows of the rocket at one moment.
#[derive(Clone, Copy, Debug, PartialEq, Eq, Structural)]
pub struct State {
    /// The length of a step, in s.
    pub step: Scalar,
    /// The time since the launch, in s.
    pub time: Scalar,
    /// The acceleration of gravity, in m/s^2.
    pub gravity: Scalar,
    /// The density of water, in kg/m^3.
    pub water_density: Scalar,
    /// The pressure of the atmosphere, in Pa.
    pub atmospheric_pressure: Scalar,
    /// The adiabatic index of the air in the bottle.
    pub adiabatic_index: Scalar,
    /// Where the rocket is, in m.
    pub position: Vector2D,
    /// How fast it moves, in m/s.
    pub velocity: Vector2D,
    /// How its velocity changes, in m/s^2.
    pub acceleration: Vector2D,
    /// The mass of the water that is left, in kg.
    pub water_mass: Scalar,
    /// The mass of the empty rocket, in kg.
    pub dry_mass: Scalar,
    /// The mass of the rocket and its water, in kg.
    pub total_mass: Scalar,
    /// The volume of the bottle, in m^3.
    pub bottle_volume: Scalar,
    /// The area of the nozzle, in m^2.
    pub nozzle_area: Scalar,
    /// The angle of the launch over the ground, in radians.  The thrust
    /// always acts along it.
    pub launching_angle_rad: Scalar,
    /// The absolute pressure of the air at the start, in Pa.
    pub initial_air_pressure_pa: Scalar,
    /// The pressure of the air times its volume to the power of the adiabatic
    /// index, as it was at the start.
    pub polytropic_constant: Scalar,
    /// The absolute pressure of the air, in Pa.
    pub current_pressure_pa: Scalar,
    /// The volume of the air, in m^3.
    pub current_air_volume: Scalar,
    /// The volume of the water, in m^3.
    pub water_volume: Scalar,
    /// The volume of the air once more, for those who read it under this name.
    pub air_volume: Scalar,
    /// The discharge coefficient of the nozzle; zero for the plain orifice
    /// formula.
    pub discharge_coefficient: Scalar,
    /// The thrust along the launching angle, in N.
    pub thrust_force: Scalar,
    /// The time after launch during which touching the ground ends nothing,
    /// in s.
    pub arming_delay: Scalar,
}

impl State {
    /// The state before the first step: the rocket as `config` describes it,
    /// with steps of the length `time_steps`.
    pub open spec fn initial<F: Fn(Op) -> Scalar>(
        time_steps: Scalar,
        config: Config,
        eval: &F,
    ) -> State {
        let pressure = answer(
            eval,
            Op::Add(
                answer(eval, Op::Mul(config.initial_air_pressure_psi, PASCALS_PER_PSI)),
                config.atmospheric_pressure,
            ),
        );
        let water_volume = answer(eval, Op::Div(config.initial_water_mass, config.water_density));
        let air_volume = floored_at(
            answer(eval, Op::Sub(config.bottle_volume, water_volume)),
            LEAST_AIR_VOLUME,
        );
        State {
            step: time_steps,
            time: ZERO,
            gravity: config.gravity,
            water_density: config.water_density,
            atmospheric_pressure: config.atmospheric_pressure,
            adiabatic_index: config.adiabatic_index,
            position: config.initial_position,
            velocity: config.initial_velocity,
            acceleration: config.initial_acceleration,
            water_mass: config.initial_water_mass,
            dry_mass: config.dry_mass,
            total_mass: answer(eval, Op::Add(config.initial_water_mass, config.dry_mass)),
            bottle_volume: config.bottle_volume,
            nozzle_area: answer(
                eval,
                Op::Mul(
                    PI,
                    answer(eval, Op::Powi(answer(eval, Op::Div(config.nozzle_diameter, TWO)), 2)),
                ),
            ),
            launching_angle_rad: answer(eval, Op::ToRadians(config.launching_angle_deg)),
            initial_air_pressure_pa: pressure,
            polytropic_constant: answer(
                eval,
                Op::Mul(pressure, answer(eval, Op::Powf(air_volume, config.adiabatic_index))),
            ),
            current_pressure_pa: pressure,
            current_air_volume: air_volume,
            water_volume,
            air_volume,
            discharge_coefficient: config.discharge_coefficient,
            thrust_force: ZERO,
            arming_delay: config.arming_delay,
        }
    }

    /// The state with the total mass of the rocket and of `new_water_mass` of
    /// water.
    pub open spec fn with_total_mass<F: Fn(Op) -> Scalar>(
        self,
        new_water_mass: Scalar,
        eval: &F,
    ) -> State {
        State { total_mass: answer(eval, Op::Add(self.dry_mass, new_water_mass)), ..self }
    }

    /// The state with the volumes of water and air that belong to its water
    /// mass: the air has what the water leaves of the bottle, and never less
    /// than the least volume.
    pub open spec fn with_air_volume<F: Fn(Op) -> Scalar>(self, eval: &F) -> State {
        let water_volume = answer(eval, Op::Div(self.water_mass, self.water_density));
        let air_volume = floored_at(
            answer(eval, Op::Sub(self.bottle_volume, water_volume)),
            LEAST_AIR_VOLUME,
        );
        State { current_air_volume: air_volume, water_volume, air_volume, ..self }
    }

    /// The pressure that the polytropic law gives the air at the volume `v`:
    /// the polytropic constant over `v` to the power of the adiabatic index.
    pub open spec fn polytropic_pressure<F: Fn(Op) -> Scalar>(self, v: Scalar, eval: &F) -> Scalar {
        answer(
            eval,
            Op::Div(self.polytropic_constant, answer(eval, Op::Powf(v, self.adiabatic_index))),
        )
    }

    /// The state with the pressure that belongs to its volume of air.
    pub open spec fn with_pressure<F: Fn(Op) -> Scalar>(self, eval: &F) -> State {
        State {
            current_pressure_pa: self.polytropic_pressure(self.current_air_volume, eval),
            ..self
        }
    }

    /// By how much the pressure of the air exceeds that of the atmosphere.
    pub open spec fn overpressure<F: Fn(Op) -> Scalar>(self, eval: &F) -> Scalar {
        answer(eval, Op::Sub(self.current_pressure_pa, self.atmospheric_pressure))
    }

    /// Whether nothing drives water out: there is no water, or the air does
    /// not press harder than the atmosphere.
    pub open spec fn is_spent<F: Fn(Op) -> Scalar>(self, eval: &F) -> bool {
        le_zero(self.water_mass) || le_zero(self.overpressure(eval))
    }

    /// The speed of the jet: zero where nothing drives water out, else by the
    /// discharge coefficient where there is one, and by the plain orifice
    /// formula where there is none.
    pub open spec fn exit_velocity<F: Fn(Op) -> Scalar>(self, eval: &F) -> Scalar {
        if self.is_spent(eval) {
            ZERO
        } else if gt_zero(self.discharge_coefficient) {
            exit_velocity_with_cd_spec(
                self.discharge_coefficient,
                self.current_pressure_pa,
                self.atmospheric_pressure,
                self.water_density,
                eval,
            )
        } else {
            exit_velocity_spec(
                self.current_pressure_pa,
                self.atmospheric_pressure,
                self.water_density,
                eval,
            )
        }
    }

    /// Whether a jet of the speed `exit_velocity` carries water out of this
    /// rocket: there is water, the jet moves, and nozzle and water are
    /// physical.
    pub open spec fn has_flow(self, exit_velocity: Scalar) -> bool {
        !le_zero(self.water_mass) && !le_zero(exit_velocity) && !le_zero(self.nozzle_area)
            && !le_zero(self.water_density)
    }

    /// The mass that a jet of the speed `exit_velocity` carries out per
    /// second, and zero where it carries none.
    pub open spec fn mass_flow<F: Fn(Op) -> Scalar>(
        self,
        exit_velocity: Scalar,
        eval: &F,
    ) -> Scalar {
        if self.has_flow(exit_velocity) {
            mass_flow_rate_spec(exit_velocity, self.nozzle_area, self.water_density, eval)
        } else {
            ZERO
        }
    }

    /// Whether a jet of the speed `exit_velocity` and the flow `mass_flow`
    /// pushes this rocket.
    pub open spec fn has_thrust(self, exit_velocity: Scalar, mass_flow: Scalar) -> bool {
        !le_zero(self.water_mass) && !le_zero(exit_velocity) && !le_zero(mass_flow) && !le_zero(
            self.nozzle_area,
        )
    }

    /// The state with the thrust of a jet of the speed `exit_velocity` and
    /// the flow `mass_flow`, and with no thrust where there is no such jet.
    pub open spec fn with_thrust<F: Fn(Op) -> Scalar>(
        self,
        exit_velocity: Scalar,
        mass_flow: Scalar,
        eval: &F,
    ) -> State {
        State {
            thrust_force: if self.has_thrust(exit_velocity, mass_flow) {
                thrust_spec(
                    mass_flow,
                    exit_velocity,
                    self.current_pressure_pa,
                    self.atmospheric_pressure,
                    self.nozzle_area,
                    eval,
                )
            } else {
                ZERO
            },
            ..self
        }
    }

    /// The state without thrust.
    pub open spec fn without_thrust(self) -> State {
        State { thrust_force: ZERO, ..self }
    }

    /// The state with the acceleration that thrust and gravity give the total
    /// mass: the thrust along the launching angle, gravity downwards.
    pub open spec fn with_acceleration<F: Fn(Op) -> Scalar>(self, eval: &F) -> State {
        let along = answer(
            eval,
            Op::Mul(self.thrust_force, answer(eval, Op::Cos(self.launching_angle_rad))),
        );
        let upward = answer(
            eval,
            Op::Mul(self.thrust_force, answer(eval, Op::Sin(self.launching_angle_rad))),
        );
        State {
            acceleration: Vector2D {
                x: answer(eval, Op::Div(along, self.total_mass)),
                y: answer(
                    eval,
                    Op::Sub(answer(eval, Op::Div(upward, self.total_mass)), self.gravity),
                ),
            },
            ..self
        }
    }

    /// The state with the velocity one step on, under its acceleration.
    pub open spec fn with_velocity<F: Fn(Op) -> Scalar>(self, eval: &F) -> State {
        State {
            velocity: self.velocity.add_spec(self.acceleration.mul_spec(self.step, eval), eval),
            ..self
        }
    }

    /// The state with the position one step on, at its velocity.
    pub open spec fn with_position<F: Fn(Op) -> Scalar>(self, eval: &F) -> State {
        State {
            position: self.position.add_spec(self.velocity.mul_spec(self.step, eval), eval),
            ..self
        }
    }

    /// The state after one step of the flow `mass_flow`: the water that is
    /// left, and never less than none; the total mass that belongs to it; and
    /// no thrust where no water is left.
    pub open spec fn with_water_flow<F: Fn(Op) -> Scalar>(
        self,
        mass_flow: Scalar,
        eval: &F,
    ) -> State {
        let left = floored_at(
            answer(eval, Op::Sub(self.water_mass, answer(eval, Op::Mul(mass_flow, self.step)))),
            ZERO,
        );
        State {
            water_mass: left,
            total_mass: answer(eval, Op::Add(self.dry_mass, left)),
            thrust_force: if le_zero(left) {
                ZERO
            } else {
                self.thrust_force
            },
            ..self
        }
    }

    /// The state one step later on the clock.
    pub open spec fn with_time<F: Fn(Op) -> Scalar>(self, eval: &F) -> State {
        State { time: answer(eval, Op::Add(self.time, self.step)), ..self }
    }

    /// The state with the air as its water mass leaves it: first the volume,
    /// then the pressure at that volume.
    pub open spec fn with_air<F: Fn(Op) -> Scalar>(self, eval: &F) -> State {
        self.with_air_volume(eval).with_pressure(eval)
    }

    /// What a step makes of a state whose air is up to date and drives no
    /// water out: no thrust, the motion of one step, the clock.
    pub open spec fn coasted<F: Fn(Op) -> Scalar>(self, eval: &F) -> State {
        self.without_thrust()
            .with_total_mass(self.water_mass, eval)
            .with_acceleration(eval)
            .with_velocity(eval)
            .with_position(eval)
            .with_time(eval)
    }

    /// What a step makes of a state whose air is up to date and drives water
    /// out: the thrust of the jet, the motion of one step under it, the loss
    /// of water, the clock.
    pub open spec fn thrusted<F: Fn(Op) -> Scalar>(self, eval: &F) -> State {
        let exit_velocity = self.exit_velocity(eval);
        let mass_flow = self.mass_flow(exit_velocity, eval);
        self.with_thrust(exit_velocity, mass_flow, eval)
            .with_total_mass(self.water_mass, eval)
            .with_acceleration(eval)
            .with_velocity(eval)
            .with_position(eval)
            .with_water_flow(mass_flow, eval)
            .with_time(eval)
    }

    /// The state one step later.  Air volume and pressure follow from the
    /// water at the start of the step; exit velocity, mass flow and thrust
    /// from that pressure; the acceleration from that thrust and the mass
    /// before any water is lost; the velocity from that acceleration and the
    /// position from that new velocity; only then the water leaves.
    pub open spec fn stepped<F: Fn(Op) -> Scalar>(self, eval: &F) -> State {
        let aired = self.with_air(eval);
        if aired.is_spent(eval) {
            aired.coasted(eval)
        } else {
            aired.thrusted(eval)
        }
    }

    /// Whether the flight is over because the rocket is under the ground
    /// after the arming delay.
    pub open spec fn has_landed(self) -> bool {
        gt(self.time, self.arming_delay) && lt_zero(self.position.y)
    }

    /// Whether the clock is still before `t_max`.
    pub open spec fn is_before(self, t_max: Scalar) -> bool {
        lt(self.time, t_max)
    }
}

} // verus!
