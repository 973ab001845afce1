//! The simulation: the state of the rocket, advanced step by step, and the
//! logs of what it went through.

use vstd::prelude::*;
use crate::arithmetic::{evaluate, lawful, Op};
use crate::constants::{Config, LEAST_AIR_VOLUME, PASCALS_PER_PSI, PI, TWO};
use crate::csv::{document, write_table};
use crate::laws::{
    lemma_run_keeps,
    lemma_spent_stays_spent,
    lemma_step_keeps_rocket,
    lemma_step_settles,
    lemma_water_never_negative,
    same_rocket,
    settled,
};
use crate::logs::{Logs, Sample, Trace};
use crate::physics::gas_dynamics;
use crate::scalar::{
    floor_at,
    ge_zero,
    is_greater_than,
    is_less_than,
    is_negative,
    is_non_positive,
    is_positive,
    le_zero,
    Scalar,
    ZERO,
};
use crate::state::State;

verus! {

/// A simulation as mathematics sees it: the state, and the trace so far.
pub struct Flight {
    pub state: State,
    pub trace: Trace,
}

impl Flight {
    /// The flight at its start: the initial state, and its sample as the
    /// first entry of the trace.
    pub open spec fn launched<F: Fn(Op) -> Scalar>(
        time_steps: Scalar,
        config: Config,
        eval: &F,
    ) -> Flight {
        let state = State::initial(time_steps, config, eval);
        Flight { state, trace: Trace::empty().push(Sample::of(state, eval)) }
    }

    /// The flight with another state.
    pub open spec fn at(self, state: State) -> Flight {
        Flight { state, trace: self.trace }
    }

    /// The flight with the sample of its state at the end of the trace.
    pub open spec fn recorded<F: Fn(Op) -> Scalar>(self, eval: &F) -> Flight {
        Flight { state: self.state, trace: self.trace.push(Sample::of(self.state, eval)) }
    }

    /// The flight one step later: the state stepped, and its sample at the
    /// end of the trace.
    pub open spec fn stepped<F: Fn(Op) -> Scalar>(self, eval: &F) -> Flight {
        self.at(self.state.stepped(eval)).recorded(eval)
    }

    /// The flight after a run of at most `limit` steps towards `t_max`: step
    /// follows step while the clock is before `t_max`, and no step follows
    /// one that ends under the ground after the arming delay.
    pub open spec fn ran<F: Fn(Op) -> Scalar>(self, t_max: Scalar, limit: nat, eval: &F) -> Flight
        decreases limit,
    {
        if limit == 0 || !self.state.is_before(t_max) {
            self
        } else {
            let next = self.stepped(eval);
            if next.state.has_landed() {
                next
            } else {
                next.ran(t_max, (limit - 1) as nat, eval)
            }
        }
    }

    /// The flight `n` steps later.
    pub open spec fn after<F: Fn(Op) -> Scalar>(self, n: nat, eval: &F) -> Flight
        decreases n,
    {
        if n == 0 {
            self
        } else {
            self.after((n - 1) as nat, eval).stepped(eval)
        }
    }

    /// How many samples the logs of this flight can still take.
    pub open spec fn room(self) -> nat {
        (usize::MAX - self.trace.time.len()) as nat
    }
}

/// The simulation of one flight.  It asks `eval` for every calculation.
pub struct Simulation<F> {
    pub eval: F,
    pub state: State,
    pub logs: Logs,
}

impl<F> View for Simulation<F> {
    type V = Flight;

    open spec fn view(&self) -> Flight {
        Flight { state: self.state, trace: self.logs@ }
    }
}

impl<F> Simulation<F> {
    /// Whether this simulation is `before` with its state and logs changed
    /// to `flight`.
    pub open spec fn follows(&self, before: &Self, flight: Flight) -> bool {
        self.eval == before.eval && self@ == flight
    }
}

impl<F: Fn(Op) -> Scalar> Simulation<F> {
    /// The standard rocket at its start, with steps of the length
    /// `time_steps`, which should be above zero: with a step of zero the
    /// clock stands still, with a negative one it runs backwards.
    pub fn new(time_steps: Scalar, eval: F) -> (sim: Self)
        requires
            lawful(&eval),
        ensures
            sim.eval == eval,
            sim@ == Flight::launched(time_steps, Config::standard(), &eval),
            sim@.trace.all_of_length(1),
    {
        Self::with_config(time_steps, Config::default(), eval)
    }

    /// The rocket that `config` describes at its start, with steps of the
    /// length `time_steps`.
    pub fn with_config(time_steps: Scalar, config: Config, eval: F) -> (sim: Self)
        requires
            lawful(&eval),
        ensures
            sim.eval == eval,
            sim@ == Flight::launched(time_steps, config, &eval),
            sim@.trace.all_of_length(1),
    {
        let launching_angle_rad = evaluate(&eval, Op::ToRadians(config.launching_angle_deg));
        let radius = evaluate(&eval, Op::Div(config.nozzle_diameter, TWO));
        let radius_squared = evaluate(&eval, Op::Powi(radius, 2));
        let nozzle_area = evaluate(&eval, Op::Mul(PI, radius_squared));
        let gauge = evaluate(&eval, Op::Mul(config.initial_air_pressure_psi, PASCALS_PER_PSI));
        let pressure = evaluate(&eval, Op::Add(gauge, config.atmospheric_pressure));
        let water_volume = evaluate(
            &eval,
            Op::Div(config.initial_water_mass, config.water_density),
        );
        let rest = evaluate(&eval, Op::Sub(config.bottle_volume, water_volume));
        let air_volume = floor_at(rest, LEAST_AIR_VOLUME);
        let expansion = evaluate(&eval, Op::Powf(air_volume, config.adiabatic_index));
        let polytropic_constant = evaluate(&eval, Op::Mul(pressure, expansion));
        let total_mass = evaluate(&eval, Op::Add(config.initial_water_mass, config.dry_mass));
        let state = State {
            step: time_steps,
            time: ZERO,
            gravity: config.gravity,
            water_density: config.water_density,
            atmospheric_pressure: config.atmospheric_pressure,
            adiabatic_index: config.adiabatic_index,
            position: config.initial_position,
            velocity: config.initial_velocity,
            acceleration: config.initial_acceleration,
            water_mass: config.initial_water_mass,
            dry_mass: config.dry_mass,
            total_mass,
            bottle_volume: config.bottle_volume,
            nozzle_area,
            launching_angle_rad,
            initial_air_pressure_pa: pressure,
            polytropic_constant,
            current_pressure_pa: pressure,
            current_air_volume: air_volume,
            water_volume,
            air_volume,
            discharge_coefficient: config.discharge_coefficient,
            thrust_force: ZERO,
            arming_delay: config.arming_delay,
        };
        let mut sim = Simulation { eval, state, logs: Logs::new() };
        sim.push_logs();
        sim
    }

    /// Runs the flight until the clock reaches `t_max` or the rocket is under
    /// the ground after the arming delay.  The run also ends when the logs
    /// can take no further sample.
    ///
    /// Where the clock is not before `t_max` at the start, nothing changes.
    /// At the end the clock is not before `t_max`, or the rocket is under the
    /// ground after the arming delay, or the logs are full.
    ///
    /// A run is a number of steps, and what holds after each step holds after
    /// the run: the rocket is what it was, the state is settled unless no
    /// step was made, logs of one length have one length, and water that was
    /// not under zero is not under zero.
    pub fn run(&mut self, t_max: Scalar)
        requires
            lawful(&old(self).eval),
        ensures
            final(self).follows(
                old(self),
                old(self)@.ran(t_max, old(self)@.room(), &old(self).eval),
            ),
            !old(self).state.is_before(t_max) ==> final(self)@ == old(self)@,
            !final(self).state.is_before(t_max) || final(self).state.has_landed()
                || final(self)@.trace.time.len() == usize::MAX,
            same_rocket(old(self).state, final(self).state),
            final(self)@ == old(self)@ || settled(final(self).state, &final(self).eval),
            old(self)@.trace.aligned() ==> final(self)@.trace.aligned(),
            ge_zero(old(self).state.water_mass) ==> ge_zero(final(self).state.water_mass),
    {
        proof {
            lemma_run_keeps(old(self)@, t_max, old(self)@.room(), &self.eval);
        }
        let mut flying = true;
        while flying && is_less_than(self.state.time, t_max) && self.logs.time_log.len()
            < usize::MAX
            invariant
                self.eval == old(self).eval,
                lawful(&self.eval),
                flying || self.state.has_landed(),
                old(self)@.ran(t_max, old(self)@.room(), &self.eval) == if flying {
                    self@.ran(t_max, self@.room(), &self.eval)
                } else {
                    self@
                },
            decreases usize::MAX - self.logs.time_log.len(),
        {
            self.step_once();
            if is_greater_than(self.state.time, self.state.arming_delay) && is_negative(
                self.state.position.y,
            ) {
                flying = false;
            }
        }
    }

    /// Advances the flight by one step, and records where it is.
    ///
    /// After the step the total mass is the dry mass and the water mass, the
    /// pressure is that of the polytropic law at a volume of air that is not
    /// under the least volume, and there is no thrust where there is no
    /// water.  Every log is one entry longer.  Water that was not under zero
    /// is not under zero, and water that was gone stays as it was.
    pub fn step_once(&mut self)
        requires
            lawful(&old(self).eval),
        ensures
            final(self).follows(old(self), old(self)@.stepped(&old(self).eval)),
            same_rocket(old(self).state, final(self).state),
            settled(final(self).state, &final(self).eval),
            final(self)@.trace.time.len() == old(self)@.trace.time.len() + 1,
            old(self)@.trace.aligned() ==> final(self)@.trace.aligned(),
            ge_zero(old(self).state.water_mass) ==> ge_zero(final(self).state.water_mass),
            le_zero(old(self).state.water_mass) ==> final(self).state.water_mass == old(
                self,
            ).state.water_mass,
    {
        proof {
            lemma_step_keeps_rocket(old(self).state, &self.eval);
            lemma_step_settles(old(self).state, &self.eval);
            lemma_water_never_negative(old(self).state, &self.eval);
            if le_zero(old(self).state.water_mass) {
                lemma_spent_stays_spent(old(self).state, &self.eval);
            }
        }
        self.update_current_air_volume();
        self.update_current_internal_pressure();

        let delta_p = evaluate(
            &self.eval,
            Op::Sub(self.state.current_pressure_pa, self.state.atmospheric_pressure),
        );
        if is_non_positive(self.state.water_mass) || is_non_positive(delta_p) {
            self.state.thrust_force = ZERO;
            self.update_total_mass(self.state.water_mass);
            self.update_current_acceleration();
            self.update_current_velocity();
            self.update_current_position();
            self.update_time();
            self.push_logs();
            return ;
        }
        let exit_velocity = self.compute_exit_velocity();
        let mass_flow = self.compute_mass_flow(exit_velocity);

        if is_non_positive(mass_flow) || is_non_positive(exit_velocity) {
            self.state.thrust_force = ZERO;
        } else {
            self.update_current_thrust(exit_velocity, mass_flow);
        }

        self.update_total_mass(self.state.water_mass);
        self.update_current_acceleration();
        self.update_current_velocity();
        self.update_current_position();
        self.update_current_water_flow_with(mass_flow);

        self.update_time();
        self.push_logs();
    }

    /// Sets the total mass to that of the rocket and of `new_water_mass` of
    /// water.
    pub fn update_total_mass(&mut self, new_water_mass: Scalar)
        requires
            lawful(&old(self).eval),
        ensures
            final(self).follows(
                old(self),
                old(self)@.at(old(self).state.with_total_mass(new_water_mass, &old(self).eval)),
            ),
    {
        self.state.total_mass = evaluate(&self.eval, Op::Add(self.state.dry_mass, new_water_mass));
    }

    /// Sets the volumes of water and air to what the water mass makes them.
    pub fn update_current_air_volume(&mut self)
        requires
            lawful(&old(self).eval),
        ensures
            final(self).follows(
                old(self),
                old(self)@.at(old(self).state.with_air_volume(&old(self).eval)),
            ),
    {
        let water_volume = evaluate(
            &self.eval,
            Op::Div(self.state.water_mass, self.state.water_density),
        );
        let rest = evaluate(&self.eval, Op::Sub(self.state.bottle_volume, water_volume));
        self.state.current_air_volume = floor_at(rest, LEAST_AIR_VOLUME);
        self.state.water_volume = water_volume;
        self.state.air_volume = self.state.current_air_volume;
    }

    /// Sets the pressure of the air to what the polytropic law makes it at
    /// the current volume.
    pub fn update_current_internal_pressure(&mut self)
        requires
            lawful(&old(self).eval),
        ensures
            final(self).follows(
                old(self),
                old(self)@.at(old(self).state.with_pressure(&old(self).eval)),
            ),
    {
        let expansion = evaluate(
            &self.eval,
            Op::Powf(self.state.current_air_volume, self.state.adiabatic_index),
        );
        self.state.current_pressure_pa = evaluate(
            &self.eval,
            Op::Div(self.state.polytropic_constant, expansion),
        );
    }

    /// The speed of the jet in the current state.
    pub fn compute_exit_velocity(&self) -> (v: Scalar)
        requires
            lawful(&self.eval),
        ensures
            v == self.state.exit_velocity(&self.eval),
    {
        if is_non_positive(self.state.water_mass) {
            return ZERO;
        }
        let dp = evaluate(
            &self.eval,
            Op::Sub(self.state.current_pressure_pa, self.state.atmospheric_pressure),
        );
        if is_non_positive(dp) {
            return ZERO;
        }
        if is_positive(self.state.discharge_coefficient) {
            gas_dynamics::exit_velocity_with_cd(
                self.state.discharge_coefficient,
                self.state.current_pressure_pa,
                self.state.atmospheric_pressure,
                self.state.water_density,
                &self.eval,
            )
        } else {
            gas_dynamics::exit_velocity(
                self.state.current_pressure_pa,
                self.state.atmospheric_pressure,
                self.state.water_density,
                &self.eval,
            )
        }
    }

    /// The mass that a jet of the speed `exit_velocity` carries out per
    /// second in the current state.
    pub fn compute_mass_flow(&self, exit_velocity: Scalar) -> (mdot: Scalar)
        requires
            lawful(&self.eval),
        ensures
            mdot == self.state.mass_flow(exit_velocity, &self.eval),
    {
        if is_non_positive(self.state.water_mass) || is_non_positive(exit_velocity) {
            return ZERO;
        }
        if is_non_positive(self.state.nozzle_area) || is_non_positive(self.state.water_density) {
            return ZERO;
        }
        gas_dynamics::mass_flow_rate(
            exit_velocity,
            self.state.nozzle_area,
            self.state.water_density,
            &self.eval,
        )
    }

    /// Sets the thrust to that of a jet of the speed `exit_velocity` and the
    /// flow `mass_flow`, and to zero where there is no such jet.
    pub fn update_current_thrust(&mut self, exit_velocity: Scalar, mass_flow: Scalar)
        requires
            lawful(&old(self).eval),
        ensures
            final(self).follows(
                old(self),
                old(self)@.at(
                    old(self).state.with_thrust(exit_velocity, mass_flow, &old(self).eval),
                ),
            ),
    {
        if is_non_positive(self.state.water_mass) || is_non_positive(exit_velocity)
            || is_non_positive(mass_flow) || is_non_positive(self.state.nozzle_area) {
            self.state.thrust_force = ZERO;
            return ;
        }
        self.state.thrust_force = gas_dynamics::thrust(
            mass_flow,
            exit_velocity,
            self.state.current_pressure_pa,
            self.state.atmospheric_pressure,
            self.state.nozzle_area,
            &self.eval,
        );
    }

    /// Sets the acceleration to what thrust and gravity give the total mass.
    pub fn update_current_acceleration(&mut self)
        requires
            lawful(&old(self).eval),
        ensures
            final(self).follows(
                old(self),
                old(self)@.at(old(self).state.with_acceleration(&old(self).eval)),
            ),
    {
        let cosine = evaluate(&self.eval, Op::Cos(self.state.launching_angle_rad));
        let along = evaluate(&self.eval, Op::Mul(self.state.thrust_force, cosine));
        let ax = evaluate(&self.eval, Op::Div(along, self.state.total_mass));
        let sine = evaluate(&self.eval, Op::Sin(self.state.launching_angle_rad));
        let upward = evaluate(&self.eval, Op::Mul(self.state.thrust_force, sine));
        let lift = evaluate(&self.eval, Op::Div(upward, self.state.total_mass));
        let ay = evaluate(&self.eval, Op::Sub(lift, self.state.gravity));
        self.state.acceleration.x = ax;
        self.state.acceleration.y = ay;
    }

    /// Moves the velocity one step on, under the current acceleration.
    pub fn update_current_velocity(&mut self)
        requires
            lawful(&old(self).eval),
        ensures
            final(self).follows(
                old(self),
                old(self)@.at(old(self).state.with_velocity(&old(self).eval)),
            ),
    {
        let gained = self.state.acceleration.mul(self.state.step, &self.eval);
        self.state.velocity = self.state.velocity.add(gained, &self.eval);
    }

    /// Moves the position one step on, at the current velocity.
    pub fn update_current_position(&mut self)
        requires
            lawful(&old(self).eval),
        ensures
            final(self).follows(
                old(self),
                old(self)@.at(old(self).state.with_position(&old(self).eval)),
            ),
    {
        let covered = self.state.velocity.mul(self.state.step, &self.eval);
        self.state.position = self.state.position.add(covered, &self.eval);
    }

    /// Takes out the water that the flow `mass_flow` carries off in one step.
    pub fn update_current_water_flow_with(&mut self, mass_flow: Scalar)
        requires
            lawful(&old(self).eval),
        ensures
            final(self).follows(
                old(self),
                old(self)@.at(old(self).state.with_water_flow(mass_flow, &old(self).eval)),
            ),
    {
        let dm = evaluate(&self.eval, Op::Mul(mass_flow, self.state.step));
        let rest = evaluate(&self.eval, Op::Sub(self.state.water_mass, dm));
        self.state.water_mass = floor_at(rest, ZERO);
        self.update_total_mass(self.state.water_mass);
        if is_non_positive(self.state.water_mass) {
            self.state.thrust_force = ZERO;
        }
    }

    /// Takes out the water that the jet of the current state carries off in
    /// one step.
    pub fn update_current_water_flow(&mut self)
        requires
            lawful(&old(self).eval),
        ensures
            final(self).follows(
                old(self),
                old(self)@.at(
                    old(self).state.with_water_flow(
                        old(self).state.mass_flow(
                            old(self).state.exit_velocity(&old(self).eval),
                            &old(self).eval,
                        ),
                        &old(self).eval,
                    ),
                ),
            ),
    {
        let v = self.compute_exit_velocity();
        let m_dot = self.compute_mass_flow(v);
        self.update_current_water_flow_with(m_dot);
    }

    /// Moves the clock one step on.
    pub fn update_time(&mut self)
        requires
            lawful(&old(self).eval),
        ensures
            final(self).follows(
                old(self),
                old(self)@.at(old(self).state.with_time(&old(self).eval)),
            ),
    {
        self.state.time = evaluate(&self.eval, Op::Add(self.state.time, self.state.step));
    }

    /// The logs as a table in text: the byte-order mark, a line of names, and
    /// one line for each sample, with `delimiter` between the columns and six
    /// digits after the point of each number.  The text is the same whenever
    /// the same logs are exported.
    pub fn export_logs_to_csv(&self, delimiter: char) -> (doc: String)
        ensures
            doc@ == document(self@.trace, delimiter),
    {
        write_table(&self.logs, delimiter)
    }

    /// Appends the sample of the current state to the logs.
    pub fn push_logs(&mut self)
        requires
            lawful(&old(self).eval),
        ensures
            final(self).follows(old(self), old(self)@.recorded(&old(self).eval)),
    {
        let sample = Sample::take(&self.state, &self.eval);
        self.logs.push(sample);
    }
}

} // verus!
