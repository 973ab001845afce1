//! The time series that a run leaves behind.

use vstd::prelude::*;
use crate::arithmetic::{lawful, Op};
use crate::scalar::Scalar;
use crate::state::State;

verus! {

/// What is recorded of one moment, in the order of the columns.
#[derive(Clone, Copy, Debug, PartialEq, Eq, Structural)]
pub struct Sample {
    pub time: Scalar,
    pub x: Scalar,
    pub y: Scalar,
    pub x_velocity: Scalar,
    pub y_velocity: Scalar,
    pub velocity_magnitude: Scalar,
    pub x_acceleration: Scalar,
    pub y_acceleration: Scalar,
    pub acceleration_magnitude: Scalar,
    pub water_mass: Scalar,
    pub total_mass: Scalar,
    pub thrust: Scalar,
    pub pressure: Scalar,
}

impl Sample {
    /// What is recorded of `state`: its time, position, velocity and
    /// acceleration with the lengths of the latter two, its masses, its
    /// thrust and the absolute pressure of its air.
    pub open spec fn of<F: Fn(Op) -> Scalar>(state: State, eval: &F) -> Sample {
        Sample {
            time: state.time,
            x: state.position.x,
            y: state.position.y,
            x_velocity: state.velocity.x,
            y_velocity: state.velocity.y,
            velocity_magnitude: state.velocity.length_spec(eval),
            x_acceleration: state.acceleration.x,
            y_acceleration: state.acceleration.y,
            acceleration_magnitude: state.acceleration.length_spec(eval),
            water_mass: state.water_mass,
            total_mass: state.total_mass,
            thrust: state.thrust_force,
            pressure: state.current_pressure_pa,
        }
    }

    /// Takes the sample of `state`.
    pub fn take<F: Fn(Op) -> Scalar>(state: &State, eval: &F) -> (sample: Sample)
        requires
            lawful(eval),
        ensures
            sample == Sample::of(*state, eval),
    {
        Sample {
            time: state.time,
            x: state.position.x,
            y: state.position.y,
            x_velocity: state.velocity.x,
            y_velocity: state.velocity.y,
            velocity_magnitude: state.velocity.magnitude(eval),
            x_acceleration: state.acceleration.x,
            y_acceleration: state.acceleration.y,
            acceleration_magnitude: state.acceleration.magnitude(eval),
            water_mass: state.water_mass,
            total_mass: state.total_mass,
            thrust: state.thrust_force,
            pressure: state.current_pressure_pa,
        }
    }
}

/// The logs as mathematics sees them: one sequence for each quantity.
pub struct Trace {
    pub x: Seq<Scalar>,
    pub y: Seq<Scalar>,
    pub x_velocity: Seq<Scalar>,
    pub y_velocity: Seq<Scalar>,
    pub velocity_magnitude: Seq<Scalar>,
    pub x_acceleration: Seq<Scalar>,
    pub y_acceleration: Seq<Scalar>,
    pub acceleration_magnitude: Seq<Scalar>,
    pub time: Seq<Scalar>,
    pub water_mass: Seq<Scalar>,
    pub total_mass: Seq<Scalar>,
    pub thrust: Seq<Scalar>,
    pub pressure: Seq<Scalar>,
}

/// The smaller of two lengths.
pub open spec fn lesser(a: nat, b: nat) -> nat {
    if a <= b {
        a
    } else {
        b
    }
}

impl Trace {
    /// The trace with nothing in it.
    pub open spec fn empty() -> Trace {
        Trace {
            x: Seq::empty(),
            y: Seq::empty(),
            x_velocity: Seq::empty(),
            y_velocity: Seq::empty(),
            velocity_magnitude: Seq::empty(),
            x_acceleration: Seq::empty(),
            y_acceleration: Seq::empty(),
            acceleration_magnitude: Seq::empty(),
            time: Seq::empty(),
            water_mass: Seq::empty(),
            total_mass: Seq::empty(),
            thrust: Seq::empty(),
            pressure: Seq::empty(),
        }
    }

    /// The trace with `sample` at the end of every sequence.
    pub open spec fn push(self, sample: Sample) -> Trace {
        Trace {
            x: self.x.push(sample.x),
            y: self.y.push(sample.y),
            x_velocity: self.x_velocity.push(sample.x_velocity),
            y_velocity: self.y_velocity.push(sample.y_velocity),
            velocity_magnitude: self.velocity_magnitude.push(sample.velocity_magnitude),
            x_acceleration: self.x_acceleration.push(sample.x_acceleration),
            y_acceleration: self.y_acceleration.push(sample.y_acceleration),
            acceleration_magnitude: self.acceleration_magnitude.push(
                sample.acceleration_magnitude,
            ),
            time: self.time.push(sample.time),
            water_mass: self.water_mass.push(sample.water_mass),
            total_mass: self.total_mass.push(sample.total_mass),
            thrust: self.thrust.push(sample.thrust),
            pressure: self.pressure.push(sample.pressure),
        }
    }

    /// Whether every sequence has the length `n`.
    pub open spec fn all_of_length(self, n: nat) -> bool {
        &&& self.x.len() == n
        &&& self.y.len() == n
        &&& self.x_velocity.len() == n
        &&& self.y_velocity.len() == n
        &&& self.velocity_magnitude.len() == n
        &&& self.x_acceleration.len() == n
        &&& self.y_acceleration.len() == n
        &&& self.acceleration_magnitude.len() == n
        &&& self.time.len() == n
        &&& self.water_mass.len() == n
        &&& self.total_mass.len() == n
        &&& self.thrust.len() == n
        &&& self.pressure.len() == n
    }

    /// Whether all sequences have one length: each holds a value for every
    /// moment that was recorded.
    pub open spec fn aligned(self) -> bool {
        self.all_of_length(self.time.len())
    }

    /// The length of the shortest sequence: the number of moments of which
    /// every quantity is known.
    pub open spec fn common_len(self) -> nat {
        lesser(
            lesser(
                lesser(
                    lesser(lesser(self.time.len(), self.x.len()), self.y.len()),
                    lesser(self.x_velocity.len(), self.y_velocity.len()),
                ),
                lesser(
                    lesser(self.velocity_magnitude.len(), self.x_acceleration.len()),
                    lesser(self.y_acceleration.len(), self.acceleration_magnitude.len()),
                ),
            ),
            lesser(
                lesser(self.water_mass.len(), self.total_mass.len()),
                lesser(self.thrust.len(), self.pressure.len()),
            ),
        )
    }

    /// What was recorded of the moment `i`.
    pub open spec fn row(self, i: int) -> Sample {
        Sample {
            time: self.time[i],
            x: self.x[i],
            y: self.y[i],
            x_velocity: self.x_velocity[i],
            y_velocity: self.y_velocity[i],
            velocity_magnitude: self.velocity_magnitude[i],
            x_acceleration: self.x_acceleration[i],
            y_acceleration: self.y_acceleration[i],
            acceleration_magnitude: self.acceleration_magnitude[i],
            water_mass: self.water_mass[i],
            total_mass: self.total_mass[i],
            thrust: self.thrust[i],
            pressure: self.pressure[i],
        }
    }
}

/// One growing sequence for each recorded quantity, in the order of time.
pub struct Logs {
    pub x_log: Vec<Scalar>,
    pub y_log: Vec<Scalar>,
    pub x_velocity_log: Vec<Scalar>,
    pub y_velocity_log: Vec<Scalar>,
    pub velocity_magnitur_log: Vec<Scalar>,
    pub x_acceleration_log: Vec<Scalar>,
    pub y_acceleration_log: Vec<Scalar>,
    pub acceleration_magnitur_log: Vec<Scalar>,
    pub time_log: Vec<Scalar>,
    pub water_mass_log: Vec<Scalar>,
    pub mass_log: Vec<Scalar>,
    pub thrust_log: Vec<Scalar>,
    pub pressure_log: Vec<Scalar>,
}

impl View for Logs {
    type V = Trace;

    open spec fn view(&self) -> Trace {
        Trace {
            x: self.x_log@,
            y: self.y_log@,
            x_velocity: self.x_velocity_log@,
            y_velocity: self.y_velocity_log@,
            velocity_magnitude: self.velocity_magnitur_log@,
            x_acceleration: self.x_acceleration_log@,
            y_acceleration: self.y_acceleration_log@,
            acceleration_magnitude: self.acceleration_magnitur_log@,
            time: self.time_log@,
            water_mass: self.water_mass_log@,
            total_mass: self.mass_log@,
            thrust: self.thrust_log@,
            pressure: self.pressure_log@,
        }
    }
}

fn smaller(a: usize, b: usize) -> (r: usize)
    ensures
        r == lesser(a as nat, b as nat),
{
    if a <= b {
        a
    } else {
        b
    }
}

impl Logs {
    /// Logs with nothing in them.
    pub fn new() -> (logs: Logs)
        ensures
            logs@ == Trace::empty(),
    {
        Logs {
            x_log: Vec::new(),
            y_log: Vec::new(),
            x_velocity_log: Vec::new(),
            y_velocity_log: Vec::new(),
            velocity_magnitur_log: Vec::new(),
            x_acceleration_log: Vec::new(),
            y_acceleration_log: Vec::new(),
            acceleration_magnitur_log: Vec::new(),
            time_log: Vec::new(),
            water_mass_log: Vec::new(),
            mass_log: Vec::new(),
            thrust_log: Vec::new(),
            pressure_log: Vec::new(),
        }
    }

    /// Appends `sample`: one value to every log.
    pub fn push(&mut self, sample: Sample)
        ensures
            final(self)@ == old(self)@.push(sample),
    {
        self.x_log.push(sample.x);
        self.y_log.push(sample.y);
        self.x_velocity_log.push(sample.x_velocity);
        self.y_velocity_log.push(sample.y_velocity);
        self.velocity_magnitur_log.push(sample.velocity_magnitude);
        self.x_acceleration_log.push(sample.x_acceleration);
        self.y_acceleration_log.push(sample.y_acceleration);
        self.acceleration_magnitur_log.push(sample.acceleration_magnitude);
        self.time_log.push(sample.time);
        self.water_mass_log.push(sample.water_mass);
        self.mass_log.push(sample.total_mass);
        self.thrust_log.push(sample.thrust);
        self.pressure_log.push(sample.pressure);
    }

    /// The number of moments of which every quantity is known: the length of
    /// the shortest log.
    pub fn common_len(&self) -> (n: usize)
        ensures
            n == self@.common_len(),
    {
        let positions: usize = smaller(
            smaller(self.time_log.len(), self.x_log.len()),
            self.y_log.len(),
        );
        let velocities: usize = smaller(self.x_velocity_log.len(), self.y_velocity_log.len());
        let first: usize = smaller(
            self.velocity_magnitur_log.len(),
            self.x_acceleration_log.len(),
        );
        let second: usize = smaller(
            self.y_acceleration_log.len(),
            self.acceleration_magnitur_log.len(),
        );
        let masses: usize = smaller(self.water_mass_log.len(), self.mass_log.len());
        let forces: usize = smaller(self.thrust_log.len(), self.pressure_log.len());
        smaller(
            smaller(smaller(positions, velocities), smaller(first, second)),
            smaller(masses, forces),
        )
    }

    /// What was recorded of the moment `i`.
    pub fn row(&self, i: usize) -> (sample: Sample)
        requires
            i < self@.common_len(),
        ensures
            sample == self@.row(i as int),
    {
        Sample {
            time: self.time_log[i],
            x: self.x_log[i],
            y: self.y_log[i],
            x_velocity: self.x_velocity_log[i],
            y_velocity: self.y_velocity_log[i],
            velocity_magnitude: self.velocity_magnitur_log[i],
            x_acceleration: self.x_acceleration_log[i],
            y_acceleration: self.y_acceleration_log[i],
            acceleration_magnitude: self.acceleration_magnitur_log[i],
            water_mass: self.water_mass_log[i],
            total_mass: self.mass_log[i],
            thrust: self.thrust_log[i],
            pressure: self.pressure_log[i],
        }
    }
}

/// A sample more keeps the logs aligned, and makes each of them one longer.
pub proof fn lemma_push_keeps_aligned(trace: Trace, sample: Sample)
    requires
        trace.aligned(),
    ensures
        trace.push(sample).aligned(),
        trace.push(sample).common_len() == trace.common_len() + 1,
        trace.push(sample).time.len() == trace.time.len() + 1,
        trace.push(sample).row(trace.time.len() as int) == sample,
        forall|i: int| 0 <= i < trace.time.len() ==> trace.push(sample).row(i) == trace.row(i),
{
}

} // verus!
