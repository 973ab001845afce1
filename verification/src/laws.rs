//! What holds of every flight, whatever the evaluator answers.

use vstd::prelude::*;
use crate::arithmetic::{answer, Op};
use crate::constants::{Config, LEAST_AIR_VOLUME};
use crate::scalar::{ge_zero, gt, is_nan, le_zero, lt, lt_zero, Scalar, ZERO};
use crate::simulation::Flight;
use crate::state::State;

verus! {

/// A step changes nothing of what the rocket is made of: the length of the
/// step, the constants of the surroundings, the dry mass, the bottle and the
/// nozzle, the launching angle, the polytropic constant, the discharge
/// coefficient and the arming delay stay as they are.
pub open spec fn same_rocket(a: State, b: State) -> bool {
    &&& a.step == b.step
    &&& a.gravity == b.gravity
    &&& a.water_density == b.water_density
    &&& a.atmospheric_pressure == b.atmospheric_pressure
    &&& a.adiabatic_index == b.adiabatic_index
    &&& a.dry_mass == b.dry_mass
    &&& a.bottle_volume == b.bottle_volume
    &&& a.nozzle_area == b.nozzle_area
    &&& a.launching_angle_rad == b.launching_angle_rad
    &&& a.initial_air_pressure_pa == b.initial_air_pressure_pa
    &&& a.polytropic_constant == b.polytropic_constant
    &&& a.discharge_coefficient == b.discharge_coefficient
    &&& a.arming_delay == b.arming_delay
}

/// After a step the masses agree, the air is at the pressure of the
/// polytropic law, and there is no thrust without water.
pub open spec fn settled<F: Fn(Op) -> Scalar>(s: State, eval: &F) -> bool {
    &&& s.total_mass == answer(eval, Op::Add(s.dry_mass, s.water_mass))
    &&& s.current_pressure_pa == s.polytropic_pressure(s.current_air_volume, eval)
    &&& !lt(s.current_air_volume, LEAST_AIR_VOLUME)
    &&& !is_nan(s.current_air_volume)
    &&& s.air_volume == s.current_air_volume
    &&& le_zero(s.water_mass) ==> s.thrust_force == ZERO
}

/// A step leaves the rocket what it is.
pub proof fn lemma_step_keeps_rocket<F: Fn(Op) -> Scalar>(s: State, eval: &F)
    ensures
        same_rocket(s, s.stepped(eval)),
{
}

/// Immediately after each step the total mass is the sum of the dry mass and
/// the water mass.
pub proof fn lemma_total_mass_after_step<F: Fn(Op) -> Scalar>(s: State, eval: &F)
    ensures
        s.stepped(eval).total_mass == answer(
            eval,
            Op::Add(s.stepped(eval).dry_mass, s.stepped(eval).water_mass),
        ),
{
}

/// Water that is not under zero before a step is not under zero after it, and
/// a step that takes water out leaves zero or more.
pub proof fn lemma_water_never_negative<F: Fn(Op) -> Scalar>(s: State, eval: &F)
    ensures
        ge_zero(s.water_mass) ==> ge_zero(s.stepped(eval).water_mass),
        s.stepped(eval).water_mass == s.water_mass || ge_zero(s.stepped(eval).water_mass),
{
}

/// The evaluator keeps to the order of the numbers as doubles do: a product
/// of two numbers that are not negative is not negative, and a number less
/// one that is not negative is not greater than the number.
pub open spec fn orderly<F: Fn(Op) -> Scalar>(eval: &F) -> bool {
    &&& forall|a: Scalar, b: Scalar|
        !lt_zero(a) && !lt_zero(b) ==> !lt_zero(#[trigger] answer(eval, Op::Mul(a, b)))
    &&& forall|a: Scalar, b: Scalar|
        !lt_zero(b) ==> !gt(#[trigger] answer(eval, Op::Sub(a, b)), a)
}

/// With an evaluator that keeps to the order of the numbers, and steps that
/// are not negative, a step does not add to water that is not negative.
pub proof fn lemma_water_never_rises<F: Fn(Op) -> Scalar>(s: State, eval: &F)
    requires
        orderly(eval),
        !lt_zero(s.step),
        !lt_zero(s.water_mass),
    ensures
        !gt(s.stepped(eval).water_mass, s.water_mass),
{
    let aired = s.with_air(eval);
    if !aired.is_spent(eval) {
        let v = aired.exit_velocity(eval);
        let m = aired.mass_flow(v, eval);
        assert(!lt_zero(m)) by {
            if aired.has_flow(v) {
                assert(!lt_zero(answer(eval, Op::Mul(aired.water_density, aired.nozzle_area))));
            }
        }
        assert(!lt_zero(answer(eval, Op::Mul(m, s.step))));
    }
}

/// A step that ends without water ends without thrust.
pub proof fn lemma_no_water_no_thrust<F: Fn(Op) -> Scalar>(s: State, eval: &F)
    ensures
        le_zero(s.stepped(eval).water_mass) ==> s.stepped(eval).thrust_force == ZERO,
{
}

/// A step that begins without water changes nothing of the water, and ends
/// without thrust.
pub proof fn lemma_spent_stays_spent<F: Fn(Op) -> Scalar>(s: State, eval: &F)
    requires
        le_zero(s.water_mass),
    ensures
        s.stepped(eval).water_mass == s.water_mass,
        s.stepped(eval).thrust_force == ZERO,
{
}

/// After each step the pressure of the air is the polytropic constant over
/// the volume of the air to the power of the adiabatic index, and that volume
/// is not under the least volume.
pub proof fn lemma_pressure_after_step<F: Fn(Op) -> Scalar>(s: State, eval: &F)
    ensures
        s.stepped(eval).current_pressure_pa == answer(
            eval,
            Op::Div(
                s.stepped(eval).polytropic_constant,
                answer(
                    eval,
                    Op::Powf(s.stepped(eval).current_air_volume, s.stepped(eval).adiabatic_index),
                ),
            ),
        ),
        !is_nan(s.stepped(eval).current_air_volume),
        !lt(s.stepped(eval).current_air_volume, LEAST_AIR_VOLUME),
{
}

/// Every step settles the state.
pub proof fn lemma_step_settles<F: Fn(Op) -> Scalar>(s: State, eval: &F)
    ensures
        settled(s.stepped(eval), eval),
{
}

/// What any number of steps keeps.  The rocket stays what it is.  After one
/// step or more the state is settled.  The logs have one entry more for each
/// step, and logs of one length have one length.  Water that was not under
/// zero is not under zero.  Where there was no water, the water stays as it
/// was, and no step gives thrust.
pub proof fn lemma_after<F: Fn(Op) -> Scalar>(flight: Flight, n: nat, eval: &F)
    ensures
        same_rocket(flight.state, flight.after(n, eval).state),
        n > 0 ==> settled(flight.after(n, eval).state, eval),
        flight.after(n, eval).trace.time.len() == flight.trace.time.len() + n,
        flight.trace.aligned() ==> flight.after(n, eval).trace.aligned(),
        ge_zero(flight.state.water_mass) ==> ge_zero(flight.after(n, eval).state.water_mass),
        le_zero(flight.state.water_mass) ==> flight.after(n, eval).state.water_mass
            == flight.state.water_mass,
        le_zero(flight.state.water_mass) && n > 0 ==> flight.after(n, eval).state.thrust_force
            == ZERO,
    decreases n,
{
    if n > 0 {
        let before = flight.after((n - 1) as nat, eval);
        lemma_after(flight, (n - 1) as nat, eval);
        lemma_step_settles(before.state, eval);
        lemma_water_never_negative(before.state, eval);
        lemma_step_keeps_rocket(before.state, eval);
        if le_zero(flight.state.water_mass) {
            lemma_spent_stays_spent(before.state, eval);
        }
    }
}

/// Once a step has ended without water, no later step gives thrust or water:
/// from there on the thrust is zero and the water mass is what it was.
pub proof fn lemma_burnout_is_final<F: Fn(Op) -> Scalar>(flight: Flight, n: nat, eval: &F)
    requires
        le_zero(flight.stepped(eval).state.water_mass),
    ensures
        flight.stepped(eval).after(n, eval).state.thrust_force == ZERO,
        flight.stepped(eval).after(n, eval).state.water_mass == flight.stepped(
            eval,
        ).state.water_mass,
{
    lemma_no_water_no_thrust(flight.state, eval);
    lemma_after(flight.stepped(eval), n, eval);
}

/// At the launch all logs have one entry, and every step adds one entry to
/// each of them: after `n` steps all logs have the length `n + 1`.
pub proof fn lemma_logs_stay_aligned<F: Fn(Op) -> Scalar>(
    time_steps: Scalar,
    config: Config,
    n: nat,
    eval: &F,
)
    ensures
        Flight::launched(time_steps, config, eval).after(n, eval).trace.all_of_length(n + 1),
{
    let start = Flight::launched(time_steps, config, eval);
    assert(start.trace.aligned());
    lemma_after(start, n, eval);
}

/// What a run is, step by step: no step where the limit is zero or the clock
/// is not before `t_max`; else one step, and after it, unless it ends under
/// the ground after the arming delay, a run with a limit one lower.
pub proof fn lemma_run_unfolds<F: Fn(Op) -> Scalar>(
    flight: Flight,
    t_max: Scalar,
    limit: nat,
    eval: &F,
)
    ensures
        limit == 0 || !flight.state.is_before(t_max) ==> flight.ran(t_max, limit, eval) == flight,
        limit > 0 && flight.state.is_before(t_max) && flight.stepped(eval).state.has_landed()
            ==> flight.ran(t_max, limit, eval) == flight.stepped(eval),
        limit > 0 && flight.state.is_before(t_max) && !flight.stepped(eval).state.has_landed()
            ==> flight.ran(t_max, limit, eval) == flight.stepped(eval).ran(
            t_max,
            (limit - 1) as nat,
            eval,
        ),
{
}

/// What a number of steps is: none leaves the flight as it is, and `n + 1`
/// steps are one step after `n` steps.
pub proof fn lemma_after_unfolds<F: Fn(Op) -> Scalar>(flight: Flight, n: nat, eval: &F)
    ensures
        flight.after(0, eval) == flight,
        flight.after(n + 1, eval) == flight.after(n, eval).stepped(eval),
{
}

/// A run is a number of steps: at most `limit` of them.
pub proof fn lemma_run_is_steps<F: Fn(Op) -> Scalar>(
    flight: Flight,
    t_max: Scalar,
    limit: nat,
    eval: &F,
) -> (n: nat)
    ensures
        n <= limit,
        flight.ran(t_max, limit, eval) == flight.after(n, eval),
    decreases limit,
{
    if limit == 0 || !flight.state.is_before(t_max) {
        0
    } else {
        let next = flight.stepped(eval);
        if next.state.has_landed() {
            assert(flight.after(1, eval) == flight.after(0, eval).stepped(eval));
            1
        } else {
            let m = lemma_run_is_steps(next, t_max, (limit - 1) as nat, eval);
            lemma_after_first(flight, m, eval);
            m + 1
        }
    }
}

/// `n` steps after one step are `n + 1` steps.
pub proof fn lemma_after_first<F: Fn(Op) -> Scalar>(flight: Flight, n: nat, eval: &F)
    ensures
        flight.stepped(eval).after(n, eval) == flight.after(n + 1, eval),
    decreases n,
{
    if n == 0 {
        assert(flight.after(1, eval) == flight.after(0, eval).stepped(eval));
    } else {
        lemma_after_first(flight, (n - 1) as nat, eval);
    }
}

/// What holds after every step holds after every run that made a step, and
/// a run leaves aligned logs aligned.
pub proof fn lemma_run_keeps<F: Fn(Op) -> Scalar>(
    flight: Flight,
    t_max: Scalar,
    limit: nat,
    eval: &F,
)
    ensures
        same_rocket(flight.state, flight.ran(t_max, limit, eval).state),
        flight.ran(t_max, limit, eval) == flight || settled(
            flight.ran(t_max, limit, eval).state,
            eval,
        ),
        flight.trace.aligned() ==> flight.ran(t_max, limit, eval).trace.aligned(),
        ge_zero(flight.state.water_mass) ==> ge_zero(
            flight.ran(t_max, limit, eval).state.water_mass,
        ),
{
    let n = lemma_run_is_steps(flight, t_max, limit, eval);
    lemma_after(flight, n, eval);
}

/// A run ends where the clock is no longer before `t_max`, or under the
/// ground after the arming delay, or where the limit of steps is used up.
pub proof fn lemma_run_ends<F: Fn(Op) -> Scalar>(
    flight: Flight,
    t_max: Scalar,
    limit: nat,
    eval: &F,
)
    ensures
        !flight.ran(t_max, limit, eval).state.is_before(t_max) || flight.ran(
            t_max,
            limit,
            eval,
        ).state.has_landed() || flight.ran(t_max, limit, eval).trace.time.len()
            == flight.trace.time.len() + limit,
    decreases limit,
{
    if limit == 0 || !flight.state.is_before(t_max) {
    } else {
        let next = flight.stepped(eval);
        if !next.state.has_landed() {
            lemma_run_ends(next, t_max, (limit - 1) as nat, eval);
        }
    }
}

} // verus!
