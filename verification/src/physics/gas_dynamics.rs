//! The flow of water through the nozzle.

use vstd::prelude::*;
use crate::arithmetic::{answer, evaluate, lawful, Op};
use crate::constants::TWO;
use crate::scalar::{is_non_positive, le_zero, Scalar, ZERO};

verus! {

/// The speed at which water of density `rho` leaves an orifice under the
/// pressure difference `dp`: the square root of `2 * dp / rho`.
pub open spec fn orifice_speed<F: Fn(Op) -> Scalar>(dp: Scalar, rho: Scalar, eval: &F) -> Scalar {
    answer(eval, Op::Sqrt(answer(eval, Op::Div(answer(eval, Op::Mul(TWO, dp)), rho))))
}

/// The speed of the jet out of a vessel at pressure `p_air` into surroundings
/// at pressure `p_atm`: zero unless the pressure inside is the higher one and
/// the density is positive.
pub open spec fn exit_velocity_spec<F: Fn(Op) -> Scalar>(
    p_air: Scalar,
    p_atm: Scalar,
    rho: Scalar,
    eval: &F,
) -> Scalar {
    let dp = answer(eval, Op::Sub(p_air, p_atm));
    if le_zero(dp) || le_zero(rho) {
        ZERO
    } else {
        orifice_speed(dp, rho, eval)
    }
}

/// The speed of the jet with the discharge coefficient `c_d`: `c_d` times the
/// speed out of the orifice, and zero also where `c_d` is not positive.
pub open spec fn exit_velocity_with_cd_spec<F: Fn(Op) -> Scalar>(
    c_d: Scalar,
    p_air: Scalar,
    p_atm: Scalar,
    rho: Scalar,
    eval: &F,
) -> Scalar {
    let dp = answer(eval, Op::Sub(p_air, p_atm));
    if le_zero(c_d) || le_zero(dp) || le_zero(rho) {
        ZERO
    } else {
        answer(eval, Op::Mul(c_d, orifice_speed(dp, rho, eval)))
    }
}

/// The mass that leaves per second: `rho * area * v_exit`.
pub open spec fn mass_flow_rate_spec<F: Fn(Op) -> Scalar>(
    v_exit: Scalar,
    area: Scalar,
    rho: Scalar,
    eval: &F,
) -> Scalar {
    answer(eval, Op::Mul(answer(eval, Op::Mul(rho, area)), v_exit))
}

/// The force of the jet: the momentum that leaves per second, `mdot * v_exit`,
/// and the pressure difference on the nozzle, `(p_air - p_atm) * area`.
pub open spec fn thrust_spec<F: Fn(Op) -> Scalar>(
    mdot: Scalar,
    v_exit: Scalar,
    p_air: Scalar,
    p_atm: Scalar,
    area: Scalar,
    eval: &F,
) -> Scalar {
    answer(
        eval,
        Op::Add(
            answer(eval, Op::Mul(mdot, v_exit)),
            answer(eval, Op::Mul(answer(eval, Op::Sub(p_air, p_atm)), area)),
        ),
    )
}

fn orifice_speed_of<F: Fn(Op) -> Scalar>(dp: Scalar, rho: Scalar, eval: &F) -> (v: Scalar)
    requires
        lawful(eval),
    ensures
        v == orifice_speed(dp, rho, eval),
{
    let twice = evaluate(eval, Op::Mul(TWO, dp));
    let ratio = evaluate(eval, Op::Div(twice, rho));
    evaluate(eval, Op::Sqrt(ratio))
}

/// The speed of the jet by the plain orifice formula.  There is no jet, and
/// the speed is zero, where the pressure inside does not exceed the pressure
/// outside or the density is not positive.
pub fn exit_velocity<F: Fn(Op) -> Scalar>(
    p_air: Scalar,
    p_atm: Scalar,
    rho: Scalar,
    eval: &F,
) -> (v: Scalar)
    requires
        lawful(eval),
    ensures
        v == exit_velocity_spec(p_air, p_atm, rho, eval),
{
    let dp = evaluate(eval, Op::Sub(p_air, p_atm));
    if is_non_positive(dp) || is_non_positive(rho) {
        ZERO
    } else {
        orifice_speed_of(dp, rho, eval)
    }
}

/// The mass flow through the nozzle.  It is the bare product: the caller
/// answers for a jet that exists.
pub fn mass_flow_rate<F: Fn(Op) -> Scalar>(
    v_exit: Scalar,
    area: Scalar,
    rho: Scalar,
    eval: &F,
) -> (mdot: Scalar)
    requires
        lawful(eval),
    ensures
        mdot == mass_flow_rate_spec(v_exit, area, rho, eval),
{
    let per_speed = evaluate(eval, Op::Mul(rho, area));
    evaluate(eval, Op::Mul(per_speed, v_exit))
}

/// The thrust of the jet.  It is the bare formula: the caller answers for a
/// jet that exists.
pub fn thrust<F: Fn(Op) -> Scalar>(
    mdot: Scalar,
    v_exit: Scalar,
    p_air: Scalar,
    p_atm: Scalar,
    area: Scalar,
    eval: &F,
) -> (force: Scalar)
    requires
        lawful(eval),
    ensures
        force == thrust_spec(mdot, v_exit, p_air, p_atm, area, eval),
{
    let momentum = evaluate(eval, Op::Mul(mdot, v_exit));
    let dp = evaluate(eval, Op::Sub(p_air, p_atm));
    let pressure = evaluate(eval, Op::Mul(dp, area));
    evaluate(eval, Op::Add(momentum, pressure))
}

/// The speed of the jet with a discharge coefficient.  It is zero where the
/// coefficient is not positive, and where the plain formula gives zero.
pub fn exit_velocity_with_cd<F: Fn(Op) -> Scalar>(
    c_d: Scalar,
    p_air: Scalar,
    p_atm: Scalar,
    rho: Scalar,
    eval: &F,
) -> (v: Scalar)
    requires
        lawful(eval),
    ensures
        v == exit_velocity_with_cd_spec(c_d, p_air, p_atm, rho, eval),
{
    let dp = evaluate(eval, Op::Sub(p_air, p_atm));
    if is_non_positive(c_d) || is_non_positive(dp) || is_non_positive(rho) {
        ZERO
    } else {
        let ideal = orifice_speed_of(dp, rho, eval);
        evaluate(eval, Op::Mul(c_d, ideal))
    }
}

} // verus!
