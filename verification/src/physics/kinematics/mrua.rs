//! Motion at a constant acceleration.

use vstd::prelude::*;
use crate::arithmetic::{answer, evaluate, lawful, Op};
use crate::constants::HALF;
use crate::physics::dynamics::{divide_safely, safe_quotient};
use crate::scalar::Scalar;

verus! {

/// The way that the acceleration `a` adds in the time `t`: `0.5 * a * t * t`,
/// multiplied from the left.
pub open spec fn accelerated_way<F: Fn(Op) -> Scalar>(a: Scalar, t: Scalar, eval: &F) -> Scalar {
    answer(eval, Op::Mul(answer(eval, Op::Mul(answer(eval, Op::Mul(HALF, a)), t)), t))
}

/// The way covered in the time `t` from the speed `v0` under the acceleration
/// `a`: `v0 * t + 0.5 * a * t * t`.
pub open spec fn displacement_spec<F: Fn(Op) -> Scalar>(
    v0: Scalar,
    t: Scalar,
    a: Scalar,
    eval: &F,
) -> Scalar {
    answer(eval, Op::Add(answer(eval, Op::Mul(v0, t)), accelerated_way(a, t, eval)))
}

/// Where a body that starts at `x0` with the speed `v0` is after the time `t`
/// under the acceleration `a`: `x0 + v0 * t + 0.5 * a * t * t`, added from the
/// left.
pub open spec fn position_spec<F: Fn(Op) -> Scalar>(
    x0: Scalar,
    v0: Scalar,
    a: Scalar,
    t: Scalar,
    eval: &F,
) -> Scalar {
    answer(
        eval,
        Op::Add(
            answer(eval, Op::Add(x0, answer(eval, Op::Mul(v0, t)))),
            accelerated_way(a, t, eval),
        ),
    )
}

fn accelerated_way_of<F: Fn(Op) -> Scalar>(a: Scalar, t: Scalar, eval: &F) -> (r: Scalar)
    requires
        lawful(eval),
    ensures
        r == accelerated_way(a, t, eval),
{
    let half = evaluate(eval, Op::Mul(HALF, a));
    let once = evaluate(eval, Op::Mul(half, t));
    evaluate(eval, Op::Mul(once, t))
}

/// Where the body is after the time `t`.
pub fn position<F: Fn(Op) -> Scalar>(
    x0: Scalar,
    v0: Scalar,
    a: Scalar,
    t: Scalar,
    eval: &F,
) -> (r: Scalar)
    requires
        lawful(eval),
    ensures
        r == position_spec(x0, v0, a, t, eval),
{
    let steady = evaluate(eval, Op::Mul(v0, t));
    let reached = evaluate(eval, Op::Add(x0, steady));
    let gained = accelerated_way_of(a, t, eval);
    evaluate(eval, Op::Add(reached, gained))
}

/// The speed after the time `t` from the speed `v0` under the acceleration
/// `a`: `v0 + a * t`.
pub fn final_velocity<F: Fn(Op) -> Scalar>(
    v0: Scalar,
    a: Scalar,
    t: Scalar,
    eval: &F,
) -> (r: Scalar)
    requires
        lawful(eval),
    ensures
        r == answer(eval, Op::Add(v0, answer(eval, Op::Mul(a, t)))),
{
    let gained = evaluate(eval, Op::Mul(a, t));
    evaluate(eval, Op::Add(v0, gained))
}

/// The way that the body covers in the time `t`.
pub fn displacement<F: Fn(Op) -> Scalar>(v0: Scalar, t: Scalar, a: Scalar, eval: &F) -> (r: Scalar)
    requires
        lawful(eval),
    ensures
        r == displacement_spec(v0, t, a, eval),
{
    let steady = evaluate(eval, Op::Mul(v0, t));
    let gained = accelerated_way_of(a, t, eval);
    evaluate(eval, Op::Add(steady, gained))
}

/// The acceleration that changes the speed from `v0` to `vf` in the time `t`:
/// `(vf - v0) / t`, and nothing where the time is within the machine epsilon
/// of zero.
pub fn acceleration_from<F: Fn(Op) -> Scalar>(
    vf: Scalar,
    v0: Scalar,
    t: Scalar,
    eval: &F,
) -> (r: Option<Scalar>)
    requires
        lawful(eval),
    ensures
        r == safe_quotient(answer(eval, Op::Sub(vf, v0)), t, eval),
{
    let change = evaluate(eval, Op::Sub(vf, v0));
    divide_safely(change, t, eval)
}

} // verus!
