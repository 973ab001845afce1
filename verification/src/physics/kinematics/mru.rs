//! Motion at a constant speed.

use vstd::prelude::*;
use crate::arithmetic::{answer, evaluate, lawful, Op};
use crate::physics::dynamics::{divide_safely, safe_quotient};
use crate::scalar::Scalar;

verus! {

/// Where a body that starts at `x0` is after the time `t` at the speed `v`:
/// `x0 + v * t`.
pub fn position<F: Fn(Op) -> Scalar>(x0: Scalar, v: Scalar, t: Scalar, eval: &F) -> (r: Scalar)
    requires
        lawful(eval),
    ensures
        r == answer(eval, Op::Add(x0, answer(eval, Op::Mul(v, t)))),
{
    let way = evaluate(eval, Op::Mul(v, t));
    evaluate(eval, Op::Add(x0, way))
}

/// The speed that covers `displacement` in `time`: their quotient, and nothing
/// where the time is within the machine epsilon of zero.
pub fn velocity<F: Fn(Op) -> Scalar>(
    displacement: Scalar,
    time: Scalar,
    eval: &F,
) -> (r: Option<Scalar>)
    requires
        lawful(eval),
    ensures
        r == safe_quotient(displacement, time, eval),
{
    divide_safely(displacement, time, eval)
}

/// The way covered in the time `t` at the speed `v`: `v * t`.
pub fn displacement<F: Fn(Op) -> Scalar>(v: Scalar, t: Scalar, eval: &F) -> (r: Scalar)
    requires
        lawful(eval),
    ensures
        r == answer(eval, Op::Mul(v, t)),
{
    evaluate(eval, Op::Mul(v, t))
}

/// The time that `displacement` takes at `velocity`: their quotient, and
/// nothing where the velocity is within the machine epsilon of zero.
pub fn time<F: Fn(Op) -> Scalar>(
    displacement: Scalar,
    velocity: Scalar,
    eval: &F,
) -> (r: Option<Scalar>)
    requires
        lawful(eval),
    ensures
        r == safe_quotient(displacement, velocity, eval),
{
    divide_safely(displacement, velocity, eval)
}

} // verus!
