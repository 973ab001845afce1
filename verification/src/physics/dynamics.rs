//! Force, mass and acceleration.

use vstd::prelude::*;
use crate::arithmetic::{answer, evaluate, lawful, Op};
use crate::scalar::{exceeds_epsilon, is_far_from_zero, Scalar};

verus! {

/// `dividend / divisor` where the divisor is far enough from zero, and nothing
/// where it is within the machine epsilon of zero or no number.
pub open spec fn safe_quotient<F: Fn(Op) -> Scalar>(
    dividend: Scalar,
    divisor: Scalar,
    eval: &F,
) -> Option<Scalar> {
    if exceeds_epsilon(divisor) {
        Some(answer(eval, Op::Div(dividend, divisor)))
    } else {
        None
    }
}

/// Divides unless the divisor is within the machine epsilon of zero.
pub fn divide_safely<F: Fn(Op) -> Scalar>(
    dividend: Scalar,
    divisor: Scalar,
    eval: &F,
) -> (r: Option<Scalar>)
    requires
        lawful(eval),
    ensures
        r == safe_quotient(dividend, divisor, eval),
{
    if is_far_from_zero(divisor) {
        Some(evaluate(eval, Op::Div(dividend, divisor)))
    } else {
        None
    }
}

/// The force that gives `mass` the `acceleration`: their product.
pub fn force<F: Fn(Op) -> Scalar>(mass: Scalar, acceleration: Scalar, eval: &F) -> (r: Scalar)
    requires
        lawful(eval),
    ensures
        r == answer(eval, Op::Mul(mass, acceleration)),
{
    evaluate(eval, Op::Mul(mass, acceleration))
}

/// The acceleration that `force` gives `mass`: `force / mass`, and nothing
/// where the mass is within the machine epsilon of zero.
pub fn acceleration_from_force<F: Fn(Op) -> Scalar>(
    force: Scalar,
    mass: Scalar,
    eval: &F,
) -> (r: Option<Scalar>)
    requires
        lawful(eval),
    ensures
        r == safe_quotient(force, mass, eval),
{
    divide_safely(force, mass, eval)
}

/// The mass to which `force` gives the `acceleration`: `force / acceleration`,
/// and nothing where the acceleration is within the machine epsilon of zero.
pub fn mass_from<F: Fn(Op) -> Scalar>(
    force: Scalar,
    acceleration: Scalar,
    eval: &F,
) -> (r: Option<Scalar>)
    requires
        lawful(eval),
    ensures
        r == safe_quotient(force, acceleration, eval),
{
    divide_safely(force, acceleration, eval)
}

} // verus!
