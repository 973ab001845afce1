//! The calculations that the model asks of its caller.
//!
//! The library holds numbers as bit patterns and never calculates with them.
//! Each calculation is an [`Op`], handed to an evaluator: a function from `Op`
//! to [`Scalar`].  The library's contracts speak of the evaluator's answers by
//! [`answer`]; they hold for every evaluator that is [`lawful`].

use vstd::prelude::*;
use crate::scalar::Scalar;

verus! {

/// One calculation on doubles.
#[derive(Clone, Copy, PartialEq, Eq, Structural, Debug)]
pub enum Op {
    /// `a + b`
    Add(Scalar, Scalar),
    /// `a - b`
    Sub(Scalar, Scalar),
    /// `a * b`
    Mul(Scalar, Scalar),
    /// `a / b`
    Div(Scalar, Scalar),
    /// The square root of `a`.
    Sqrt(Scalar),
    /// `a` to the power of the number `b`.
    Powf(Scalar, Scalar),
    /// `a` to the power of the integer `n`.
    Powi(Scalar, i32),
    /// The cosine of the angle `a`, in radians.
    Cos(Scalar),
    /// The sine of the angle `a`, in radians.
    Sin(Scalar),
    /// The length of the hypotenuse over the legs `a` and `b`.
    Hypot(Scalar, Scalar),
    /// The angle `a`, given in degrees, in radians.
    ToRadians(Scalar),
}

/// What the evaluator answers to `op`.
pub open spec fn answer<F: Fn(Op) -> Scalar>(eval: &F, op: Op) -> Scalar {
    choose|r: Scalar| eval.ensures((op,), r)
}

/// The evaluator accepts every calculation, and answers the same calculation
/// in the same way whenever it is asked.
pub open spec fn lawful<F: Fn(Op) -> Scalar>(eval: &F) -> bool {
    &&& forall|op: Op| #[trigger] eval.requires((op,))
    &&& forall|op: Op, r: Scalar| #[trigger] eval.ensures((op,), r) ==> r == answer(eval, op)
}

/// Asks the evaluator.
pub fn evaluate<F: Fn(Op) -> Scalar>(eval: &F, op: Op) -> (r: Scalar)
    requires
        lawful(eval),
    ensures
        r == answer(eval, op),
        eval.ensures((op,), r),
{
    eval(op)
}

} // verus!
