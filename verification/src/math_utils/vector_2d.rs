//! Vectors in the plane.

use vstd::prelude::*;
use crate::arithmetic::{answer, evaluate, lawful, Op};
use crate::scalar::{negate, negated, Scalar, ZERO};

verus! {

/// A vector in the plane, by its two components.  Two vectors are equal where
/// their components have the same bits.
#[derive(Copy, Clone, Debug, PartialEq, Eq, Structural)]
pub struct Vector2D {
    pub x: Scalar,
    pub y: Scalar,
}

impl Vector2D {
    /// The vector whose components are both positive zero.
    pub open spec fn zero() -> Vector2D {
        Vector2D { x: ZERO, y: ZERO }
    }

    /// The vector with the components `x` and `y`.
    pub fn new(x: Scalar, y: Scalar) -> (v: Vector2D)
        ensures
            v == (Vector2D { x, y }),
    {
        Vector2D { x, y }
    }

    /// The length of the vector: the hypotenuse over its components.
    pub open spec fn length_spec<F: Fn(Op) -> Scalar>(self, eval: &F) -> Scalar {
        answer(eval, Op::Hypot(self.x, self.y))
    }

    /// The sum, component by component.
    pub open spec fn add_spec<F: Fn(Op) -> Scalar>(self, rhs: Vector2D, eval: &F) -> Vector2D {
        Vector2D {
            x: answer(eval, Op::Add(self.x, rhs.x)),
            y: answer(eval, Op::Add(self.y, rhs.y)),
        }
    }

    /// The difference, component by component.
    pub open spec fn sub_spec<F: Fn(Op) -> Scalar>(self, rhs: Vector2D, eval: &F) -> Vector2D {
        Vector2D {
            x: answer(eval, Op::Sub(self.x, rhs.x)),
            y: answer(eval, Op::Sub(self.y, rhs.y)),
        }
    }

    /// Each component times `s`.
    pub open spec fn mul_spec<F: Fn(Op) -> Scalar>(self, s: Scalar, eval: &F) -> Vector2D {
        Vector2D { x: answer(eval, Op::Mul(self.x, s)), y: answer(eval, Op::Mul(self.y, s)) }
    }

    /// Each component divided by `s`.
    pub open spec fn div_spec<F: Fn(Op) -> Scalar>(self, s: Scalar, eval: &F) -> Vector2D {
        Vector2D { x: answer(eval, Op::Div(self.x, s)), y: answer(eval, Op::Div(self.y, s)) }
    }

    /// Each component with the opposite sign.
    pub open spec fn neg_spec(self) -> Vector2D {
        Vector2D { x: negated(self.x), y: negated(self.y) }
    }

    /// The length of the vector.
    pub fn magnitude<F: Fn(Op) -> Scalar>(self, eval: &F) -> (r: Scalar)
        requires
            lawful(eval),
        ensures
            r == self.length_spec(eval),
    {
        self.length(eval)
    }

    /// The length of the vector.
    pub fn length<F: Fn(Op) -> Scalar>(self, eval: &F) -> (r: Scalar)
        requires
            lawful(eval),
        ensures
            r == self.length_spec(eval),
    {
        evaluate(eval, Op::Hypot(self.x, self.y))
    }

    /// `self + rhs`.
    pub fn add<F: Fn(Op) -> Scalar>(self, rhs: Vector2D, eval: &F) -> (v: Vector2D)
        requires
            lawful(eval),
        ensures
            v == self.add_spec(rhs, eval),
    {
        Vector2D {
            x: evaluate(eval, Op::Add(self.x, rhs.x)),
            y: evaluate(eval, Op::Add(self.y, rhs.y)),
        }
    }

    /// Adds `rhs` to the vector.
    pub fn add_assign<F: Fn(Op) -> Scalar>(&mut self, rhs: Vector2D, eval: &F)
        requires
            lawful(eval),
        ensures
            *final(self) == old(self).add_spec(rhs, eval),
    {
        self.x = evaluate(eval, Op::Add(self.x, rhs.x));
        self.y = evaluate(eval, Op::Add(self.y, rhs.y));
    }

    /// `self - rhs`.
    pub fn sub<F: Fn(Op) -> Scalar>(self, rhs: Vector2D, eval: &F) -> (v: Vector2D)
        requires
            lawful(eval),
        ensures
            v == self.sub_spec(rhs, eval),
    {
        Vector2D {
            x: evaluate(eval, Op::Sub(self.x, rhs.x)),
            y: evaluate(eval, Op::Sub(self.y, rhs.y)),
        }
    }

    /// Takes `rhs` from the vector.
    pub fn sub_assign<F: Fn(Op) -> Scalar>(&mut self, rhs: Vector2D, eval: &F)
        requires
            lawful(eval),
        ensures
            *final(self) == old(self).sub_spec(rhs, eval),
    {
        self.x = evaluate(eval, Op::Sub(self.x, rhs.x));
        self.y = evaluate(eval, Op::Sub(self.y, rhs.y));
    }

    /// `self * s`.
    pub fn mul<F: Fn(Op) -> Scalar>(self, s: Scalar, eval: &F) -> (v: Vector2D)
        requires
            lawful(eval),
        ensures
            v == self.mul_spec(s, eval),
    {
        Vector2D { x: evaluate(eval, Op::Mul(self.x, s)), y: evaluate(eval, Op::Mul(self.y, s)) }
    }

    /// Multiplies the vector by `s`.
    pub fn mul_assign<F: Fn(Op) -> Scalar>(&mut self, s: Scalar, eval: &F)
        requires
            lawful(eval),
        ensures
            *final(self) == old(self).mul_spec(s, eval),
    {
        self.x = evaluate(eval, Op::Mul(self.x, s));
        self.y = evaluate(eval, Op::Mul(self.y, s));
    }

    /// `self / s`.
    pub fn div<F: Fn(Op) -> Scalar>(self, s: Scalar, eval: &F) -> (v: Vector2D)
        requires
            lawful(eval),
        ensures
            v == self.div_spec(s, eval),
    {
        Vector2D { x: evaluate(eval, Op::Div(self.x, s)), y: evaluate(eval, Op::Div(self.y, s)) }
    }

    /// Divides the vector by `s`.
    pub fn div_assign<F: Fn(Op) -> Scalar>(&mut self, s: Scalar, eval: &F)
        requires
            lawful(eval),
        ensures
            *final(self) == old(self).div_spec(s, eval),
    {
        self.x = evaluate(eval, Op::Div(self.x, s));
        self.y = evaluate(eval, Op::Div(self.y, s));
    }

    /// `-self`.
    pub fn neg(self) -> (v: Vector2D)
        ensures
            v == self.neg_spec(),
    {
        Vector2D { x: negate(self.x), y: negate(self.y) }
    }
}

impl From<(Scalar, Scalar)> for Vector2D {
    /// The vector whose components are the two numbers of the pair.
    fn from(t: (Scalar, Scalar)) -> (v: Vector2D) {
        Vector2D::new(t.0, t.1)
    }
}

impl vstd::std_specs::convert::FromSpecImpl<(Scalar, Scalar)> for Vector2D {
    open spec fn obeys_from_spec() -> bool {
        true
    }

    /// The vector whose components are the two numbers of the pair.
    open spec fn from_spec(t: (Scalar, Scalar)) -> Vector2D {
        Vector2D { x: t.0, y: t.1 }
    }
}

impl Default for Vector2D {
    /// The zero vector.
    fn default() -> (v: Vector2D)
        ensures
            v == Vector2D::zero(),
    {
        Vector2D { x: ZERO, y: ZERO }
    }
}

} // verus!
