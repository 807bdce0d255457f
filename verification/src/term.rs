//! Floating point formulas as data.
//!
//! A formula that has to be computed is handed out as a term over number
//! literals; whoever drives the client evaluates the terms with the machine's
//! floating point unit and hands the results back as bits.

use crate::float::{Double, Single};
use vstd::prelude::*;

verus! {

/// A double precision formula.
#[derive(Debug, PartialEq)]
pub enum DoubleTerm {
    /// A number, given by its bits.
    Lit(Double),
    /// The sum of two terms.
    Sum(Box<DoubleTerm>, Box<DoubleTerm>),
    /// The first term less the second.
    Difference(Box<DoubleTerm>, Box<DoubleTerm>),
    /// The product of two terms.
    Product(Box<DoubleTerm>, Box<DoubleTerm>),
    /// The term with its sign flipped.
    Negated(Box<DoubleTerm>),
    /// The sine of an angle in radians.
    Sine(Box<DoubleTerm>),
    /// The cosine of an angle in radians.
    Cosine(Box<DoubleTerm>),
    /// A fresh random number, at least `from` and below `to`.
    Uniform { from: Double, to: Double },
}

/// A single precision formula.
#[derive(Debug, PartialEq)]
pub enum SingleTerm {
    /// A number, given by its bits.
    Lit(Single),
    /// The sum of two terms.
    Sum(Box<SingleTerm>, Box<SingleTerm>),
    /// The first term less the second.
    Difference(Box<SingleTerm>, Box<SingleTerm>),
    /// The product of two terms.
    Product(Box<SingleTerm>, Box<SingleTerm>),
    /// The remainder of the first term by the second, with the sign of the first.
    Remainder(Box<SingleTerm>, Box<SingleTerm>),
    /// The term raised to an integer power.
    Power(Box<SingleTerm>, i32),
    /// An angle in radians, converted to degrees and then rounded to a single.
    Degrees(DoubleTerm),
    /// A fresh random number, at least `from` and below `to`.
    Uniform { from: Single, to: Single },
}

/// The terms of one round: up to three doubles and two singles.  A place that
/// a round does not use holds the literal zero.
#[derive(Debug, PartialEq)]
pub struct Terms {
    pub a: DoubleTerm,
    pub b: DoubleTerm,
    pub c: DoubleTerm,
    pub s: SingleTerm,
    pub t: SingleTerm,
}

/// The values of the terms of one round, place by place.
#[derive(Clone, Copy, Debug, PartialEq, Eq, Structural)]
pub struct Values {
    pub a: Double,
    pub b: Double,
    pub c: Double,
    pub s: Single,
    pub t: Single,
}

/// The literal `x`.
pub open spec fn dlit(x: Double) -> DoubleTerm {
    DoubleTerm::Lit(x)
}

/// `x + y`.
pub open spec fn dsum(x: DoubleTerm, y: DoubleTerm) -> DoubleTerm {
    DoubleTerm::Sum(Box::new(x), Box::new(y))
}

/// `x - y`.
pub open spec fn ddiff(x: DoubleTerm, y: DoubleTerm) -> DoubleTerm {
    DoubleTerm::Difference(Box::new(x), Box::new(y))
}

/// `x * y`.
pub open spec fn dprod(x: DoubleTerm, y: DoubleTerm) -> DoubleTerm {
    DoubleTerm::Product(Box::new(x), Box::new(y))
}

/// The literal `x`.
pub open spec fn slit(x: Single) -> SingleTerm {
    SingleTerm::Lit(x)
}

/// `x + y`.
pub open spec fn ssum(x: SingleTerm, y: SingleTerm) -> SingleTerm {
    SingleTerm::Sum(Box::new(x), Box::new(y))
}

/// `x - y`.
pub open spec fn sdiff(x: SingleTerm, y: SingleTerm) -> SingleTerm {
    SingleTerm::Difference(Box::new(x), Box::new(y))
}

/// `x * y`.
pub open spec fn sprod(x: SingleTerm, y: SingleTerm) -> SingleTerm {
    SingleTerm::Product(Box::new(x), Box::new(y))
}

/// `x % y`.
pub open spec fn srem(x: SingleTerm, y: SingleTerm) -> SingleTerm {
    SingleTerm::Remainder(Box::new(x), Box::new(y))
}

/// `x` to the power `n`.
pub open spec fn spow(x: SingleTerm, n: i32) -> SingleTerm {
    SingleTerm::Power(Box::new(x), n)
}

/// A round that asks for three doubles.
pub open spec fn double_terms(a: DoubleTerm, b: DoubleTerm, c: DoubleTerm) -> Terms {
    Terms { a, b, c, s: slit(0), t: slit(0) }
}

/// A round that asks for two singles.
pub open spec fn single_terms(s: SingleTerm, t: SingleTerm) -> Terms {
    Terms { a: dlit(0), b: dlit(0), c: dlit(0), s, t }
}

/// A way to do floating point arithmetic: what each operation makes of its
/// operands.  `uniform` and `single_uniform` stand for the numbers drawn in one
/// round.
pub struct Arithmetic {
    pub sum: spec_fn(Double, Double) -> Double,
    pub difference: spec_fn(Double, Double) -> Double,
    pub product: spec_fn(Double, Double) -> Double,
    pub negated: spec_fn(Double) -> Double,
    pub sine: spec_fn(Double) -> Double,
    pub cosine: spec_fn(Double) -> Double,
    pub uniform: spec_fn(Double, Double) -> Double,
    pub single_sum: spec_fn(Single, Single) -> Single,
    pub single_difference: spec_fn(Single, Single) -> Single,
    pub single_product: spec_fn(Single, Single) -> Single,
    pub single_remainder: spec_fn(Single, Single) -> Single,
    pub single_power: spec_fn(Single, i32) -> Single,
    pub degrees: spec_fn(Double) -> Single,
    pub single_uniform: spec_fn(Single, Single) -> Single,
}

/// The value of a double precision formula.
pub open spec fn double_value(m: Arithmetic, t: DoubleTerm) -> Double
    decreases t,
{
    match t {
        DoubleTerm::Lit(x) => x,
        DoubleTerm::Sum(x, y) => (m.sum)(double_value(m, *x), double_value(m, *y)),
        DoubleTerm::Difference(x, y) => (m.difference)(double_value(m, *x), double_value(m, *y)),
        DoubleTerm::Product(x, y) => (m.product)(double_value(m, *x), double_value(m, *y)),
        DoubleTerm::Negated(x) => (m.negated)(double_value(m, *x)),
        DoubleTerm::Sine(x) => (m.sine)(double_value(m, *x)),
        DoubleTerm::Cosine(x) => (m.cosine)(double_value(m, *x)),
        DoubleTerm::Uniform { from, to } => (m.uniform)(from, to),
    }
}

/// The value of a single precision formula.
pub open spec fn single_value(m: Arithmetic, t: SingleTerm) -> Single
    decreases t,
{
    match t {
        SingleTerm::Lit(x) => x,
        SingleTerm::Sum(x, y) => (m.single_sum)(single_value(m, *x), single_value(m, *y)),
        SingleTerm::Difference(x, y) => (m.single_difference)(
            single_value(m, *x),
            single_value(m, *y),
        ),
        SingleTerm::Product(x, y) => (m.single_product)(single_value(m, *x), single_value(m, *y)),
        SingleTerm::Remainder(x, y) => (m.single_remainder)(
            single_value(m, *x),
            single_value(m, *y),
        ),
        SingleTerm::Power(x, n) => (m.single_power)(single_value(m, *x), n),
        SingleTerm::Degrees(x) => (m.degrees)(double_value(m, x)),
        SingleTerm::Uniform { from, to } => (m.single_uniform)(from, to),
    }
}

/// The values of the formulas of a round.
pub open spec fn round_values(m: Arithmetic, t: Terms) -> Values {
    Values {
        a: double_value(m, t.a),
        b: double_value(m, t.b),
        c: double_value(m, t.c),
        s: single_value(m, t.s),
        t: single_value(m, t.t),
    }
}

impl DoubleTerm {
    /// The sum of two terms.
    pub fn plus(self, other: DoubleTerm) -> (r: DoubleTerm)
        ensures
            r == dsum(self, other),
    {
        DoubleTerm::Sum(Box::new(self), Box::new(other))
    }

    /// The difference of two terms.
    pub fn minus(self, other: DoubleTerm) -> (r: DoubleTerm)
        ensures
            r == ddiff(self, other),
    {
        DoubleTerm::Difference(Box::new(self), Box::new(other))
    }

    /// The product of two terms.
    pub fn times(self, other: DoubleTerm) -> (r: DoubleTerm)
        ensures
            r == dprod(self, other),
    {
        DoubleTerm::Product(Box::new(self), Box::new(other))
    }
}

impl SingleTerm {
    /// The sum of two terms.
    pub fn plus(self, other: SingleTerm) -> (r: SingleTerm)
        ensures
            r == ssum(self, other),
    {
        SingleTerm::Sum(Box::new(self), Box::new(other))
    }

    /// The difference of two terms.
    pub fn minus(self, other: SingleTerm) -> (r: SingleTerm)
        ensures
            r == sdiff(self, other),
    {
        SingleTerm::Difference(Box::new(self), Box::new(other))
    }

    /// The product of two terms.
    pub fn times(self, other: SingleTerm) -> (r: SingleTerm)
        ensures
            r == sprod(self, other),
    {
        SingleTerm::Product(Box::new(self), Box::new(other))
    }

    /// The remainder of two terms.
    pub fn modulo(self, other: SingleTerm) -> (r: SingleTerm)
        ensures
            r == srem(self, other),
    {
        SingleTerm::Remainder(Box::new(self), Box::new(other))
    }

    /// The term raised to the power `n`.
    pub fn power(self, n: i32) -> (r: SingleTerm)
        ensures
            r == spow(self, n),
    {
        SingleTerm::Power(Box::new(self), n)
    }
}

impl Terms {
    /// A round of three doubles.
    pub fn doubles(a: DoubleTerm, b: DoubleTerm, c: DoubleTerm) -> (r: Terms)
        ensures
            r == double_terms(a, b, c),
    {
        Terms { a, b, c, s: SingleTerm::Lit(0), t: SingleTerm::Lit(0) }
    }

    /// A round of two singles.
    pub fn singles(s: SingleTerm, t: SingleTerm) -> (r: Terms)
        ensures
            r == single_terms(s, t),
    {
        Terms { a: DoubleTerm::Lit(0), b: DoubleTerm::Lit(0), c: DoubleTerm::Lit(0), s, t }
    }
}

} // verus!
