//! The numbers that tensors are made of.
//!
//! The library never computes with fractions itself. Whoever uses it brings the
//! arithmetic: a type of numbers with the operations of the trait [`Number`].
//! Nothing is assumed of what the operations return.
//!
//! What the library does know of every number that it holds is how the number
//! came about: from which bit patterns and counts, by which operations, in
//! which order. It keeps that knowledge beside the number, as a [`Term`] that
//! exists for the proofs only, and its contracts say of every result which term
//! it has. They say, that is, exactly what was handed to the caller's
//! arithmetic, and leave to the caller what the arithmetic made of it.

use vstd::prelude::*;

verus! {

/// A type of numbers to compute with. Every operation must return, whatever it
/// is given.
pub trait Number: Sized + Copy {
    /// The number with the given IEEE 754 double-precision bit pattern, or the
    /// nearest that the type has.
    fn from_bits(bits: u64) -> Self;

    /// The IEEE 754 double-precision bit pattern of the number, or of the
    /// nearest double.
    fn to_bits(&self) -> u64;

    /// The number that stands for a count.
    fn from_count(count: u64) -> Self;

    /// Sum.
    fn plus(&self, other: &Self) -> Self;

    /// Difference.
    fn minus(&self, other: &Self) -> Self;

    /// Product.
    fn times(&self, other: &Self) -> Self;

    /// Quotient.
    fn over(&self, other: &Self) -> Self;

    /// Square root.
    fn root(&self) -> Self;

    /// The exponential function.
    fn exp(&self) -> Self;

    /// The natural logarithm.
    fn ln(&self) -> Self;

    /// Sine.
    fn sin(&self) -> Self;

    /// Cosine.
    fn cos(&self) -> Self;

    /// Whether the number is greater than the other.
    fn exceeds(&self, other: &Self) -> bool;
}

/// How a number came about.
pub enum Term {
    /// From a bit pattern.
    Bits(u64),
    /// From a count.
    Count(u64),
    /// As the sum of two numbers.
    Plus(Box<Term>, Box<Term>),
    /// As the first number less the second.
    Minus(Box<Term>, Box<Term>),
    /// As the product of two numbers.
    Times(Box<Term>, Box<Term>),
    /// As the first number divided by the second.
    Over(Box<Term>, Box<Term>),
    /// As the square root of a number.
    Root(Box<Term>),
    /// As the exponential of a number.
    Exp(Box<Term>),
    /// As the natural logarithm of a number.
    Ln(Box<Term>),
    /// As the sine of a number.
    Sin(Box<Term>),
    /// As the cosine of a number.
    Cos(Box<Term>),
    /// As the first number where it exceeds the second, and the second
    /// elsewhere.
    Larger(Box<Term>, Box<Term>),
    /// As the first number where the second exceeds zero, and zero elsewhere.
    Gated(Box<Term>, Box<Term>),
}

/// The term of a sum.
pub open spec fn plus(a: Term, b: Term) -> Term {
    Term::Plus(Box::new(a), Box::new(b))
}

/// The term of a difference.
pub open spec fn minus(a: Term, b: Term) -> Term {
    Term::Minus(Box::new(a), Box::new(b))
}

/// The term of a product.
pub open spec fn times(a: Term, b: Term) -> Term {
    Term::Times(Box::new(a), Box::new(b))
}

/// The term of a quotient.
pub open spec fn over(a: Term, b: Term) -> Term {
    Term::Over(Box::new(a), Box::new(b))
}

/// The term of a square root.
pub open spec fn root(a: Term) -> Term {
    Term::Root(Box::new(a))
}

/// The term of an exponential.
pub open spec fn exp(a: Term) -> Term {
    Term::Exp(Box::new(a))
}

/// The term of a logarithm.
pub open spec fn ln(a: Term) -> Term {
    Term::Ln(Box::new(a))
}

/// The term of a sine.
pub open spec fn sin(a: Term) -> Term {
    Term::Sin(Box::new(a))
}

/// The term of a cosine.
pub open spec fn cos(a: Term) -> Term {
    Term::Cos(Box::new(a))
}

/// The term of the larger of two numbers.
pub open spec fn larger(a: Term, b: Term) -> Term {
    Term::Larger(Box::new(a), Box::new(b))
}

/// The term of a number gated by another.
pub open spec fn gated(a: Term, by: Term) -> Term {
    Term::Gated(Box::new(a), Box::new(by))
}

/// The term of zero.
pub open spec fn zero() -> Term {
    Term::Count(0)
}

/// The term of one.
pub open spec fn one() -> Term {
    Term::Count(1)
}

/// A number together with how it came about. Only the operations below make
/// one, so that the one always belongs to the other.
#[derive(Clone, Copy)]
pub struct Traced<N> {
    value: N,
    term: Ghost<Term>,
}

impl<N> View for Traced<N> {
    type V = Term;

    /// How the number came about.
    closed spec fn view(&self) -> Term {
        self.term@
    }
}

impl<N: Number> Traced<N> {
    /// The number with the given bit pattern.
    pub fn from_bits(bits: u64) -> (r: Traced<N>)
        ensures
            r@ == Term::Bits(bits),
    {
        Traced { value: N::from_bits(bits), term: Ghost(Term::Bits(bits)) }
    }

    /// The number that stands for a count.
    pub fn from_count(count: u64) -> (r: Traced<N>)
        ensures
            r@ == Term::Count(count),
    {
        Traced { value: N::from_count(count), term: Ghost(Term::Count(count)) }
    }

    /// The number itself.
    pub fn value(&self) -> (r: N)
        ensures
            r == self.number(),
    {
        self.value
    }

    /// The bit pattern of the number.
    pub fn to_bits(&self) -> u64 {
        self.value.to_bits()
    }

    /// Sum.
    pub fn plus(&self, other: &Traced<N>) -> (r: Traced<N>)
        ensures
            r@ == plus(self@, other@),
    {
        Traced { value: self.value.plus(&other.value), term: Ghost(plus(self@, other@)) }
    }

    /// Difference.
    pub fn minus(&self, other: &Traced<N>) -> (r: Traced<N>)
        ensures
            r@ == minus(self@, other@),
    {
        Traced { value: self.value.minus(&other.value), term: Ghost(minus(self@, other@)) }
    }

    /// Product.
    pub fn times(&self, other: &Traced<N>) -> (r: Traced<N>)
        ensures
            r@ == times(self@, other@),
    {
        Traced { value: self.value.times(&other.value), term: Ghost(times(self@, other@)) }
    }

    /// Quotient.
    pub fn over(&self, other: &Traced<N>) -> (r: Traced<N>)
        ensures
            r@ == over(self@, other@),
    {
        Traced { value: self.value.over(&other.value), term: Ghost(over(self@, other@)) }
    }

    /// Square root.
    pub fn root(&self) -> (r: Traced<N>)
        ensures
            r@ == root(self@),
    {
        Traced { value: self.value.root(), term: Ghost(root(self@)) }
    }

    /// The exponential function.
    pub fn exp(&self) -> (r: Traced<N>)
        ensures
            r@ == exp(self@),
    {
        Traced { value: self.value.exp(), term: Ghost(exp(self@)) }
    }

    /// The natural logarithm.
    pub fn ln(&self) -> (r: Traced<N>)
        ensures
            r@ == ln(self@),
    {
        Traced { value: self.value.ln(), term: Ghost(ln(self@)) }
    }

    /// Sine.
    pub fn sin(&self) -> (r: Traced<N>)
        ensures
            r@ == sin(self@),
    {
        Traced { value: self.value.sin(), term: Ghost(sin(self@)) }
    }

    /// Cosine.
    pub fn cos(&self) -> (r: Traced<N>)
        ensures
            r@ == cos(self@),
    {
        Traced { value: self.value.cos(), term: Ghost(cos(self@)) }
    }

    /// This number where it exceeds the other, and the other elsewhere.
    pub fn larger(&self, other: &Traced<N>) -> (r: Traced<N>)
        ensures
            r@ == larger(self@, other@),
    {
        let value = if self.value.exceeds(&other.value) {
            self.value
        } else {
            other.value
        };
        Traced { value, term: Ghost(larger(self@, other@)) }
    }

    /// This number where the other exceeds zero, and zero elsewhere.
    pub fn gated(&self, by: &Traced<N>) -> (r: Traced<N>)
        ensures
            r@ == gated(self@, by@),
    {
        let nothing = N::from_count(0);
        let value = if by.value.exceeds(&nothing) {
            self.value
        } else {
            nothing
        };
        Traced { value, term: Ghost(gated(self@, by@)) }
    }
}

impl<N> Traced<N> {
    /// The number that is held beside the term: what the caller's arithmetic
    /// made of the term.
    pub closed spec fn number(&self) -> N {
        self.value
    }
}

/// The terms of a row of numbers.
pub open spec fn terms<N>(row: Seq<Traced<N>>) -> Seq<Term> {
    Seq::new(row.len(), |i: int| row[i]@)
}

} // verus!
