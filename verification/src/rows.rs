//! Arithmetic on single rows of numbers: what each operation computes, as
//! terms, and the operation itself.

use vstd::prelude::*;
use crate::number::{exp, larger, ln, minus, over, plus, terms, times, zero, Number, Term, Traced};

verus! {

/// The sum of the products of the first `upto` entries of two rows, added up
/// from the first on, starting from zero.
pub open spec fn dot_upto(left: Seq<Term>, right: Seq<Term>, upto: nat) -> Term
    decreases upto,
{
    if upto == 0 {
        zero()
    } else {
        plus(dot_upto(left, right, (upto - 1) as nat), times(left[upto - 1], right[upto - 1]))
    }
}

/// The dot product of two rows of equal length.
pub open spec fn dot_of(left: Seq<Term>, right: Seq<Term>) -> Term {
    dot_upto(left, right, left.len())
}

/// The sum of the first `upto` entries of a row, added up from the first on,
/// starting from zero.
pub open spec fn total_upto(row: Seq<Term>, upto: nat) -> Term
    decreases upto,
{
    if upto == 0 {
        zero()
    } else {
        plus(total_upto(row, (upto - 1) as nat), row[upto - 1])
    }
}

/// The sum of the entries of a row.
pub open spec fn total_of(row: Seq<Term>) -> Term {
    total_upto(row, row.len())
}

/// The largest of the first `upto` entries of a row, found by comparing each
/// entry with the largest before it.
pub open spec fn largest_upto(row: Seq<Term>, upto: nat) -> Term
    decreases upto,
{
    if upto <= 1 {
        row[0]
    } else {
        larger(row[upto - 1], largest_upto(row, (upto - 1) as nat))
    }
}

/// The largest entry of a row that is not empty.
pub open spec fn largest_of(row: Seq<Term>) -> Term {
    largest_upto(row, row.len())
}

/// Two rows added, entry by entry.
pub open spec fn added_of(left: Seq<Term>, right: Seq<Term>) -> Seq<Term> {
    Seq::new(left.len(), |i: int| plus(left[i], right[i]))
}

/// Two rows multiplied, entry by entry.
pub open spec fn multiplied_of(left: Seq<Term>, right: Seq<Term>) -> Seq<Term> {
    Seq::new(left.len(), |i: int| times(left[i], right[i]))
}

/// A row with every entry multiplied by one factor.
pub open spec fn scaled_of(row: Seq<Term>, factor: Term) -> Seq<Term> {
    Seq::new(row.len(), |i: int| times(row[i], factor))
}

/// A row with one number taken from every entry.
pub open spec fn lowered_of(row: Seq<Term>, by: Term) -> Seq<Term> {
    Seq::new(row.len(), |i: int| minus(row[i], by))
}

/// A row with every entry divided by one number.
pub open spec fn divided_of(row: Seq<Term>, by: Term) -> Seq<Term> {
    Seq::new(row.len(), |i: int| over(row[i], by))
}

/// One row with a multiple of another added to it.
pub open spec fn with_multiple_of(base: Seq<Term>, factor: Term, of: Seq<Term>) -> Seq<Term> {
    Seq::new(base.len(), |i: int| plus(base[i], times(factor, of[i])))
}

/// A row with one number taken from the entry at the given place.
pub open spec fn lowered_at_of(row: Seq<Term>, place: int, by: Term) -> Seq<Term> {
    Seq::new(row.len(), |i: int| if i == place { minus(row[i], by) } else { row[i] })
}

/// The exponentials of the entries of a row, each less the largest entry.
pub open spec fn powers_of(row: Seq<Term>) -> Seq<Term> {
    Seq::new(row.len(), |i: int| exp(minus(row[i], largest_of(row))))
}

/// The weights of a row of scores: each score's exponential, divided by the sum
/// of all of them. The largest score is taken from every score first, so that
/// no exponential is larger than one.
pub open spec fn softmax_of(scores: Seq<Term>) -> Seq<Term> {
    if scores.len() == 0 {
        Seq::<Term>::empty()
    } else {
        divided_of(powers_of(scores), total_of(powers_of(scores)))
    }
}

/// The logarithm of the sum of the exponentials of a row. The largest entry is
/// taken from every entry first and added back at the end.
pub open spec fn log_sum_exp_of(row: Seq<Term>) -> Term {
    plus(largest_of(row), ln(total_of(powers_of(row))))
}

/// A row of the given length, every entry the same.
pub open spec fn constant_of(len: nat, value: Term) -> Seq<Term> {
    Seq::new(len, |i: int| value)
}

/// A row of the given length, every entry the given number.
pub fn constant_row<N: Number>(len: usize, value: Traced<N>) -> (r: Vec<Traced<N>>)
    ensures
        r@.len() == len,
        terms(r@) == constant_of(len as nat, value@),
{
    let mut row: Vec<Traced<N>> = Vec::new();
    let mut i: usize = 0;
    while i < len
        invariant
            i <= len,
            row@.len() == i,
            forall|j: int| 0 <= j < i ==> row@[j]@ == value@,
        decreases len - i,
    {
        row.push(value);
        i = i + 1;
    }
    row
}

/// The dot product of two rows of equal length.
pub(crate) fn dot<N: Number>(left: &Vec<Traced<N>>, right: &Vec<Traced<N>>) -> (r: Traced<N>)
    requires
        left@.len() == right@.len(),
    ensures
        r@ == dot_of(terms(left@), terms(right@)),
{
    let mut sum = Traced::<N>::from_count(0);
    let mut i: usize = 0;
    while i < left.len()
        invariant
            i <= left@.len(),
            left@.len() == right@.len(),
            sum@ == dot_upto(terms(left@), terms(right@), i as nat),
        decreases left@.len() - i,
    {
        sum = sum.plus(&left[i].times(&right[i]));
        i = i + 1;
    }
    sum
}

/// The sum of the entries of a row.
pub fn total<N: Number>(row: &Vec<Traced<N>>) -> (r: Traced<N>)
    ensures
        r@ == total_of(terms(row@)),
{
    let mut sum = Traced::<N>::from_count(0);
    let mut i: usize = 0;
    while i < row.len()
        invariant
            i <= row@.len(),
            sum@ == total_upto(terms(row@), i as nat),
        decreases row@.len() - i,
    {
        sum = sum.plus(&row[i]);
        i = i + 1;
    }
    sum
}

/// The largest entry of a row that is not empty.
pub(crate) fn largest<N: Number>(row: &Vec<Traced<N>>) -> (r: Traced<N>)
    requires
        row@.len() > 0,
    ensures
        r@ == largest_of(terms(row@)),
{
    let mut best = row[0];
    let mut i: usize = 1;
    while i < row.len()
        invariant
            1 <= i <= row@.len(),
            best@ == largest_upto(terms(row@), i as nat),
        decreases row@.len() - i,
    {
        best = row[i].larger(&best);
        i = i + 1;
    }
    best
}

/// Two rows added, entry by entry.
pub(crate) fn added<N: Number>(left: &Vec<Traced<N>>, right: &Vec<Traced<N>>) -> (r: Vec<Traced<N>>)
    requires
        left@.len() == right@.len(),
    ensures
        r@.len() == left@.len(),
        terms(r@) == added_of(terms(left@), terms(right@)),
{
    let mut row: Vec<Traced<N>> = Vec::new();
    let mut i: usize = 0;
    while i < left.len()
        invariant
            i <= left@.len(),
            left@.len() == right@.len(),
            row@.len() == i,
            forall|j: int| 0 <= j < i ==> row@[j]@ == plus(left@[j]@, right@[j]@),
        decreases left@.len() - i,
    {
        row.push(left[i].plus(&right[i]));
        i = i + 1;
    }
    row
}

/// Two rows multiplied, entry by entry.
pub(crate) fn multiplied<N: Number>(left: &Vec<Traced<N>>, right: &Vec<Traced<N>>) -> (r: Vec<Traced<N>>)
    requires
        left@.len() == right@.len(),
    ensures
        r@.len() == left@.len(),
        terms(r@) == multiplied_of(terms(left@), terms(right@)),
{
    let mut row: Vec<Traced<N>> = Vec::new();
    let mut i: usize = 0;
    while i < left.len()
        invariant
            i <= left@.len(),
            left@.len() == right@.len(),
            row@.len() == i,
            forall|j: int| 0 <= j < i ==> row@[j]@ == times(left@[j]@, right@[j]@),
        decreases left@.len() - i,
    {
        row.push(left[i].times(&right[i]));
        i = i + 1;
    }
    row
}

/// A row with every entry multiplied by one factor.
pub fn scaled<N: Number>(row: &Vec<Traced<N>>, factor: &Traced<N>) -> (r: Vec<Traced<N>>)
    ensures
        r@.len() == row@.len(),
        terms(r@) == scaled_of(terms(row@), factor@),
{
    let mut out: Vec<Traced<N>> = Vec::new();
    let mut i: usize = 0;
    while i < row.len()
        invariant
            i <= row@.len(),
            out@.len() == i,
            forall|j: int| 0 <= j < i ==> out@[j]@ == times(row@[j]@, factor@),
        decreases row@.len() - i,
    {
        out.push(row[i].times(factor));
        i = i + 1;
    }
    out
}

/// A row with one number taken from every entry.
pub fn lowered<N: Number>(row: &Vec<Traced<N>>, by: &Traced<N>) -> (r: Vec<Traced<N>>)
    ensures
        r@.len() == row@.len(),
        terms(r@) == lowered_of(terms(row@), by@),
{
    let mut out: Vec<Traced<N>> = Vec::new();
    let mut i: usize = 0;
    while i < row.len()
        invariant
            i <= row@.len(),
            out@.len() == i,
            forall|j: int| 0 <= j < i ==> out@[j]@ == minus(row@[j]@, by@),
        decreases row@.len() - i,
    {
        out.push(row[i].minus(by));
        i = i + 1;
    }
    out
}

/// A row with every entry divided by one number.
pub fn divided<N: Number>(row: &Vec<Traced<N>>, by: &Traced<N>) -> (r: Vec<Traced<N>>)
    ensures
        r@.len() == row@.len(),
        terms(r@) == divided_of(terms(row@), by@),
{
    let mut out: Vec<Traced<N>> = Vec::new();
    let mut i: usize = 0;
    while i < row.len()
        invariant
            i <= row@.len(),
            out@.len() == i,
            forall|j: int| 0 <= j < i ==> out@[j]@ == over(row@[j]@, by@),
        decreases row@.len() - i,
    {
        out.push(row[i].over(by));
        i = i + 1;
    }
    out
}

/// One row with a multiple of another added to it.
pub(crate) fn with_multiple<N: Number>(
    base: &Vec<Traced<N>>,
    factor: &Traced<N>,
    of: &Vec<Traced<N>>,
) -> (r: Vec<Traced<N>>)
    requires
        base@.len() == of@.len(),
    ensures
        r@.len() == base@.len(),
        terms(r@) == with_multiple_of(terms(base@), factor@, terms(of@)),
{
    let mut out: Vec<Traced<N>> = Vec::new();
    let mut i: usize = 0;
    while i < base.len()
        invariant
            i <= base@.len(),
            base@.len() == of@.len(),
            out@.len() == i,
            forall|j: int| 0 <= j < i ==> out@[j]@ == plus(base@[j]@, times(factor@, of@[j]@)),
        decreases base@.len() - i,
    {
        out.push(base[i].plus(&factor.times(&of[i])));
        i = i + 1;
    }
    out
}

/// A row with one number taken from the entry at the given place.
pub fn lowered_at<N: Number>(row: &Vec<Traced<N>>, place: usize, by: &Traced<N>) -> (r: Vec<
    Traced<N>,
>)
    ensures
        r@.len() == row@.len(),
        terms(r@) == lowered_at_of(terms(row@), place as int, by@),
{
    let mut out: Vec<Traced<N>> = Vec::new();
    let mut i: usize = 0;
    while i < row.len()
        invariant
            i <= row@.len(),
            out@.len() == i,
            forall|j: int|
                0 <= j < i ==> out@[j]@ == (if j == place {
                    minus(row@[j]@, by@)
                } else {
                    row@[j]@
                }),
        decreases row@.len() - i,
    {
        if i == place {
            out.push(row[i].minus(by));
        } else {
            out.push(row[i]);
        }
        i = i + 1;
    }
    out
}

/// The exponentials of the entries of a row that is not empty, each less the
/// largest entry.
pub(crate) fn powers<N: Number>(row: &Vec<Traced<N>>) -> (r: Vec<Traced<N>>)
    requires
        row@.len() > 0,
    ensures
        r@.len() == row@.len(),
        terms(r@) == powers_of(terms(row@)),
{
    let top = largest(row);
    let mut out: Vec<Traced<N>> = Vec::new();
    let mut i: usize = 0;
    while i < row.len()
        invariant
            i <= row@.len(),
            out@.len() == i,
            top@ == largest_of(terms(row@)),
            forall|j: int| 0 <= j < i ==> out@[j]@ == exp(minus(row@[j]@, top@)),
        decreases row@.len() - i,
    {
        out.push(row[i].minus(&top).exp());
        i = i + 1;
    }
    out
}

/// The weights of a row of scores.
pub fn softmax<N: Number>(scores: &Vec<Traced<N>>) -> (r: Vec<Traced<N>>)
    ensures
        r@.len() == scores@.len(),
        terms(r@) == softmax_of(terms(scores@)),
{
    if scores.len() == 0 {
        let none: Vec<Traced<N>> = Vec::new();
        return none;
    }
    let raised = powers(scores);
    let sum = total(&raised);
    divided(&raised, &sum)
}

/// The logarithm of the sum of the exponentials of a row that is not empty.
pub(crate) fn log_sum_exp<N: Number>(row: &Vec<Traced<N>>) -> (r: Traced<N>)
    requires
        row@.len() > 0,
    ensures
        r@ == log_sum_exp_of(terms(row@)),
{
    let top = largest(row);
    let raised = powers(row);
    top.plus(&total(&raised).ln())
}

} // verus!
