//! The loss: the cross-entropy between the logits of a sequence and the tokens
//! that should have come out.

use vstd::prelude::*;
use crate::error::Error;
use crate::number::{minus, one, over, plus, terms, zero, Number, Term, Traced};
use crate::rows::{
    divided, divided_of, log_sum_exp, log_sum_exp_of, lowered_at, lowered_at_of, softmax,
    softmax_of,
};
use crate::tensor::{rectangular, Matrix};

verus! {

/// A loss and its gradient with respect to the logits.
pub struct Loss<N> {
    pub value: Traced<N>,
    pub gradient: Matrix<N>,
}

/// Whether every target names a column of the logits.
pub open spec fn targets_in_range(targets: Seq<i64>, width: nat) -> bool {
    forall|i: int| 0 <= i < targets.len() ==> 0 <= #[trigger] targets[i] < width
}

/// What is wrong with the targets for logits of the given shape, if anything:
/// they are not one for each row (`ShapeError`), or else one of them names no
/// column (`RangeError`).
pub open spec fn targets_checked(targets: Seq<i64>, height: nat, width: nat) -> Result<(), Error> {
    if targets.len() != height {
        Err(Error::ShapeError)
    } else if !targets_in_range(targets, width) {
        Err(Error::RangeError)
    } else {
        Ok(())
    }
}

/// The cross-entropy of one row of logits against its target: the logarithm of
/// the sum of the exponentials of the logits, less the logit of the target.
pub open spec fn surprise_of(row: Seq<Term>, target: int) -> Term {
    minus(log_sum_exp_of(row), row[target])
}

/// The cross-entropies of the first `upto` rows, each divided by the count,
/// added up from the first on, starting from zero.
pub open spec fn loss_upto(logits: Seq<Seq<Term>>, targets: Seq<i64>, count: u64, upto: nat) -> Term
    decreases upto,
{
    if upto == 0 {
        zero()
    } else {
        plus(
            loss_upto(logits, targets, count, (upto - 1) as nat),
            over(surprise_of(logits[upto - 1], targets[upto - 1] as int), Term::Count(count)),
        )
    }
}

/// The gradient of the loss with respect to the logits: in each row the
/// softmax of the row, one taken from the entry of the target, divided by the
/// count.
pub open spec fn loss_gradient_of(logits: Seq<Seq<Term>>, targets: Seq<i64>, count: u64) -> Seq<
    Seq<Term>,
> {
    Seq::new(
        logits.len(),
        |p: int|
            divided_of(
                lowered_at_of(softmax_of(logits[p]), targets[p] as int, one()),
                Term::Count(count),
            ),
    )
}

/// The cross-entropy of the logits against the targets, summed over the rows
/// and divided by the given count, and its gradient with respect to the
/// logits. The count is the number of positions over which the caller takes
/// the mean.
pub fn cross_entropy<N: Number>(logits: &Matrix<N>, targets: &Vec<i64>, count: u64) -> (r: Result<
    Loss<N>,
    Error,
>)
    ensures
        match targets_checked(targets@, logits.height(), logits.width()) {
            Ok(()) => r matches Ok(loss) && loss.gradient.shaped(logits.height(), logits.width())
                && loss.value@ == loss_upto(logits.terms(), targets@, count, targets@.len())
                && loss.gradient.terms() == loss_gradient_of(logits.terms(), targets@, count),
            Err(error) => r matches Err(e) && e == error,
        },
{
    let height = logits.rows();
    let width = logits.columns();
    if targets.len() != height {
        return Err(Error::ShapeError);
    }
    let mut p: usize = 0;
    while p < height
        invariant
            p <= height,
            height == targets@.len(),
            height == logits.height(),
            width == logits.width(),
            forall|i: int| 0 <= i < p ==> 0 <= #[trigger] targets@[i] < width,
        decreases height - p,
    {
        if targets[p] < 0 || targets[p] as u64 >= width as u64 {
            return Err(Error::RangeError);
        }
        p = p + 1;
    }
    let share = Traced::<N>::from_count(count);
    let unity = Traced::<N>::from_count(1);
    let ghost wanted = loss_gradient_of(logits.terms(), targets@, count);
    let mut value = Traced::<N>::from_count(0);
    let mut entries: Vec<Vec<Traced<N>>> = Vec::new();
    let mut p: usize = 0;
    while p < height
        invariant
            p <= height,
            logits.sound(),
            height == targets@.len(),
            height == logits.height(),
            width == logits.width(),
            targets_in_range(targets@, width as nat),
            share@ == Term::Count(count),
            unity@ == one(),
            wanted == loss_gradient_of(logits.terms(), targets@, count),
            value@ == loss_upto(logits.terms(), targets@, count, p as nat),
            entries@.len() == p,
            rectangular(entries@, width as nat),
            forall|k: int| 0 <= k < p ==> terms((#[trigger] entries@[k])@) == wanted[k],
        decreases height - p,
    {
        let row = logits.line(p);
        let target = targets[p] as usize;
        let surprise = log_sum_exp(row).minus(&row[target]);
        value = value.plus(&surprise.over(&share));
        let off = lowered_at(&softmax(row), target, &unity);
        entries.push(divided(&off, &share));
        p = p + 1;
    }
    Ok(Loss { value, gradient: Matrix::assemble(entries, width) })
}

} // verus!
