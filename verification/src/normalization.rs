//! Normalization: every row of a matrix is shifted to zero mean, scaled to unit
//! variance, and multiplied entry by entry with a gain.

use vstd::prelude::*;
use crate::error::Error;
use crate::number::{minus, one, over, plus, root, terms, times, zero, Number, Term, Traced};
use crate::rows::{
    added, added_of, constant_of, constant_row, dot, dot_of, lowered, lowered_of, multiplied,
    multiplied_of, scaled, scaled_of, total, total_of, with_multiple, with_multiple_of,
};
use crate::tensor::{grid, rectangular, Matrix};

verus! {

/// The bit pattern of the small number that is added to a variance before its
/// root is taken, so that a row of equal entries divides by no zero: 1e-5.
pub const EPSILON_BITS: u64 = 0x3EE4_F8B5_88E3_68F1;

/// The number of entries of a row, as a number.
pub open spec fn count_of(row: Seq<Term>) -> Term {
    Term::Count(row.len() as u64)
}

/// A row less its mean.
pub open spec fn shifted_of(row: Seq<Term>) -> Seq<Term> {
    lowered_of(row, over(total_of(row), count_of(row)))
}

/// One over the standard deviation of a row: the mean of the squares of the
/// shifted row, a small number added, the root taken, and one divided by it.
pub open spec fn inverse_deviation_of(row: Seq<Term>) -> Term {
    over(
        one(),
        root(
            plus(
                over(dot_of(shifted_of(row), shifted_of(row)), count_of(row)),
                Term::Bits(EPSILON_BITS),
            ),
        ),
    )
}

/// A row shifted to zero mean and scaled to unit variance.
pub open spec fn unit_of(row: Seq<Term>) -> Seq<Term> {
    scaled_of(shifted_of(row), inverse_deviation_of(row))
}

/// The rows of a matrix, each shifted to zero mean and scaled to unit
/// variance.
pub open spec fn units_of(input: Seq<Seq<Term>>) -> Seq<Seq<Term>> {
    Seq::new(input.len(), |i: int| unit_of(input[i]))
}

/// One over the standard deviation of each row of a matrix.
pub open spec fn inverse_deviations_of(input: Seq<Seq<Term>>) -> Seq<Term> {
    Seq::new(input.len(), |i: int| inverse_deviation_of(input[i]))
}

/// A matrix normalized: each row shifted and scaled, then multiplied by the
/// gain.
pub open spec fn normalized_of(input: Seq<Seq<Term>>, gain: Seq<Term>) -> Seq<Seq<Term>> {
    Seq::new(input.len(), |i: int| multiplied_of(unit_of(input[i]), gain))
}

/// The gradient of a normalization with respect to one row of its input, from
/// the gradient with respect to the normalized row: the latter times the gain,
/// less its mean, less the unit row times the mean of their product, and all
/// of it times one over the deviation.
pub open spec fn row_gradient_of(above: Seq<Term>, gain: Seq<Term>, unit: Seq<Term>, inverse: Term) -> Seq<
    Term,
> {
    let through = multiplied_of(above, gain);
    let mean = over(total_of(through), count_of(through));
    let mean_of_product = over(dot_of(through, unit), count_of(through));
    scaled_of(
        with_multiple_of(
            lowered_of(through, mean),
            times(minus(zero(), one()), mean_of_product),
            unit,
        ),
        inverse,
    )
}

/// The gradient of a normalization with respect to its input, row by row.
pub open spec fn input_gradient_of(
    above: Seq<Seq<Term>>,
    gain: Seq<Term>,
    units: Seq<Seq<Term>>,
    inverses: Seq<Term>,
) -> Seq<Seq<Term>> {
    Seq::new(above.len(), |i: int| row_gradient_of(above[i], gain, units[i], inverses[i]))
}

/// The gradient of a normalization with respect to its gain, from the first
/// `upto` rows: the sum, from the first row on and starting from zeros, of the
/// gradient with respect to the normalized row times the unit row.
pub open spec fn gain_gradient_upto(
    above: Seq<Seq<Term>>,
    units: Seq<Seq<Term>>,
    width: nat,
    upto: nat,
) -> Seq<Term>
    decreases upto,
{
    if upto == 0 {
        constant_of(width, zero())
    } else {
        added_of(
            gain_gradient_upto(above, units, width, (upto - 1) as nat),
            multiplied_of(above[upto - 1], units[upto - 1]),
        )
    }
}

/// What a normalization gives, and what it keeps for the way back.
pub struct Normalized<N> {
    pub(crate) centred: Matrix<N>,
    pub(crate) inverse_deviation: Vec<Traced<N>>,
    pub(crate) output: Matrix<N>,
}

impl<N> Normalized<N> {
    #[verifier::type_invariant]
    pub(crate) closed spec fn inv(&self) -> bool {
        &&& self.centred.shaped(self.output.height(), self.output.width())
        &&& self.output.sound()
        &&& self.inverse_deviation@.len() == self.output.height()
    }

    /// Number of rows of the normalized matrix.
    pub closed spec fn height(&self) -> nat {
        self.output.height()
    }

    /// Number of columns of the normalized matrix.
    pub closed spec fn width(&self) -> nat {
        self.output.width()
    }

    /// The normalized matrix.
    pub closed spec fn terms(&self) -> Seq<Seq<Term>> {
        self.output.terms()
    }

    /// The rows of the input, each shifted and scaled.
    pub closed spec fn units(&self) -> Seq<Seq<Term>> {
        self.centred.terms()
    }

    /// One over the standard deviation of each row of the input.
    pub closed spec fn inverses(&self) -> Seq<Term> {
        terms(self.inverse_deviation@)
    }

    /// Whether this is what the normalization of the given input by the given
    /// gain gives and keeps.
    pub open spec fn of(&self, input: Seq<Seq<Term>>, gain: Seq<Term>) -> bool {
        &&& self.terms() == normalized_of(input, gain)
        &&& self.units() == units_of(input)
        &&& self.inverses() == inverse_deviations_of(input)
    }
}

impl<N: Number> Normalized<N> {
    /// The normalized matrix.
    pub fn output(&self) -> (r: &Matrix<N>)
        ensures
            r.shaped(self.height(), self.width()),
            r.terms() == self.terms(),
    {
        proof {
            use_type_invariant(self);
        }
        &self.output
    }
}

/// Whether a matrix is a gain for rows of the given width: one row of that
/// width.
pub open spec fn gain_for<N>(gain: &Matrix<N>, width: nat) -> bool {
    gain.shaped(1, width)
}

/// Normalizes every row of a matrix. `ShapeError` where the gain is not one row
/// as wide as the matrix.
pub fn normalize<N: Number>(input: &Matrix<N>, gain: &Matrix<N>) -> (r: Result<
    Normalized<N>,
    Error,
>)
    ensures
        gain_for(gain, input.width()) ==> (r matches Ok(kept) && kept.height() == input.height()
            && kept.width() == input.width() && kept.of(input.terms(), gain.terms()[0])),
        !gain_for(gain, input.width()) ==> (r matches Err(e) && e == Error::ShapeError),
{
    if gain.rows() != 1 || gain.columns() != input.columns() {
        return Err(Error::ShapeError);
    }
    let width = input.columns();
    let count = Traced::<N>::from_count(width as u64);
    let epsilon = Traced::<N>::from_bits(EPSILON_BITS);
    let unity = Traced::<N>::from_count(1);
    let weights = gain.line(0);
    let ghost source = input.terms();
    let mut centred: Vec<Vec<Traced<N>>> = Vec::new();
    let mut output: Vec<Vec<Traced<N>>> = Vec::new();
    let mut inverse_deviation: Vec<Traced<N>> = Vec::new();
    let mut i: usize = 0;
    while i < input.rows()
        invariant
            i <= input.height(),
            input.sound(),
            source == input.terms(),
            width == input.width(),
            weights@.len() == width,
            count@ == Term::Count(width as u64),
            epsilon@ == Term::Bits(EPSILON_BITS),
            unity@ == one(),
            centred@.len() == i,
            output@.len() == i,
            inverse_deviation@.len() == i,
            rectangular(centred@, width as nat),
            rectangular(output@, width as nat),
            forall|k: int| 0 <= k < i ==> terms((#[trigger] centred@[k])@) == unit_of(source[k]),
            forall|k: int|
                0 <= k < i ==> terms((#[trigger] output@[k])@) == multiplied_of(
                    unit_of(source[k]),
                    terms(weights@),
                ),
            forall|k: int|
                0 <= k < i ==> (#[trigger] inverse_deviation@[k])@ == inverse_deviation_of(
                    source[k],
                ),
        decreases input.height() - i,
    {
        let row = input.line(i);
        let mean = total(row).over(&count);
        let shifted = lowered(row, &mean);
        let variance = dot(&shifted, &shifted).over(&count);
        let inverse = unity.over(&variance.plus(&epsilon).root());
        let unit = scaled(&shifted, &inverse);
        let scaled_by_gain = multiplied(&unit, weights);
        centred.push(unit);
        output.push(scaled_by_gain);
        inverse_deviation.push(inverse);
        i = i + 1;
    }
    proof {
        assert(grid(centred@) =~= units_of(source));
        assert(grid(output@) =~= normalized_of(source, terms(weights@)));
        assert(terms(inverse_deviation@) =~= inverse_deviations_of(source));
    }
    Ok(
        Normalized {
            centred: Matrix::assemble(centred, width),
            inverse_deviation,
            output: Matrix::assemble(output, width),
        },
    )
}

/// The gradients of a normalization.
pub struct NormalizationGradients<N> {
    /// With respect to the matrix that was normalized.
    pub input: Matrix<N>,
    /// With respect to the gain.
    pub gain: Matrix<N>,
}

/// The way back through a normalization: from the gradient with respect to the
/// normalized matrix to the gradients with respect to the input and the gain.
/// `ShapeError` where the gain or the gradient does not have the shape that
/// the normalization had.
pub fn normalize_backward<N: Number>(
    kept: &Normalized<N>,
    gain: &Matrix<N>,
    upstream: &Matrix<N>,
) -> (r: Result<NormalizationGradients<N>, Error>)
    ensures
        gain_for(gain, kept.width()) && upstream.shaped(kept.height(), kept.width()) ==> (
        r matches Ok(g) && g.input.shaped(kept.height(), kept.width()) && g.gain.shaped(
            1,
            kept.width(),
        ) && g.input.terms() == input_gradient_of(
            upstream.terms(),
            gain.terms()[0],
            kept.units(),
            kept.inverses(),
        ) && g.gain.terms() == seq![
            gain_gradient_upto(upstream.terms(), kept.units(), kept.width(), kept.height()),
        ]),
        !(gain_for(gain, kept.width()) && upstream.shaped(kept.height(), kept.width())) ==> (
        r matches Err(e) && e == Error::ShapeError),
{
    proof {
        use_type_invariant(kept);
    }
    let width = kept.output.columns();
    let height = kept.output.rows();
    if gain.rows() != 1 || gain.columns() != width || upstream.rows() != height
        || upstream.columns() != width {
        return Err(Error::ShapeError);
    }
    let count = Traced::<N>::from_count(width as u64);
    let minus_one = Traced::<N>::from_count(0).minus(&Traced::from_count(1));
    let weights = gain.line(0);
    let ghost above = upstream.terms();
    let ghost units = kept.centred.terms();
    let ghost inverses = terms(kept.inverse_deviation@);
    let mut gain_gradient: Vec<Traced<N>> = constant_row(width, Traced::from_count(0));
    let mut input_gradient: Vec<Vec<Traced<N>>> = Vec::new();
    let mut i: usize = 0;
    while i < height
        invariant
            i <= height,
            kept.inv(),
            height == kept.output.height(),
            width == kept.output.width(),
            upstream.shaped(height as nat, width as nat),
            above == upstream.terms(),
            units == kept.centred.terms(),
            inverses == terms(kept.inverse_deviation@),
            weights@.len() == width,
            count@ == Term::Count(width as u64),
            minus_one@ == minus(zero(), one()),
            gain_gradient@.len() == width,
            terms(gain_gradient@) == gain_gradient_upto(above, units, width as nat, i as nat),
            input_gradient@.len() == i,
            rectangular(input_gradient@, width as nat),
            forall|k: int|
                0 <= k < i ==> terms((#[trigger] input_gradient@[k])@) == row_gradient_of(
                    above[k],
                    terms(weights@),
                    units[k],
                    inverses[k],
                ),
        decreases height - i,
    {
        let over_row = upstream.line(i);
        let unit = kept.centred.line(i);
        let inverse = kept.inverse_deviation[i];
        gain_gradient = added(&gain_gradient, &multiplied(over_row, unit));
        let through_gain = multiplied(over_row, weights);
        let mean_of_gradient = total(&through_gain).over(&count);
        let mean_of_product = dot(&through_gain, unit).over(&count);
        let less_mean = lowered(&through_gain, &mean_of_gradient);
        let less_both = with_multiple(&less_mean, &minus_one.times(&mean_of_product), unit);
        input_gradient.push(scaled(&less_both, &inverse));
        i = i + 1;
    }
    let mut gain_rows: Vec<Vec<Traced<N>>> = Vec::new();
    gain_rows.push(gain_gradient);
    Ok(
        NormalizationGradients {
            input: Matrix::assemble(input_gradient, width),
            gain: Matrix::assemble(gain_rows, width),
        },
    )
}

} // verus!
