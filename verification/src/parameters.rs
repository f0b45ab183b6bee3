//! The trainable numbers of a model: one matrix for each tensor that the model
//! has, in the order of the model's list of parameters.
//!
//! Gradients and the state of the optimizer are kept in the same form, so that
//! each has one entry for each entry of the parameters and no other.

use vstd::prelude::*;
use crate::binary64::{zero, Binary64};
use crate::block::{BlockTensor, FEED_FORWARD_EXPANSION};
use crate::config::Hyperparameters;
use crate::error::Error;
use crate::layout::{lays_out, lemma_prefix_is_no_larger, lemma_take_one_more, total_entries};
use crate::model::{
    law_every_parameter_has_a_name, law_parameter_count_is_sum_of_entries,
    law_parameters_are_where_they_are_looked_for, parameter_total_of, parameters_of,
    MetaFormerModel, ModelTensor,
};
use crate::number::{minus, one, over, root, terms, times, Number, Term, Traced};
use crate::seed::{fraction_of, scrambled, state_after, Generator, FRACTION_BITS};
use crate::shape::MatrixShape;
use crate::tensor::{
    filled_of, from_bits_of, grids, plus_multiple_of, rectangular, sum_of, Matrix,
};

verus! {

/// Whether the matrices are the tensors of a model with the given
/// hyperparameters: as many as the model has, each of its tensor's shape.
pub open spec fn fits<N>(hp: Hyperparameters, tensors: Seq<Matrix<N>>) -> bool {
    &&& tensors.len() == parameters_of(hp).len()
    &&& forall|i: int|
        0 <= i < tensors.len() ==> (#[trigger] tensors[i]).shaped(
            parameters_of(hp)[i].rows as nat,
            parameters_of(hp)[i].cols as nat,
        )
}

/// Whether the machine can index the widest tensor of a model with the given
/// hyperparameters: the hidden layer of the feed-forward sublayer.
pub open spec fn indexable(hp: Hyperparameters) -> bool {
    FEED_FORWARD_EXPANSION * hp.dimension <= usize::MAX
}

/// One matrix of each of the given shapes, with the same term everywhere.
pub open spec fn all_filled_of(shapes: Seq<MatrixShape>, value: Term) -> Seq<Seq<Seq<Term>>> {
    Seq::new(
        shapes.len(),
        |i: int| filled_of(shapes[i].rows as nat, shapes[i].cols as nat, value),
    )
}

/// The sums, matrix by matrix and entry by entry.
pub open spec fn sums_of(left: Seq<Seq<Seq<Term>>>, right: Seq<Seq<Seq<Term>>>) -> Seq<
    Seq<Seq<Term>>,
> {
    Seq::new(left.len(), |i: int| sum_of(left[i], right[i]))
}

/// The parameters after one step of gradient descent: each entry with its
/// gradient times the rate taken from it; nothing changed at a rate of zero.
pub open spec fn descended_of(
    parameters: Seq<Seq<Seq<Term>>>,
    gradients: Seq<Seq<Seq<Term>>>,
    rate: Binary64,
) -> Seq<Seq<Seq<Term>>> {
    if zero(rate.bits) {
        parameters
    } else {
        Seq::new(
            parameters.len(),
            |i: int|
                plus_multiple_of(
                    parameters[i],
                    minus(Term::Count(0), Term::Bits(rate.bits)),
                    gradients[i],
                ),
        )
    }
}

/// The matrices of the given shapes whose entries, tensor after tensor and row
/// after row, come from the bit patterns of a list.
pub open spec fn restored_of(shapes: Seq<MatrixShape>, bits: Seq<Binary64>) -> Seq<Seq<Seq<Term>>> {
    Seq::new(
        shapes.len(),
        |i: int|
            from_bits_of(
                shapes[i].rows as nat,
                shapes[i].cols as nat,
                bits,
                total_entries(shapes.take(i)) as int,
            ),
    )
}

/// The number that a fraction of the stream stands for in the initial
/// parameters: the fraction of the unit interval, doubled, one taken off, and
/// the result times the bound.
pub open spec fn spread_of(fraction: u64, bound: Term) -> Term {
    times(
        minus(
            times(
                Term::Count(2),
                over(Term::Count(fraction), Term::Count(0x20_0000_0000_0000)),
            ),
            one(),
        ),
        bound,
    )
}

/// The bound of the initial entries of a matrix: one over the root of the
/// number of its rows.
pub open spec fn bound_of(rows: u64) -> Term {
    over(one(), root(Term::Count(rows)))
}

/// A matrix drawn from the stream that starts in the given state, row after
/// row.
pub open spec fn drawn_of(state: u64, rows: nat, cols: nat, bound: Term) -> Seq<Seq<Term>> {
    Seq::new(
        rows,
        |i: int|
            Seq::new(
                cols,
                |j: int|
                    spread_of(
                        fraction_of(scrambled(state_after(state, (i * cols + j + 1) as nat))),
                        bound,
                    ),
            ),
    )
}

/// Whether the tensor at the given place of a model is a gain.
pub open spec fn gain_at(hp: Hyperparameters, place: int) -> bool {
    ModelTensor::placed(hp.depth, place) matches ModelTensor::Block { tensor, .. } && tensor.gain()
}

/// The state of the stream after the first `upto` tensors of a model have
/// been drawn: every tensor but the gains takes one draw for each entry.
pub open spec fn stream_after(hp: Hyperparameters, seed: u64, upto: nat) -> u64
    decreases upto,
{
    if upto == 0 {
        seed
    } else if gain_at(hp, upto - 1) {
        stream_after(hp, seed, (upto - 1) as nat)
    } else {
        state_after(
            stream_after(hp, seed, (upto - 1) as nat),
            parameters_of(hp)[upto - 1].entries(),
        )
    }
}

/// The parameters that a model starts from: gains of ones, and every other
/// tensor drawn from the stream where the tensors before it left it.
pub open spec fn initial_of(hp: Hyperparameters, seed: u64) -> Seq<Seq<Seq<Term>>> {
    Seq::new(
        parameters_of(hp).len(),
        |i: int|
            if gain_at(hp, i) {
                filled_of(
                    parameters_of(hp)[i].rows as nat,
                    parameters_of(hp)[i].cols as nat,
                    one(),
                )
            } else {
                drawn_of(
                    stream_after(hp, seed, i as nat),
                    parameters_of(hp)[i].rows as nat,
                    parameters_of(hp)[i].cols as nat,
                    bound_of(parameters_of(hp)[i].rows),
                )
            },
    )
}

/// One matrix for each tensor of a model.
pub struct Parameters<N> {
    pub(crate) hyperparameters: Hyperparameters,
    pub(crate) tensors: Vec<Matrix<N>>,
}

impl<N> Parameters<N> {
    #[verifier::type_invariant]
    pub(crate) closed spec fn inv(&self) -> bool {
        fits(self.hyperparameters, self.tensors@)
    }

    /// The matrices, in the order of the model's list of parameters.
    pub closed spec fn matrices(&self) -> Seq<Matrix<N>> {
        self.tensors@
    }

    /// How each entry of each matrix came about.
    pub open spec fn terms(&self) -> Seq<Seq<Seq<Term>>> {
        grids(self.matrices())
    }
}

impl<N> View for Parameters<N> {
    type V = Hyperparameters;

    /// The hyperparameters of the model whose tensors these are.
    closed spec fn view(&self) -> Hyperparameters {
        self.hyperparameters
    }
}

impl<N: Number> Parameters<N> {
    /// Takes the given matrices as the tensors of the model. `ShapeError`
    /// where they are not as many as the model has tensors, or one of them has
    /// not its tensor's shape.
    pub fn from_tensors(model: &MetaFormerModel, tensors: Vec<Matrix<N>>) -> (r: Result<
        Parameters<N>,
        Error,
    >)
        ensures
            fits(model@, tensors@) ==> (r matches Ok(p) && p@ == model@ && p.matrices()
                == tensors@),
            !fits(model@, tensors@) ==> (r matches Err(e) && e == Error::ShapeError),
    {
        let shapes = model.parameter_shapes();
        if tensors.len() != shapes.len() {
            return Err(Error::ShapeError);
        }
        let mut i: usize = 0;
        while i < tensors.len()
            invariant
                i <= tensors@.len(),
                tensors@.len() == shapes@.len(),
                shapes@ == parameters_of(model@),
                forall|k: int|
                    0 <= k < i ==> (#[trigger] tensors@[k]).shaped(
                        shapes@[k].rows as nat,
                        shapes@[k].cols as nat,
                    ),
            decreases tensors@.len() - i,
        {
            let shape = shapes[i];
            if tensors[i].rows() as u64 != shape.rows || tensors[i].columns() as u64 != shape.cols {
                return Err(Error::ShapeError);
            }
            i = i + 1;
        }
        Ok(Parameters { hyperparameters: model.hyperparameters(), tensors })
    }

    /// Takes matrices that are known to fit.
    pub(crate) fn assemble(hyperparameters: Hyperparameters, tensors: Vec<Matrix<N>>) -> (r:
        Parameters<N>)
        requires
            fits(hyperparameters, tensors@),
        ensures
            r@ == hyperparameters,
            r.matrices() == tensors@,
    {
        Parameters { hyperparameters, tensors }
    }

    /// A matrix for each tensor of the model, every entry the given number.
    fn filled_with(model: &MetaFormerModel, value: Traced<N>) -> (r: Option<Parameters<N>>)
        ensures
            indexable(model@) ==> (r matches Some(p) && p@ == model@ && p.terms() == all_filled_of(
                parameters_of(model@),
                value@,
            )),
            !indexable(model@) ==> r is None,
    {
        let hp = model.hyperparameters();
        let shapes = model.parameter_shapes();
        let mut tensors: Vec<Matrix<N>> = Vec::new();
        let mut i: usize = 0;
        while i < shapes.len()
            invariant
                i <= shapes@.len(),
                hp == model@,
                hp.valid(),
                shapes@ == parameters_of(hp),
                tensors@.len() == i,
                forall|k: int|
                    0 <= k < i ==> (#[trigger] tensors@[k]).shaped(
                        shapes@[k].rows as nat,
                        shapes@[k].cols as nat,
                    ),
                forall|k: int|
                    0 <= k < i ==> (#[trigger] tensors@[k]).terms() == filled_of(
                        shapes@[k].rows as nat,
                        shapes@[k].cols as nat,
                        value@,
                    ),
                forall|k: int|
                    0 <= k < i ==> (#[trigger] shapes@[k]).rows <= usize::MAX && shapes@[k].cols
                        <= usize::MAX,
            decreases shapes@.len() - i,
        {
            let shape = shapes[i];
            proof {
                lemma_dimensions_are_bounded(hp, i as int);
            }
            if shape.rows > usize::MAX as u64 || shape.cols > usize::MAX as u64 {
                return None;
            }
            tensors.push(Matrix::filled_with(shape.rows as usize, shape.cols as usize, value));
            i = i + 1;
        }
        proof {
            lemma_widest_is_listed(hp);
        }
        Some(Parameters { hyperparameters: hp, tensors })
    }

    /// A matrix for each tensor of the model, every entry the number with the
    /// given bit pattern; nothing where the machine cannot index the widest of
    /// them.
    pub fn filled(model: &MetaFormerModel, value: Binary64) -> (r: Option<Parameters<N>>)
        ensures
            indexable(model@) ==> (r matches Some(p) && p@ == model@ && p.terms() == all_filled_of(
                parameters_of(model@),
                Term::Bits(value.bits),
            )),
            !indexable(model@) ==> r is None,
    {
        Parameters::filled_with(model, Traced::from_bits(value.to_bits()))
    }

    /// A matrix of zeros for each tensor of the model; nothing where the
    /// machine cannot index the widest of them.
    pub fn zeros(model: &MetaFormerModel) -> (r: Option<Parameters<N>>)
        ensures
            indexable(model@) ==> (r matches Some(p) && p@ == model@ && p.terms() == all_filled_of(
                parameters_of(model@),
                Term::Count(0),
            )),
            !indexable(model@) ==> r is None,
    {
        Parameters::filled_with(model, Traced::from_count(0))
    }

    /// The parameters that a model starts from, drawn from the stream that
    /// the seed gives. Gains start at one. Every other entry is drawn evenly
    /// from an interval round zero that is the narrower, the more rows its
    /// matrix has. Nothing where the machine cannot index the widest tensor.
    pub fn initialise(model: &MetaFormerModel, seed: u64) -> (r: Option<Parameters<N>>)
        ensures
            indexable(model@) ==> (r matches Some(p) && p@ == model@ && p.terms() == initial_of(
                model@,
                seed,
            )),
            !indexable(model@) ==> r is None,
    {
        let hp = model.hyperparameters();
        let shapes = model.parameter_shapes();
        let mut stream = Generator::seeded(seed);
        let unity = Traced::<N>::from_count(1);
        let mut tensors: Vec<Matrix<N>> = Vec::new();
        let mut i: usize = 0;
        while i < shapes.len()
            invariant
                i <= shapes@.len(),
                hp == model@,
                hp.valid(),
                shapes@ == parameters_of(hp),
                unity@ == one(),
                stream.state == stream_after(hp, seed, i as nat),
                tensors@.len() == i,
                forall|k: int|
                    0 <= k < i ==> (#[trigger] tensors@[k]).shaped(
                        shapes@[k].rows as nat,
                        shapes@[k].cols as nat,
                    ),
                forall|k: int|
                    0 <= k < i ==> (#[trigger] tensors@[k]).terms() == initial_of(hp, seed)[k],
                forall|k: int|
                    0 <= k < i ==> (#[trigger] shapes@[k]).rows <= usize::MAX && shapes@[k].cols
                        <= usize::MAX,
            decreases shapes@.len() - i,
        {
            let shape = shapes[i];
            proof {
                lemma_dimensions_are_bounded(hp, i as int);
            }
            if shape.rows > usize::MAX as u64 || shape.cols > usize::MAX as u64 {
                return None;
            }
            let rows = shape.rows as usize;
            let cols = shape.cols as usize;
            let is_gain = match model.tensor_at(i as u64) {
                Some(ModelTensor::Block { tensor, .. }) => tensor.is_gain(),
                _ => false,
            };
            if is_gain {
                tensors.push(Matrix::filled_with(rows, cols, unity));
            } else {
                let bound = unity.over(&Traced::from_count(shape.rows).root());
                tensors.push(drawn(&mut stream, rows, cols, &bound));
            }
            i = i + 1;
        }
        proof {
            lemma_widest_is_listed(hp);
        }
        Some(Parameters { hyperparameters: hp, tensors })
    }

    /// The hyperparameters of the model whose tensors these are.
    pub fn hyperparameters(&self) -> (r: Hyperparameters)
        ensures
            r == self@,
    {
        self.hyperparameters
    }

    /// The matrices, in the order of the model's list of parameters.
    pub fn tensors(&self) -> (r: &Vec<Matrix<N>>)
        ensures
            r@ == self.matrices(),
            fits(self@, r@),
    {
        proof {
            use_type_invariant(self);
        }
        &self.tensors
    }

    /// Gives the matrices up.
    pub fn into_tensors(self) -> (r: Vec<Matrix<N>>)
        ensures
            r@ == self.matrices(),
            fits(self@, r@),
    {
        proof {
            use_type_invariant(&self);
        }
        self.tensors
    }

    /// The matrix of the tensor named, or nothing where the model has no such
    /// tensor.
    pub fn tensor(&self, which: ModelTensor) -> (r: Option<&Matrix<N>>)
        ensures
            which.within(self@.depth) ==> (r matches Some(m) && *m == self.matrices()[which.place(
                self@.depth,
            )] && m.shaped(which.shape(self@).rows as nat, which.shape(self@).cols as nat)
                && m.terms() == self.terms()[which.place(self@.depth)]),
            !which.within(self@.depth) ==> r is None,
    {
        proof {
            use_type_invariant(self);
            if which.within(self.hyperparameters.depth) {
                law_every_parameter_is_named(self.hyperparameters, which);
            }
        }
        let count = self.tensors.len();
        match which.index(self.hyperparameters.depth) {
            Some(index) => {
                Some(&self.tensors[index as usize])
            },
            None => None,
        }
    }

    /// A matrix of zeros for each of these matrices, of the same shape.
    pub fn zeroed(&self) -> (r: Parameters<N>)
        ensures
            r@ == self@,
            r.terms() == all_filled_of(parameters_of(self@), Term::Count(0)),
    {
        proof {
            use_type_invariant(self);
        }
        let hp = self.hyperparameters;
        let mut tensors: Vec<Matrix<N>> = Vec::new();
        let mut i: usize = 0;
        while i < self.tensors.len()
            invariant
                i <= self.tensors@.len(),
                hp == self.hyperparameters,
                fits(hp, self.tensors@),
                tensors@.len() == i,
                forall|k: int|
                    0 <= k < i ==> (#[trigger] tensors@[k]).shaped(
                        parameters_of(hp)[k].rows as nat,
                        parameters_of(hp)[k].cols as nat,
                    ),
                forall|k: int|
                    0 <= k < i ==> (#[trigger] tensors@[k]).terms() == filled_of(
                        parameters_of(hp)[k].rows as nat,
                        parameters_of(hp)[k].cols as nat,
                        Term::Count(0),
                    ),
            decreases self.tensors@.len() - i,
        {
            tensors.push(Matrix::zeros(self.tensors[i].rows(), self.tensors[i].columns()));
            i = i + 1;
        }
        Parameters { hyperparameters: hp, tensors }
    }

    /// The sum of these and the others, entry by entry. `ShapeError` where the
    /// others are those of a model with other hyperparameters.
    pub fn plus(&self, other: &Parameters<N>) -> (r: Result<Parameters<N>, Error>)
        ensures
            other@ == self@ ==> (r matches Ok(total) && total@ == self@ && total.terms() == sums_of(
                self.terms(),
                other.terms(),
            )),
            other@ != self@ ==> (r matches Err(e) && e == Error::ShapeError),
    {
        proof {
            use_type_invariant(self);
            use_type_invariant(other);
        }
        if self.hyperparameters != other.hyperparameters {
            return Err(Error::ShapeError);
        }
        let hp = self.hyperparameters;
        let mut tensors: Vec<Matrix<N>> = Vec::new();
        let mut i: usize = 0;
        while i < self.tensors.len()
            invariant
                i <= self.tensors@.len(),
                hp == self.hyperparameters,
                hp == other.hyperparameters,
                fits(hp, self.tensors@),
                fits(hp, other.tensors@),
                tensors@.len() == i,
                forall|k: int|
                    0 <= k < i ==> (#[trigger] tensors@[k]).shaped(
                        parameters_of(hp)[k].rows as nat,
                        parameters_of(hp)[k].cols as nat,
                    ),
                forall|k: int|
                    0 <= k < i ==> (#[trigger] tensors@[k]).terms() == sum_of(
                        self.tensors@[k].terms(),
                        other.tensors@[k].terms(),
                    ),
            decreases self.tensors@.len() - i,
        {
            let total = match self.tensors[i].sum(&other.tensors[i]) {
                Ok(total) => total,
                Err(e) => {
                    return Err(e);
                },
            };
            tensors.push(total);
            i = i + 1;
        }
        Ok(Parameters { hyperparameters: hp, tensors })
    }

    /// One step of gradient descent: every entry moves against its gradient,
    /// by the gradient times the rate. At a rate of zero nothing is touched.
    /// `ShapeError`, and nothing changed, where the gradients are those of a
    /// model with other hyperparameters.
    pub fn descend(&mut self, gradients: &Parameters<N>, rate: Binary64) -> (r: Result<(), Error>)
        ensures
            final(self)@ == old(self)@,
            gradients@ == old(self)@ ==> r is Ok && final(self).terms() == descended_of(
                old(self).terms(),
                gradients.terms(),
                rate,
            ),
            gradients@ != old(self)@ ==> (r matches Err(e) && e == Error::ShapeError),
            r is Err || zero(rate.bits) ==> *final(self) == *old(self),
    {
        proof {
            use_type_invariant(&*self);
            use_type_invariant(gradients);
        }
        if self.hyperparameters != gradients.hyperparameters {
            return Err(Error::ShapeError);
        }
        if rate.is_zero() {
            return Ok(());
        }
        let step = Traced::<N>::from_count(0).minus(&Traced::from_bits(rate.to_bits()));
        let hp = self.hyperparameters;
        let mut tensors: Vec<Matrix<N>> = Vec::new();
        let mut i: usize = 0;
        while i < self.tensors.len()
            invariant
                i <= self.tensors@.len(),
                hp == self.hyperparameters,
                hp == gradients.hyperparameters,
                step@ == minus(Term::Count(0), Term::Bits(rate.bits)),
                fits(hp, self.tensors@),
                fits(hp, gradients.tensors@),
                tensors@.len() == i,
                forall|k: int|
                    0 <= k < i ==> (#[trigger] tensors@[k]).shaped(
                        parameters_of(hp)[k].rows as nat,
                        parameters_of(hp)[k].cols as nat,
                    ),
                forall|k: int|
                    0 <= k < i ==> (#[trigger] tensors@[k]).terms() == plus_multiple_of(
                        self.tensors@[k].terms(),
                        step@,
                        gradients.tensors@[k].terms(),
                    ),
            decreases self.tensors@.len() - i,
        {
            let moved = match self.tensors[i].with_multiple(&step, &gradients.tensors[i]) {
                Ok(moved) => moved,
                Err(e) => {
                    return Err(e);
                },
            };
            tensors.push(moved);
            i = i + 1;
        }
        self.tensors = tensors;
        Ok(())
    }

    /// The bit patterns of all entries, tensor after tensor and row after
    /// row: the parameters as one flat list, in which each tensor lies where
    /// the layout of the model says.
    pub fn bits(&self) -> (r: Vec<Binary64>)
        ensures
            r@.len() == parameter_total_of(self@),
    {
        proof {
            use_type_invariant(self);
        }
        let ghost shapes = parameters_of(self.hyperparameters);
        let mut out: Vec<Binary64> = Vec::new();
        let mut i: usize = 0;
        while i < self.tensors.len()
            invariant
                i <= self.tensors@.len(),
                shapes == parameters_of(self.hyperparameters),
                fits(self.hyperparameters, self.tensors@),
                out@.len() == total_entries(shapes.take(i as int)),
            decreases self.tensors@.len() - i,
        {
            proof {
                lemma_take_one_more(shapes, i as int);
            }
            let mut of_tensor = self.tensors[i].bits();
            out.append(&mut of_tensor);
            i = i + 1;
        }
        proof {
            assert(shapes.take(i as int) =~= shapes);
            law_parameter_count_is_sum_of_entries(self.hyperparameters);
        }
        out
    }

    /// The parameters of the model whose entries have the given bit
    /// patterns, tensor after tensor and row after row. `ShapeError` where
    /// the patterns are not as many as the model has parameters.
    pub fn from_bits(model: &MetaFormerModel, bits: &Vec<Binary64>) -> (r: Result<
        Parameters<N>,
        Error,
    >)
        ensures
            bits@.len() == parameter_total_of(model@) ==> (r matches Ok(p) && p@ == model@
                && p.terms() == restored_of(parameters_of(model@), bits@)),
            bits@.len() != parameter_total_of(model@) ==> (r matches Err(e) && e
                == Error::ShapeError),
    {
        let hp = model.hyperparameters();
        if bits.len() as u128 != model.parameter_count() {
            return Err(Error::ShapeError);
        }
        let slots = match model.layout() {
            Some(slots) => slots,
            None => vstd::pervasive::unreached(),
        };
        let ghost shapes = parameters_of(hp);
        proof {
            law_parameter_count_is_sum_of_entries(hp);
        }
        let mut tensors: Vec<Matrix<N>> = Vec::new();
        let mut i: usize = 0;
        while i < slots.len()
            invariant
                i <= slots@.len(),
                hp == model@,
                hp.valid(),
                shapes == parameters_of(hp),
                lays_out(slots@, shapes),
                total_entries(shapes) == bits@.len(),
                tensors@.len() == i,
                forall|k: int|
                    0 <= k < i ==> (#[trigger] tensors@[k]).shaped(
                        shapes[k].rows as nat,
                        shapes[k].cols as nat,
                    ),
                forall|k: int|
                    0 <= k < i ==> (#[trigger] tensors@[k]).terms() == restored_of(
                        shapes,
                        bits@,
                    )[k],
            decreases slots@.len() - i,
        {
            let slot = slots[i];
            let limit = bits.len();
            proof {
                lemma_take_one_more(shapes, i as int);
                lemma_prefix_is_no_larger(shapes, i + 1);
                lemma_dimensions_are_positive(hp, i as int);
                let rows = shapes[i as int].rows as int;
                let cols = shapes[i as int].cols as int;
                assert(rows <= rows * cols && cols <= rows * cols) by (nonlinear_arith)
                    requires
                        rows >= 1,
                        cols >= 1,
                ;
            }
            tensors.push(
                Matrix::from_bits(
                    slot.shape.rows as usize,
                    slot.shape.cols as usize,
                    bits,
                    slot.offset,
                ),
            );
            i = i + 1;
        }
        Ok(Parameters { hyperparameters: hp, tensors })
    }
}

/// A matrix of the given shape, every entry drawn from the stream and spread
/// evenly between the bound below zero and the bound above it.
fn drawn<N: Number>(stream: &mut Generator, rows: usize, cols: usize, bound: &Traced<N>) -> (r:
    Matrix<N>)
    ensures
        r.shaped(rows as nat, cols as nat),
        r.terms() == drawn_of(old(stream).state, rows as nat, cols as nat, bound@),
        final(stream).state == state_after(old(stream).state, (rows * cols) as nat),
{
    let unity = Traced::<N>::from_count(1);
    let two = Traced::<N>::from_count(2);
    assert(1u64 << 53 == 0x20_0000_0000_0000) by (bit_vector);
    let whole = Traced::<N>::from_count(1u64 << FRACTION_BITS);
    let ghost start = stream.state;
    let ghost wanted = drawn_of(start, rows as nat, cols as nat, bound@);
    let mut entries: Vec<Vec<Traced<N>>> = Vec::new();
    let mut i: usize = 0;
    while i < rows
        invariant
            i <= rows,
            unity@ == one(),
            two@ == Term::Count(2),
            whole@ == Term::Count(0x20_0000_0000_0000),
            start == old(stream).state,
            wanted == drawn_of(start, rows as nat, cols as nat, bound@),
            stream.state == state_after(start, (i * cols) as nat),
            entries@.len() == i,
            rectangular(entries@, cols as nat),
            forall|k: int| 0 <= k < i ==> terms((#[trigger] entries@[k])@) == wanted[k],
        decreases rows - i,
    {
        let mut row: Vec<Traced<N>> = Vec::new();
        let mut j: usize = 0;
        while j < cols
            invariant
                j <= cols,
                0 <= i * cols,
                unity@ == one(),
                two@ == Term::Count(2),
                whole@ == Term::Count(0x20_0000_0000_0000),
                stream.state == state_after(start, (i * cols + j) as nat),
                row@.len() == j,
                forall|c: int|
                    0 <= c < j ==> row@[c]@ == spread_of(
                        fraction_of(scrambled(state_after(start, (i * cols + c + 1) as nat))),
                        bound@,
                    ),
            decreases cols - j,
        {
            let fraction = Traced::<N>::from_count(stream.next_fraction()).over(&whole);
            row.push(two.times(&fraction).minus(&unity).times(bound));
            j = j + 1;
        }
        assert((i + 1) * cols == i * cols + cols) by (nonlinear_arith);
        entries.push(row);
        i = i + 1;
    }
    Matrix::assemble(entries, cols)
}

/// No tensor of a model has more rows or columns than the largest number of
/// thirty-two bits, but for the hidden layer of the feed-forward sublayer,
/// which is four times the dimension wide.
pub proof fn lemma_dimensions_are_bounded(hp: Hyperparameters, index: int)
    requires
        0 <= index < parameters_of(hp).len(),
    ensures
        parameters_of(hp)[index].rows <= u32::MAX || parameters_of(hp)[index].rows
            == FEED_FORWARD_EXPANSION * hp.dimension,
        parameters_of(hp)[index].cols <= u32::MAX || parameters_of(hp)[index].cols
            == FEED_FORWARD_EXPANSION * hp.dimension,
        indexable(hp) ==> parameters_of(hp)[index].rows <= usize::MAX && parameters_of(
            hp,
        )[index].cols <= usize::MAX,
{
    law_every_parameter_has_a_name(hp, index);
}

/// A model with at least one block has a tensor that is four times the
/// dimension wide.
pub proof fn lemma_widest_is_listed(hp: Hyperparameters)
    requires
        hp.depth > 0,
    ensures
        parameters_of(hp)[7].cols == FEED_FORWARD_EXPANSION * hp.dimension,
        7 < parameters_of(hp).len(),
{
    law_parameters_are_where_they_are_looked_for(hp, 0, BlockTensor::Expand);
}

/// In a model with valid hyperparameters every tensor has at least one row
/// and one column.
pub proof fn lemma_dimensions_are_positive(hp: Hyperparameters, index: int)
    requires
        hp.valid(),
        0 <= index < parameters_of(hp).len(),
    ensures
        parameters_of(hp)[index].rows >= 1,
        parameters_of(hp)[index].cols >= 1,
{
    law_every_parameter_has_a_name(hp, index);
}

/// The tensor named stands in the list of parameters at its place, with its
/// shape.
pub proof fn law_every_parameter_is_named(hp: Hyperparameters, which: ModelTensor)
    requires
        which.within(hp.depth),
    ensures
        0 <= which.place(hp.depth) < parameters_of(hp).len(),
        parameters_of(hp)[which.place(hp.depth)] == which.shape(hp),
{
    match which {
        ModelTensor::Block { block, tensor } => {
            law_parameters_are_where_they_are_looked_for(hp, block as int, tensor);
        },
        _ => {
            law_parameters_are_where_they_are_looked_for(hp, 0, BlockTensor::Query);
        },
    }
}

} // verus!
