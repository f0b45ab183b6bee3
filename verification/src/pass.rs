//! One pass through a model: forward, from token ids to logits, and backward,
//! from the gradient of the logits to the gradients of all parameters.

use vstd::prelude::*;
use crate::attend::{attention_gradient_of, attention_of, Attended, Attention, AttentionGradients};
use crate::block::{canonical_order, BlockTensor, SubLayer, TransformerBlock, FEED_FORWARD_EXPANSION};
use crate::config::{Encoding, Hyperparameters};
use crate::error::Error;
use crate::model::{block_of, parameters_of, place_of, MetaFormerModel, ModelTensor};
use crate::normalization::{
    gain_gradient_upto, input_gradient_of, inverse_deviations_of, normalize, normalize_backward,
    normalized_of, units_of, NormalizationGradients, Normalized,
};
use crate::number::{cos, exp, ln, over, sin, terms, times, Number, Term, Traced};
use crate::parameters::{all_filled_of, fits, law_every_parameter_is_named, Parameters};
use crate::rows::{added, added_of};
use crate::tensor::{
    filled_of, gated_of, grids, matmul_of, rectangular, rectified_of, scattered_of, sum_of,
    times_transposed_of, transposed_times_of, Matrix,
};
use crate::tokens::{all_in_vocabulary, sequence_checked};

verus! {

/// The bit pattern of the base of the wavelengths of the positional code:
/// 10000.
pub const WAVELENGTH_BASE_BITS: u64 = 0x40C3_8800_0000_0000;

/// The vector that encodes a position: sines in the even components and
/// cosines in the odd ones, of the position divided by a wavelength that grows
/// from pair to pair of components.
pub open spec fn position_code_of(position: nat, width: nat) -> Seq<Term> {
    Seq::new(
        width,
        |c: int|
            {
                let angle = over(
                    Term::Count(position as u64),
                    exp(
                        times(
                            ln(Term::Bits(WAVELENGTH_BASE_BITS)),
                            over(Term::Count((2 * (c / 2)) as u64), Term::Count(width as u64)),
                        ),
                    ),
                );
                if c % 2 == 0 {
                    sin(angle)
                } else {
                    cos(angle)
                }
            },
    )
}

/// The rows of the embedding table that the token ids name, each with the code
/// of its position added.
pub open spec fn embedded_of(table: Seq<Seq<Term>>, tokens: Seq<i64>, width: nat) -> Seq<
    Seq<Term>,
> {
    Seq::new(
        tokens.len(),
        |p: int| added_of(table[tokens[p] as int], position_code_of(p as nat, width)),
    )
}

/// What flows through a block: the residual stream, and what the sublayer
/// under way has made of it so far.
pub struct Flow {
    pub stream: Seq<Seq<Term>>,
    pub current: Seq<Seq<Term>>,
}

/// The tensor of a block among the parameters.
pub open spec fn tensor_of(parameters: Seq<Seq<Seq<Term>>>, block: int, tensor: BlockTensor) -> Seq<
    Seq<Term>,
> {
    parameters[place_of(block, tensor)]
}

/// Width of a head of a model.
pub open spec fn each_of(hp: Hyperparameters) -> nat {
    (hp.dimension / hp.heads) as nat
}

/// Width of the hidden layer of the feed-forward sublayer of a model.
pub open spec fn hidden_of(hp: Hyperparameters) -> nat {
    (FEED_FORWARD_EXPANSION * hp.dimension) as nat
}

/// What attention in the given block computes on what flows in.
pub open spec fn attended_of(
    hp: Hyperparameters,
    parameters: Seq<Seq<Seq<Term>>>,
    block: int,
    input: Seq<Seq<Term>>,
) -> Attention {
    attention_of(
        hp.attention_kind,
        hp.heads as nat,
        each_of(hp),
        hp.dimension as nat,
        input,
        tensor_of(parameters, block, BlockTensor::Query),
        tensor_of(parameters, block, BlockTensor::Key),
        tensor_of(parameters, block, BlockTensor::Value),
        tensor_of(parameters, block, BlockTensor::Output),
    )
}

/// The hidden layer of the feed-forward sublayer of the given block: the input
/// times the matrix into it, and what does not exceed zero replaced by zero.
pub open spec fn hidden_layer_of(
    hp: Hyperparameters,
    parameters: Seq<Seq<Seq<Term>>>,
    block: int,
    input: Seq<Seq<Term>>,
) -> Seq<Seq<Term>> {
    rectified_of(
        matmul_of(input, tensor_of(parameters, block, BlockTensor::Expand), hidden_of(hp)),
    )
}

/// What one operation of the given block makes of what flows in.
pub open spec fn applied(
    hp: Hyperparameters,
    parameters: Seq<Seq<Seq<Term>>>,
    block: int,
    step: SubLayer,
    flow: Flow,
) -> Flow {
    match step {
        SubLayer::Normalize { gain } => Flow {
            stream: flow.stream,
            current: normalized_of(flow.stream, tensor_of(parameters, block, gain)[0]),
        },
        SubLayer::Attend => Flow {
            stream: flow.stream,
            current: attended_of(hp, parameters, block, flow.current).output,
        },
        SubLayer::FeedForward => Flow {
            stream: flow.stream,
            current: matmul_of(
                hidden_layer_of(hp, parameters, block, flow.current),
                tensor_of(parameters, block, BlockTensor::Contract),
                hp.dimension as nat,
            ),
        },
        SubLayer::AddResidual => Flow {
            stream: sum_of(flow.stream, flow.current),
            current: flow.current,
        },
    }
}

/// What the first `upto` operations of the given block make of what flows in.
pub open spec fn flowed_upto(
    hp: Hyperparameters,
    parameters: Seq<Seq<Seq<Term>>>,
    block: int,
    flow: Flow,
    upto: nat,
) -> Flow
    decreases upto,
{
    if upto == 0 {
        flow
    } else {
        applied(
            hp,
            parameters,
            block,
            canonical_order()[upto - 1],
            flowed_upto(hp, parameters, block, flow, (upto - 1) as nat),
        )
    }
}

/// What leaves the first `upto` blocks of a model when the given stream enters
/// the first.
pub open spec fn blocks_upto(
    hp: Hyperparameters,
    parameters: Seq<Seq<Seq<Term>>>,
    stream: Seq<Seq<Term>>,
    upto: nat,
) -> Seq<Seq<Term>>
    decreases upto,
{
    if upto == 0 {
        stream
    } else {
        flowed_upto(
            hp,
            parameters,
            upto - 1,
            entering(blocks_upto(hp, parameters, stream, (upto - 1) as nat)),
            canonical_order().len(),
        ).stream
    }
}

/// What flows into a block: the stream, and nothing made of it yet.
pub open spec fn entering(stream: Seq<Seq<Term>>) -> Flow {
    Flow { stream, current: stream }
}

/// What one operation of a block keeps for the way back, as terms.
pub enum Memo {
    /// A normalization keeps the unit rows and one over each deviation.
    Normalize { block: int, gain: BlockTensor, units: Seq<Seq<Term>>, inverses: Seq<Term> },
    /// Attention keeps its input and all that it computed.
    Attend { block: int, input: Seq<Seq<Term>>, kept: Attention },
    /// The feed-forward sublayer keeps its input and its hidden layer.
    FeedForward { block: int, input: Seq<Seq<Term>>, hidden: Seq<Seq<Term>> },
    /// A residual connection keeps nothing.
    AddResidual,
}

/// What one operation of the given block keeps of what flows in.
pub open spec fn memo_of(
    hp: Hyperparameters,
    parameters: Seq<Seq<Seq<Term>>>,
    block: int,
    step: SubLayer,
    flow: Flow,
) -> Memo {
    match step {
        SubLayer::Normalize { gain } => Memo::Normalize {
            block,
            gain,
            units: units_of(flow.stream),
            inverses: inverse_deviations_of(flow.stream),
        },
        SubLayer::Attend => Memo::Attend {
            block,
            input: flow.current,
            kept: attended_of(hp, parameters, block, flow.current),
        },
        SubLayer::FeedForward => Memo::FeedForward {
            block,
            input: flow.current,
            hidden: hidden_layer_of(hp, parameters, block, flow.current),
        },
        SubLayer::AddResidual => Memo::AddResidual,
    }
}

/// What the first `upto` operations of the given block keep, in their order.
pub open spec fn block_tape_upto(
    hp: Hyperparameters,
    parameters: Seq<Seq<Seq<Term>>>,
    block: int,
    flow: Flow,
    upto: nat,
) -> Seq<Memo>
    decreases upto,
{
    if upto == 0 {
        Seq::<Memo>::empty()
    } else {
        block_tape_upto(hp, parameters, block, flow, (upto - 1) as nat).push(
            memo_of(
                hp,
                parameters,
                block,
                canonical_order()[upto - 1],
                flowed_upto(hp, parameters, block, flow, (upto - 1) as nat),
            ),
        )
    }
}

/// What the first `upto` blocks of a model keep, in their order.
pub open spec fn tape_upto(
    hp: Hyperparameters,
    parameters: Seq<Seq<Seq<Term>>>,
    stream: Seq<Seq<Term>>,
    upto: nat,
) -> Seq<Memo>
    decreases upto,
{
    if upto == 0 {
        Seq::<Memo>::empty()
    } else {
        tape_upto(hp, parameters, stream, (upto - 1) as nat) + block_tape_upto(
            hp,
            parameters,
            upto - 1,
            entering(blocks_upto(hp, parameters, stream, (upto - 1) as nat)),
            canonical_order().len(),
        )
    }
}

/// A forward pass, as terms.
pub struct Passed {
    /// What the operations kept, in their order.
    pub tape: Seq<Memo>,
    /// What left the last block.
    pub last: Seq<Seq<Term>>,
    /// The logits.
    pub logits: Seq<Seq<Term>>,
}

/// The forward pass of a model on a sequence of token ids: the embedding of
/// the tokens with their positions, every block in order, and the output
/// projection.
pub open spec fn passed_of(
    hp: Hyperparameters,
    parameters: Seq<Seq<Seq<Term>>>,
    tokens: Seq<i64>,
) -> Passed {
    let embedded = embedded_of(
        parameters[ModelTensor::Embedding.place(hp.depth)],
        tokens,
        hp.dimension as nat,
    );
    let last = blocks_upto(hp, parameters, embedded, hp.depth as nat);
    Passed {
        tape: tape_upto(hp, parameters, embedded, hp.depth as nat),
        last,
        logits: matmul_of(
            last,
            parameters[ModelTensor::Projection.place(hp.depth)],
            hp.output_vocabolary as nat,
        ),
    }
}

/// What one operation of a block keeps for the way back.
pub(crate) enum Kept<N> {
    Normalize { block: u32, gain: BlockTensor, normalized: Normalized<N> },
    Attend { block: u32, attended: Attended<N> },
    FeedForward { block: u32, input: Matrix<N>, hidden: Matrix<N> },
    AddResidual,
}

impl<N> Kept<N> {
    /// Whether what was kept belongs to a pass of a model with the given
    /// hyperparameters over a sequence of the given length.
    pub(crate) open spec fn fits(&self, hp: Hyperparameters, length: nat) -> bool {
        match self {
            Kept::Normalize { block, gain, normalized } => *block < hp.depth && gain.gain()
                && normalized.height() == length && normalized.width() == hp.dimension,
            Kept::Attend { block, attended } => *block < hp.depth && attended.length() == length
                && attended.width() == hp.dimension && attended.heads() == hp.heads
                && attended.each() == each_of(hp),
            Kept::FeedForward { block, input, hidden } => *block < hp.depth && input.shaped(
                length,
                hp.dimension as nat,
            ) && hidden.shaped(length, hidden_of(hp)),
            Kept::AddResidual => true,
        }
    }

    /// What was kept, as terms.
    pub(crate) open spec fn memo(&self) -> Memo {
        match self {
            Kept::Normalize { block, gain, normalized } => Memo::Normalize {
                block: *block as int,
                gain: *gain,
                units: normalized.units(),
                inverses: normalized.inverses(),
            },
            Kept::Attend { block, attended } => Memo::Attend {
                block: *block as int,
                input: attended.given(),
                kept: attended.terms(),
            },
            Kept::FeedForward { block, input, hidden } => Memo::FeedForward {
                block: *block as int,
                input: input.terms(),
                hidden: hidden.terms(),
            },
            Kept::AddResidual => Memo::AddResidual,
        }
    }
}

/// Whether everything on a tape belongs to one pass.
pub(crate) open spec fn tape_fits<N>(tape: Seq<Kept<N>>, hp: Hyperparameters, length: nat) -> bool {
    forall|t: int| 0 <= t < tape.len() ==> (#[trigger] tape[t]).fits(hp, length)
}

/// A tape as terms.
pub(crate) open spec fn memos<N>(tape: Seq<Kept<N>>) -> Seq<Memo> {
    Seq::new(tape.len(), |t: int| tape[t].memo())
}

/// A forward pass on one sequence: the logits, and what the way back needs.
pub struct Pass<N> {
    pub(crate) hyperparameters: Hyperparameters,
    pub(crate) tokens: Vec<i64>,
    pub(crate) tape: Vec<Kept<N>>,
    pub(crate) last: Matrix<N>,
    pub(crate) logits: Matrix<N>,
}

impl<N> Pass<N> {
    #[verifier::type_invariant]
    pub(crate) closed spec fn inv(&self) -> bool {
        &&& self.hyperparameters.valid()
        &&& self.tokens@.len() <= self.hyperparameters.context_window
        &&& all_in_vocabulary(self.tokens@, self.hyperparameters.input_vocabolary)
        &&& tape_fits(self.tape@, self.hyperparameters, self.tokens@.len())
        &&& self.last.shaped(self.tokens@.len(), self.hyperparameters.dimension as nat)
        &&& self.logits.shaped(self.tokens@.len(), self.hyperparameters.output_vocabolary as nat)
    }

    /// The token ids that the pass was made on.
    pub closed spec fn tokens(&self) -> Seq<i64> {
        self.tokens@
    }

    /// What the pass computed.
    pub closed spec fn terms(&self) -> Passed {
        Passed { tape: memos(self.tape@), last: self.last.terms(), logits: self.logits.terms() }
    }
}

impl<N> View for Pass<N> {
    type V = Hyperparameters;

    /// The hyperparameters of the model that the pass went through.
    closed spec fn view(&self) -> Hyperparameters {
        self.hyperparameters
    }
}

/// The tensor of a block.
fn part<N: Number>(parameters: &Parameters<N>, block: u32, tensor: BlockTensor) -> (r: &Matrix<N>)
    requires
        block < parameters@.depth,
    ensures
        r.shaped(
            block_of(parameters@).shape_of(tensor).rows as nat,
            block_of(parameters@).shape_of(tensor).cols as nat,
        ),
        r.terms() == tensor_of(parameters.terms(), block as int, tensor),
{
    match parameters.tensor(ModelTensor::Block { block, tensor }) {
        Some(matrix) => matrix,
        None => vstd::pervasive::unreached(),
    }
}

/// The value of a result that is known to be one.
fn sure<T>(result: Result<T, Error>) -> (r: T)
    requires
        result is Ok,
    ensures
        result == Ok::<T, Error>(r),
{
    match result {
        Ok(value) => value,
        Err(_) => vstd::pervasive::unreached(),
    }
}

/// A list with the same numbers.
fn copied(tokens: &Vec<i64>) -> (r: Vec<i64>)
    ensures
        r@ == tokens@,
{
    let mut out: Vec<i64> = Vec::new();
    let mut i: usize = 0;
    while i < tokens.len()
        invariant
            i <= tokens@.len(),
            out@ == tokens@.take(i as int),
        decreases tokens@.len() - i,
    {
        out.push(tokens[i]);
        i = i + 1;
    }
    out
}

/// The vector that encodes a position.
fn position_code<N: Number>(encoding: Encoding, position: usize, width: usize) -> (r: Vec<Traced<N>>)
    ensures
        r@.len() == width,
        terms(r@) == position_code_of(position as nat, width as nat),
{
    let base = Traced::<N>::from_bits(WAVELENGTH_BASE_BITS).ln();
    let whole = Traced::<N>::from_count(width as u64);
    let place = Traced::<N>::from_count(position as u64);
    let mut code: Vec<Traced<N>> = Vec::new();
    let mut c: usize = 0;
    while c < width
        invariant
            c <= width,
            base@ == ln(Term::Bits(WAVELENGTH_BASE_BITS)),
            whole@ == Term::Count(width as u64),
            place@ == Term::Count(position as u64),
            code@.len() == c,
            forall|k: int|
                0 <= k < c ==> code@[k]@ == position_code_of(position as nat, width as nat)[k],
        decreases width - c,
    {
        match encoding {
            Encoding::Sinusoidal => {
                let pair: usize = c / 2;
                let exponent = Traced::<N>::from_count(2 * (pair as u64)).over(&whole);
                let angle = place.over(&base.times(&exponent).exp());
                if c % 2 == 0 {
                    code.push(angle.sin());
                } else {
                    code.push(angle.cos());
                }
            },
        }
        c = c + 1;
    }
    code
}

/// The rows of the embedding table that the token ids name, each with the code
/// of its position added.
fn embed<N: Number>(table: &Matrix<N>, tokens: &Vec<i64>, encoding: Encoding) -> (r: Matrix<N>)
    requires
        forall|i: int| 0 <= i < tokens@.len() ==> 0 <= #[trigger] tokens@[i] < table.height(),
    ensures
        r.shaped(tokens@.len(), table.width()),
        r.terms() == embedded_of(table.terms(), tokens@, table.width()),
{
    let width = table.columns();
    let height = table.rows();
    let ghost wanted = embedded_of(table.terms(), tokens@, width as nat);
    let mut entries: Vec<Vec<Traced<N>>> = Vec::new();
    let mut p: usize = 0;
    while p < tokens.len()
        invariant
            p <= tokens@.len(),
            table.sound(),
            width == table.width(),
            height == table.height(),
            wanted == embedded_of(table.terms(), tokens@, width as nat),
            forall|i: int| 0 <= i < tokens@.len() ==> 0 <= #[trigger] tokens@[i] < table.height(),
            entries@.len() == p,
            rectangular(entries@, width as nat),
            forall|k: int| 0 <= k < p ==> terms((#[trigger] entries@[k])@) == wanted[k],
        decreases tokens@.len() - p,
    {
        let token = tokens[p];
        let row = table.line(token as usize);
        let code = position_code::<N>(encoding, p, width);
        entries.push(added(row, &code));
        p = p + 1;
    }
    Matrix::assemble(entries, width)
}

impl MetaFormerModel {
    /// What a forward pass answers for the given parameters and token ids:
    /// `ShapeError` where the parameters are those of a model with other
    /// hyperparameters; else what the check of the sequence says.
    pub open spec fn passed(
        hp: Hyperparameters,
        of_parameters: Hyperparameters,
        tokens: Seq<i64>,
    ) -> Result<(), Error> {
        if of_parameters != hp {
            Err(Error::ShapeError)
        } else {
            sequence_checked(tokens, hp.context_window, hp.input_vocabolary)
        }
    }

    /// The forward pass: the embedding of the tokens with their positions,
    /// every block in order, and the output projection.
    pub fn forward<N: Number>(&self, parameters: &Parameters<N>, tokens: &Vec<i64>) -> (r: Result<
        Pass<N>,
        Error,
    >)
        ensures
            match Self::passed(self@, parameters@, tokens@) {
                Ok(()) => r matches Ok(pass) && pass@ == self@ && pass.tokens() == tokens@
                    && pass.terms() == passed_of(self@, parameters.terms(), tokens@),
                Err(error) => r matches Err(e) && e == error,
            },
    {
        let hp = self.hyperparameters();
        if parameters.hyperparameters() != hp {
            return Err(Error::ShapeError);
        }
        match crate::tokens::check_sequence(tokens, hp.context_window, hp.input_vocabolary) {
            Ok(()) => {},
            Err(e) => {
                return Err(e);
            },
        }
        let length = tokens.len();
        let table = match parameters.tensor(ModelTensor::Embedding) {
            Some(table) => table,
            None => vstd::pervasive::unreached(),
        };
        let projection = match parameters.tensor(ModelTensor::Projection) {
            Some(projection) => projection,
            None => vstd::pervasive::unreached(),
        };
        let ghost all = parameters.terms();
        let mut stream = embed(table, tokens, hp.encoding);
        let ghost embedded = stream.terms();
        let mut tape: Vec<Kept<N>> = Vec::new();
        let steps = TransformerBlock::order();
        let blocks = self.blocks();
        let mut number: u32 = 0;
        while number < hp.depth
            invariant
                number <= hp.depth,
                hp.valid(),
                parameters@ == hp,
                all == parameters.terms(),
                hp == self@,
                length == tokens@.len(),
                length <= hp.context_window,
                steps@ == canonical_order(),
                blocks@ == Seq::new(hp.depth as nat, |i: int| block_of(hp)),
                stream.shaped(length as nat, hp.dimension as nat),
                stream.terms() == blocks_upto(hp, all, embedded, number as nat),
                tape_fits(tape@, hp, length as nat),
                memos(tape@) == tape_upto(hp, all, embedded, number as nat),
            decreases hp.depth - number,
        {
            let block = &blocks[number as usize];
            let mut current = stream.copy();
            let ghost entered = entering(stream.terms());
            let ghost before = memos(tape@);
            let mut done: usize = 0;
            while done < steps.len()
                invariant
                    done <= steps@.len(),
                    number < hp.depth,
                    hp.valid(),
                    parameters@ == hp,
                    all == parameters.terms(),
                    length <= hp.context_window,
                    steps@ == canonical_order(),
                    *block == block_of(hp),
                    stream.shaped(length as nat, hp.dimension as nat),
                    current.shaped(length as nat, hp.dimension as nat),
                    flowed_upto(hp, all, number as int, entered, done as nat) == (Flow {
                        stream: stream.terms(),
                        current: current.terms(),
                    }),
                    tape_fits(tape@, hp, length as nat),
                    memos(tape@) == before + block_tape_upto(
                        hp,
                        all,
                        number as int,
                        entered,
                        done as nat,
                    ),
                decreases steps@.len() - done,
            {
                let ghost flow = Flow { stream: stream.terms(), current: current.terms() };
                let ghost taped = memos(tape@);
                match steps[done] {
                    SubLayer::Normalize { gain } => {
                        let weights = part(parameters, number, gain);
                        let normalized = sure(normalize(&stream, weights));
                        current = normalized.output().copy();
                        tape.push(Kept::Normalize { block: number, gain, normalized });
                    },
                    SubLayer::Attend => {
                        let attended = sure(
                            block.attention.forward(
                                &current,
                                part(parameters, number, BlockTensor::Query),
                                part(parameters, number, BlockTensor::Key),
                                part(parameters, number, BlockTensor::Value),
                                part(parameters, number, BlockTensor::Output),
                            ),
                        );
                        proof {
                            lemma_each(attended.each(), hp);
                        }
                        current = attended.output().copy();
                        tape.push(Kept::Attend { block: number, attended });
                    },
                    SubLayer::FeedForward => {
                        let expand = part(parameters, number, BlockTensor::Expand);
                        let contract = part(parameters, number, BlockTensor::Contract);
                        let hidden = sure(current.matmul(expand)).rectified();
                        let output = sure(hidden.matmul(contract));
                        tape.push(Kept::FeedForward { block: number, input: current, hidden });
                        current = output;
                    },
                    SubLayer::AddResidual => {
                        stream = sure(stream.sum(&current));
                        tape.push(Kept::AddResidual);
                    },
                }
                proof {
                    assert(memos(tape@) =~= taped.push(
                        memo_of(hp, all, number as int, steps@[done as int], flow),
                    ));
                }
                done = done + 1;
            }
            number = number + 1;
        }
        let logits = sure(stream.matmul(projection));
        Ok(Pass { hyperparameters: hp, tokens: copied(tokens), tape, last: stream, logits })
    }
}

/// The width of a head is the dimension divided by the number of heads.
proof fn lemma_each(each: nat, hp: Hyperparameters)
    requires
        hp.heads > 0,
        each * hp.heads == hp.dimension,
    ensures
        each == each_of(hp),
{
    assert(each == hp.dimension as int / hp.heads as int) by (nonlinear_arith)
        requires
            hp.heads > 0,
            each * hp.heads == hp.dimension,
    ;
}

impl<N: Number> Pass<N> {
    /// The logits: one row for each position of the sequence and one column
    /// for each output token.
    pub fn logits(&self) -> (r: &Matrix<N>)
        ensures
            r.shaped(self.tokens().len(), self@.output_vocabolary as nat),
            r.terms() == self.terms().logits,
    {
        proof {
            use_type_invariant(self);
        }
        &self.logits
    }
}

/// What flows back through a model: the gradients of the parameters as far
/// as they are known, the gradient of the residual stream, and the gradient of
/// what the sublayer under way made of it.
pub struct Slopes {
    pub gradients: Seq<Seq<Seq<Term>>>,
    pub stream: Seq<Seq<Term>>,
    pub current: Seq<Seq<Term>>,
}

/// The gradients with a gradient added to that of the tensor at the given
/// place.
pub open spec fn put_of(gradients: Seq<Seq<Seq<Term>>>, place: int, more: Seq<Seq<Term>>) -> Seq<
    Seq<Seq<Term>>,
> {
    gradients.update(place, sum_of(gradients[place], more))
}

/// What flows back out of one operation, from what it kept and what flows back
/// into it.
pub open spec fn unapplied(
    hp: Hyperparameters,
    parameters: Seq<Seq<Seq<Term>>>,
    length: nat,
    memo: Memo,
    slopes: Slopes,
) -> Slopes {
    match memo {
        Memo::AddResidual => Slopes {
            gradients: slopes.gradients,
            stream: slopes.stream,
            current: slopes.stream,
        },
        Memo::FeedForward { block, input, hidden } => {
            let of_hidden = gated_of(
                times_transposed_of(
                    slopes.current,
                    tensor_of(parameters, block, BlockTensor::Contract),
                ),
                hidden,
            );
            Slopes {
                gradients: put_of(
                    put_of(
                        slopes.gradients,
                        place_of(block, BlockTensor::Contract),
                        transposed_times_of(
                            hidden,
                            hidden_of(hp),
                            slopes.current,
                            hp.dimension as nat,
                        ),
                    ),
                    place_of(block, BlockTensor::Expand),
                    transposed_times_of(input, hp.dimension as nat, of_hidden, hidden_of(hp)),
                ),
                stream: slopes.stream,
                current: times_transposed_of(
                    of_hidden,
                    tensor_of(parameters, block, BlockTensor::Expand),
                ),
            }
        },
        Memo::Attend { block, input, kept } => {
            let back = attention_gradient_of(
                kept,
                hp.heads as nat,
                each_of(hp),
                hp.dimension as nat,
                input,
                tensor_of(parameters, block, BlockTensor::Query),
                tensor_of(parameters, block, BlockTensor::Key),
                tensor_of(parameters, block, BlockTensor::Value),
                tensor_of(parameters, block, BlockTensor::Output),
                slopes.current,
            );
            Slopes {
                gradients: put_of(
                    put_of(
                        put_of(
                            put_of(
                                slopes.gradients,
                                place_of(block, BlockTensor::Query),
                                back.query,
                            ),
                            place_of(block, BlockTensor::Key),
                            back.key,
                        ),
                        place_of(block, BlockTensor::Value),
                        back.value,
                    ),
                    place_of(block, BlockTensor::Output),
                    back.output,
                ),
                stream: slopes.stream,
                current: back.input,
            }
        },
        Memo::Normalize { block, gain, units, inverses } => Slopes {
            gradients: put_of(
                slopes.gradients,
                place_of(block, gain),
                seq![gain_gradient_upto(slopes.current, units, hp.dimension as nat, length)],
            ),
            stream: sum_of(
                slopes.stream,
                input_gradient_of(
                    slopes.current,
                    tensor_of(parameters, block, gain)[0],
                    units,
                    inverses,
                ),
            ),
            current: filled_of(length, hp.dimension as nat, Term::Count(0)),
        },
    }
}

/// What has flowed back when the last `done` operations of a tape have been
/// gone back through, the last first.
pub open spec fn unwound(
    hp: Hyperparameters,
    parameters: Seq<Seq<Seq<Term>>>,
    length: nat,
    tape: Seq<Memo>,
    start: Slopes,
    done: nat,
) -> Slopes
    decreases done,
{
    if done == 0 {
        start
    } else {
        unapplied(
            hp,
            parameters,
            length,
            tape[tape.len() - done],
            unwound(hp, parameters, length, tape, start, (done - 1) as nat),
        )
    }
}

/// The gradients of all parameters, from a forward pass and the gradient with
/// respect to its logits: back through the output projection, back through
/// every operation that the pass kept something of, the last first, and back
/// into the rows of the embedding table that the tokens named.
pub open spec fn gradients_of(
    hp: Hyperparameters,
    parameters: Seq<Seq<Seq<Term>>>,
    tokens: Seq<i64>,
    passed: Passed,
    upstream: Seq<Seq<Term>>,
) -> Seq<Seq<Seq<Term>>> {
    let start = Slopes {
        gradients: put_of(
            all_filled_of(parameters_of(hp), Term::Count(0)),
            ModelTensor::Projection.place(hp.depth),
            transposed_times_of(
                passed.last,
                hp.dimension as nat,
                upstream,
                hp.output_vocabolary as nat,
            ),
        ),
        stream: times_transposed_of(
            upstream,
            parameters[ModelTensor::Projection.place(hp.depth)],
        ),
        current: filled_of(tokens.len(), hp.dimension as nat, Term::Count(0)),
    };
    let end = unwound(hp, parameters, tokens.len(), passed.tape, start, passed.tape.len());
    put_of(
        end.gradients,
        ModelTensor::Embedding.place(hp.depth),
        scattered_of(hp.input_vocabolary as nat, tokens, end.stream, hp.dimension as nat),
    )
}

/// Adds a gradient to the gradient of the tensor named.
fn put<N: Number>(
    gradients: &mut Vec<Matrix<N>>,
    hp: Hyperparameters,
    which: ModelTensor,
    more: &Matrix<N>,
)
    requires
        fits(hp, old(gradients)@),
        which.within(hp.depth),
        more.shaped(which.shape(hp).rows as nat, which.shape(hp).cols as nat),
    ensures
        fits(hp, final(gradients)@),
        grids(final(gradients)@) == put_of(
            grids(old(gradients)@),
            which.place(hp.depth),
            more.terms(),
        ),
{
    proof {
        law_every_parameter_is_named(hp, which);
    }
    let count = gradients.len();
    let index = match which.index(hp.depth) {
        Some(index) => index as usize,
        None => vstd::pervasive::unreached(),
    };
    let total = sure(gradients[index].sum(more));
    gradients[index] = total;
}

impl<N: Number> Pass<N> {
    /// The way back: from the gradient of some loss with respect to the
    /// logits to its gradients with respect to all parameters. `ShapeError`
    /// where the parameters are those of a model with other hyperparameters,
    /// or the gradient has not the shape of the logits.
    pub fn backward(&self, parameters: &Parameters<N>, upstream: &Matrix<N>) -> (r: Result<
        Parameters<N>,
        Error,
    >)
        ensures
            parameters@ == self@ && upstream.shaped(
                self.tokens().len(),
                self@.output_vocabolary as nat,
            ) ==> (r matches Ok(gradients) && gradients@ == self@ && gradients.terms()
                == gradients_of(
                self@,
                parameters.terms(),
                self.tokens(),
                self.terms(),
                upstream.terms(),
            )),
            !(parameters@ == self@ && upstream.shaped(
                self.tokens().len(),
                self@.output_vocabolary as nat,
            )) ==> (r matches Err(e) && e == Error::ShapeError),
    {
        proof {
            use_type_invariant(self);
        }
        let hp = self.hyperparameters;
        let length = self.tokens.len();
        if parameters.hyperparameters() != hp || upstream.rows() != length || upstream.columns()
            != self.logits.columns() {
            return Err(Error::ShapeError);
        }
        let projection = match parameters.tensor(ModelTensor::Projection) {
            Some(projection) => projection,
            None => vstd::pervasive::unreached(),
        };
        let ghost all = parameters.terms();
        let ghost tape = memos(self.tape@);
        let mut gradients = parameters.zeroed().into_tensors();
        let of_projection = sure(self.last.transposed_times(upstream));
        put(&mut gradients, hp, ModelTensor::Projection, &of_projection);
        let mut of_stream = sure(upstream.times_transposed(projection));
        let mut of_current: Matrix<N> = Matrix::zeros(length, hp.dimension as usize);
        let ghost start = Slopes {
            gradients: grids(gradients@),
            stream: of_stream.terms(),
            current: of_current.terms(),
        };
        let mut left: usize = self.tape.len();
        while left > 0
            invariant
                left <= self.tape@.len(),
                self.inv(),
                hp == self.hyperparameters,
                parameters@ == hp,
                all == parameters.terms(),
                tape == memos(self.tape@),
                length == self.tokens@.len(),
                fits(hp, gradients@),
                of_stream.shaped(length as nat, hp.dimension as nat),
                of_current.shaped(length as nat, hp.dimension as nat),
                unwound(hp, all, length as nat, tape, start, (self.tape@.len() - left) as nat) == (
                Slopes {
                    gradients: grids(gradients@),
                    stream: of_stream.terms(),
                    current: of_current.terms(),
                }),
            decreases left,
        {
            left = left - 1;
            match &self.tape[left] {
                Kept::AddResidual => {
                    of_current = of_stream.copy();
                },
                Kept::FeedForward { block, input, hidden } => {
                    let expand = part(parameters, *block, BlockTensor::Expand);
                    let contract = part(parameters, *block, BlockTensor::Contract);
                    let of_contract = sure(hidden.transposed_times(&of_current));
                    let of_hidden = sure(
                        sure(of_current.times_transposed(contract)).gated(hidden),
                    );
                    let of_expand = sure(input.transposed_times(&of_hidden));
                    of_current = sure(of_hidden.times_transposed(expand));
                    put(
                        &mut gradients,
                        hp,
                        ModelTensor::Block { block: *block, tensor: BlockTensor::Contract },
                        &of_contract,
                    );
                    put(
                        &mut gradients,
                        hp,
                        ModelTensor::Block { block: *block, tensor: BlockTensor::Expand },
                        &of_expand,
                    );
                },
                Kept::Attend { block, attended } => {
                    let AttentionGradients { input, query, key, value, output } = sure(
                        attended.backward(
                            part(parameters, *block, BlockTensor::Query),
                            part(parameters, *block, BlockTensor::Key),
                            part(parameters, *block, BlockTensor::Value),
                            part(parameters, *block, BlockTensor::Output),
                            &of_current,
                        ),
                    );
                    of_current = input;
                    put(
                        &mut gradients,
                        hp,
                        ModelTensor::Block { block: *block, tensor: BlockTensor::Query },
                        &query,
                    );
                    put(
                        &mut gradients,
                        hp,
                        ModelTensor::Block { block: *block, tensor: BlockTensor::Key },
                        &key,
                    );
                    put(
                        &mut gradients,
                        hp,
                        ModelTensor::Block { block: *block, tensor: BlockTensor::Value },
                        &value,
                    );
                    put(
                        &mut gradients,
                        hp,
                        ModelTensor::Block { block: *block, tensor: BlockTensor::Output },
                        &output,
                    );
                },
                Kept::Normalize { block, gain, normalized } => {
                    let weights = part(parameters, *block, *gain);
                    let NormalizationGradients { input, gain: of_gain } = sure(
                        normalize_backward(normalized, weights, &of_current),
                    );
                    of_stream = sure(of_stream.sum(&input));
                    of_current = Matrix::zeros(length, hp.dimension as usize);
                    put(
                        &mut gradients,
                        hp,
                        ModelTensor::Block { block: *block, tensor: *gain },
                        &of_gain,
                    );
                },
            }
        }
        let of_table = Matrix::scattered(hp.input_vocabolary as usize, &self.tokens, &of_stream);
        put(&mut gradients, hp, ModelTensor::Embedding, &of_table);
        Ok(Parameters::assemble(hp, gradients))
    }
}

} // verus!
