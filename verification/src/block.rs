//! One transformer block: an attention sublayer and a position-wise
//! feed-forward sublayer, each behind a normalization and inside a residual
//! connection.

use vstd::prelude::*;
use crate::attention::AttentionModule;
use crate::config::AttentionKind;
use crate::error::Error;
use crate::layout::total_entries;
use crate::shape::{ActivationShape, MatrixShape};

verus! {

/// How many times wider than the model's vectors the hidden layer of the
/// feed-forward sublayer is.
pub const FEED_FORWARD_EXPANSION: u64 = 4;

/// One operation inside a block.
#[derive(Debug, Clone, Copy, PartialEq, Eq, Structural)]
pub enum SubLayer {
    /// Scale every vector to zero mean and unit variance, then by the gain
    /// named.
    Normalize { gain: BlockTensor },
    /// Mix the positions of each sequence.
    Attend,
    /// Pass every vector through the two-layer network.
    FeedForward,
    /// Add what entered the sublayer to what left it.
    AddResidual,
}

/// One of the parameter tensors of a block.
#[derive(Debug, Clone, Copy, PartialEq, Eq, Structural)]
pub enum BlockTensor {
    /// Gain of the normalization before attention.
    AttentionGain,
    /// Matrix from vectors to queries.
    Query,
    /// Matrix from vectors to keys.
    Key,
    /// Matrix from vectors to values.
    Value,
    /// Matrix from the merged heads back to vectors.
    Output,
    /// Gain of the normalization before the feed-forward sublayer.
    FeedForwardGain,
    /// Matrix into the hidden layer.
    Expand,
    /// Matrix out of the hidden layer.
    Contract,
}

/// Number of parameter tensors of a block.
pub const TENSORS_PER_BLOCK: u64 = 8;

impl BlockTensor {
    /// The tensor's place among the parameters of its block.
    pub open spec fn place(self) -> int {
        match self {
            BlockTensor::AttentionGain => 0,
            BlockTensor::Query => 1,
            BlockTensor::Key => 2,
            BlockTensor::Value => 3,
            BlockTensor::Output => 4,
            BlockTensor::FeedForwardGain => 5,
            BlockTensor::Expand => 6,
            BlockTensor::Contract => 7,
        }
    }

    /// The tensor at the given place among the parameters of a block.
    pub open spec fn placed(place: int) -> BlockTensor {
        if place == 0 {
            BlockTensor::AttentionGain
        } else if place == 1 {
            BlockTensor::Query
        } else if place == 2 {
            BlockTensor::Key
        } else if place == 3 {
            BlockTensor::Value
        } else if place == 4 {
            BlockTensor::Output
        } else if place == 5 {
            BlockTensor::FeedForwardGain
        } else if place == 6 {
            BlockTensor::Expand
        } else {
            BlockTensor::Contract
        }
    }

    /// Whether the tensor is the gain of a normalization.
    pub open spec fn gain(self) -> bool {
        self is AttentionGain || self is FeedForwardGain
    }

    /// Tells whether the tensor is the gain of a normalization.
    pub fn is_gain(&self) -> (r: bool)
        ensures
            r == self.gain(),
    {
        match self {
            BlockTensor::AttentionGain | BlockTensor::FeedForwardGain => true,
            _ => false,
        }
    }

    /// The tensor that stands at the given place among the parameters of its
    /// block, if the place is one of the eight.
    pub fn at(place: u64) -> (r: Option<BlockTensor>)
        ensures
            place < TENSORS_PER_BLOCK ==> r == Some(Self::placed(place as int)),
            place >= TENSORS_PER_BLOCK ==> r is None,
            r matches Some(tensor) ==> tensor.place() == place,
    {
        match place {
            0 => Some(BlockTensor::AttentionGain),
            1 => Some(BlockTensor::Query),
            2 => Some(BlockTensor::Key),
            3 => Some(BlockTensor::Value),
            4 => Some(BlockTensor::Output),
            5 => Some(BlockTensor::FeedForwardGain),
            6 => Some(BlockTensor::Expand),
            7 => Some(BlockTensor::Contract),
            _ => None,
        }
    }

    /// Gives the tensor's place among the parameters of its block.
    pub fn position(&self) -> (r: u64)
        ensures
            r == self.place(),
            r < TENSORS_PER_BLOCK,
    {
        match self {
            BlockTensor::AttentionGain => 0,
            BlockTensor::Query => 1,
            BlockTensor::Key => 2,
            BlockTensor::Value => 3,
            BlockTensor::Output => 4,
            BlockTensor::FeedForwardGain => 5,
            BlockTensor::Expand => 6,
            BlockTensor::Contract => 7,
        }
    }
}

/// The order in which a block applies its operations.
pub open spec fn canonical_order() -> Seq<SubLayer> {
    seq![
        SubLayer::Normalize { gain: BlockTensor::AttentionGain },
        SubLayer::Attend,
        SubLayer::AddResidual,
        SubLayer::Normalize { gain: BlockTensor::FeedForwardGain },
        SubLayer::FeedForward,
        SubLayer::AddResidual,
    ]
}

/// One layer of the model.
#[derive(Debug, Clone, Copy, PartialEq, Eq, Structural)]
pub struct TransformerBlock {
    /// The block's attention sublayer.
    pub attention: AttentionModule,
    /// Width of the vectors that the block takes and gives.
    pub dimension: u32,
}

impl TransformerBlock {
    /// A block is well formed when its heads divide its dimension.
    pub open spec fn wf(&self) -> bool {
        self.attention.divides(self.dimension as u64)
    }

    /// Whether a block can be made of these numbers.
    pub open spec fn can_build(dimension: u32, heads: u32) -> bool {
        heads > 0 && dimension % heads == 0
    }

    /// A block for vectors of the given dimension, or `ConfigError` where the
    /// heads do not divide the dimension.
    pub fn new(kind: AttentionKind, dimension: u32, heads: u32, context_window: u32) -> (r: Result<
        TransformerBlock,
        Error,
    >)
        ensures
            Self::can_build(dimension, heads) ==> r == Ok::<TransformerBlock, Error>(
                TransformerBlock {
                    attention: AttentionModule { kind, heads, context_window },
                    dimension,
                },
            ),
            !Self::can_build(dimension, heads) ==> r == Err::<TransformerBlock, Error>(
                Error::ConfigError,
            ),
            r matches Ok(block) ==> block.wf(),
    {
        let attention = AttentionModule::new(kind, heads, context_window);
        match attention.head_width(dimension as u64) {
            Ok(_) => Ok(TransformerBlock { attention, dimension }),
            Err(e) => Err(e),
        }
    }

    /// Width of the hidden layer of the feed-forward sublayer.
    pub fn feed_forward_width(&self) -> (r: u64)
        ensures
            r == FEED_FORWARD_EXPANSION * self.dimension,
    {
        FEED_FORWARD_EXPANSION * (self.dimension as u64)
    }

    /// Shape of the gain of a normalization: one row.
    pub fn gain_shape(&self) -> (r: MatrixShape)
        ensures
            r == (MatrixShape { rows: 1, cols: self.dimension as u64 }),
    {
        MatrixShape { rows: 1, cols: self.dimension as u64 }
    }

    /// Shape of the matrix into the hidden layer.
    pub fn expand_shape(&self) -> (r: MatrixShape)
        ensures
            r == (MatrixShape {
                rows: self.dimension as u64,
                cols: (FEED_FORWARD_EXPANSION * self.dimension) as u64,
            }),
    {
        MatrixShape { rows: self.dimension as u64, cols: self.feed_forward_width() }
    }

    /// Shape of the matrix out of the hidden layer.
    pub fn contract_shape(&self) -> (r: MatrixShape)
        ensures
            r == (MatrixShape {
                rows: (FEED_FORWARD_EXPANSION * self.dimension) as u64,
                cols: self.dimension as u64,
            }),
    {
        MatrixShape { rows: self.feed_forward_width(), cols: self.dimension as u64 }
    }

    /// The shapes of the block's parameters: the gain before attention; the
    /// query, key, value and output matrices; the gain before the feed-forward
    /// sublayer; the matrices into and out of its hidden layer.
    pub open spec fn parameters(&self) -> Seq<MatrixShape> {
        let d = self.dimension as u64;
        let h = (FEED_FORWARD_EXPANSION * self.dimension) as u64;
        seq![
            MatrixShape { rows: 1, cols: d },
            MatrixShape { rows: d, cols: d },
            MatrixShape { rows: d, cols: d },
            MatrixShape { rows: d, cols: d },
            MatrixShape { rows: d, cols: d },
            MatrixShape { rows: 1, cols: d },
            MatrixShape { rows: d, cols: h },
            MatrixShape { rows: h, cols: d },
        ]
    }

    /// The shape of one of the block's tensors.
    pub open spec fn shape_of(&self, tensor: BlockTensor) -> MatrixShape {
        let d = self.dimension as u64;
        let h = (FEED_FORWARD_EXPANSION * self.dimension) as u64;
        match tensor {
            BlockTensor::AttentionGain | BlockTensor::FeedForwardGain => MatrixShape {
                rows: 1,
                cols: d,
            },
            BlockTensor::Query | BlockTensor::Key | BlockTensor::Value | BlockTensor::Output =>
                MatrixShape { rows: d, cols: d },
            BlockTensor::Expand => MatrixShape { rows: d, cols: h },
            BlockTensor::Contract => MatrixShape { rows: h, cols: d },
        }
    }

    /// Gives the shape of one of the block's tensors.
    pub fn tensor_shape(&self, tensor: BlockTensor) -> (r: MatrixShape)
        ensures
            r == self.shape_of(tensor),
            r == self.parameters()[tensor.place()],
    {
        match tensor {
            BlockTensor::AttentionGain | BlockTensor::FeedForwardGain => self.gain_shape(),
            BlockTensor::Query | BlockTensor::Key | BlockTensor::Value | BlockTensor::Output =>
                self.attention.weight_shape(self.dimension as u64),
            BlockTensor::Expand => self.expand_shape(),
            BlockTensor::Contract => self.contract_shape(),
        }
    }

    /// Lists the shapes of the block's parameters.
    pub fn parameter_shapes(&self) -> (r: Vec<MatrixShape>)
        ensures
            r@ == self.parameters(),
    {
        let square = self.attention.weight_shape(self.dimension as u64);
        let mut shapes: Vec<MatrixShape> = Vec::new();
        shapes.push(self.gain_shape());
        shapes.push(square);
        shapes.push(square);
        shapes.push(square);
        shapes.push(square);
        shapes.push(self.gain_shape());
        shapes.push(self.expand_shape());
        shapes.push(self.contract_shape());
        shapes
    }

    /// Number of parameters of the block: twelve times the square of the
    /// dimension for the matrices, and twice the dimension for the gains.
    pub open spec fn parameter_total(&self) -> nat {
        (12 * (self.dimension * self.dimension) + 2 * self.dimension) as nat
    }

    /// Counts the block's parameters.
    pub fn parameter_count(&self) -> (r: u128)
        ensures
            r == self.parameter_total(),
    {
        let d: u128 = self.dimension as u128;
        assert(d * d <= 0xFFFF_FFFF * 0xFFFF_FFFF) by (nonlinear_arith)
            requires
                0 <= d <= 0xFFFF_FFFF,
        ;
        let square: u128 = d * d;
        12 * square + 2 * d
    }

    /// Lists the block's operations in the order in which they are applied.
    pub fn order() -> (r: Vec<SubLayer>)
        ensures
            r@ == canonical_order(),
    {
        let mut steps: Vec<SubLayer> = Vec::new();
        steps.push(SubLayer::Normalize { gain: BlockTensor::AttentionGain });
        steps.push(SubLayer::Attend);
        steps.push(SubLayer::AddResidual);
        steps.push(SubLayer::Normalize { gain: BlockTensor::FeedForwardGain });
        steps.push(SubLayer::FeedForward);
        steps.push(SubLayer::AddResidual);
        steps
    }

    /// The shape that one operation gives for an input of the given shape. A
    /// normalization and the feed-forward network need vectors of the block's
    /// dimension; attention has its own conditions; none changes the shape.
    pub open spec fn applied(&self, step: SubLayer, input: ActivationShape) -> Result<
        ActivationShape,
        Error,
    > {
        match step {
            SubLayer::Normalize { .. } | SubLayer::FeedForward => if input.width
                == self.dimension {
                Ok(input)
            } else {
                Err(Error::ShapeError)
            },
            SubLayer::Attend => self.attention.attended(input),
            SubLayer::AddResidual => Ok(input),
        }
    }

    /// Follows a shape through one operation.
    pub fn step_shape(&self, step: SubLayer, input: &ActivationShape) -> (r: Result<
        ActivationShape,
        Error,
    >)
        ensures
            r == self.applied(step, *input),
    {
        match step {
            SubLayer::Normalize { .. } => {
                let gain = self.gain_shape();
                if input.width == gain.cols {
                    Ok(*input)
                } else {
                    Err(Error::ShapeError)
                }
            },
            SubLayer::Attend => self.attention.output_shape(input),
            SubLayer::FeedForward => {
                let hidden = match input.project(&self.expand_shape()) {
                    Ok(shape) => shape,
                    Err(e) => {
                        return Err(e);
                    },
                };
                hidden.project(&self.contract_shape())
            },
            SubLayer::AddResidual => Ok(*input),
        }
    }

    /// The shape that the operations give when applied one after another,
    /// stopping at the first that fails.
    pub open spec fn chained(&self, steps: Seq<SubLayer>, input: ActivationShape) -> Result<
        ActivationShape,
        Error,
    >
        decreases steps.len(),
    {
        if steps.len() == 0 {
            Ok(input)
        } else {
            match self.applied(steps[0], input) {
                Ok(shape) => self.chained(steps.drop_first(), shape),
                Err(e) => Err(e),
            }
        }
    }

    /// The result of passing an input of the given shape through the block: the
    /// same shape, unless its vectors are not of the block's dimension
    /// (`ShapeError`), or the attention sublayer refuses it.
    pub open spec fn passed(&self, input: ActivationShape) -> Result<ActivationShape, Error> {
        if input.width != self.dimension {
            Err(Error::ShapeError)
        } else {
            self.attention.attended(input)
        }
    }

    /// Follows a shape through the block, operation by operation.
    pub fn output_shape(&self, input: &ActivationShape) -> (r: Result<ActivationShape, Error>)
        ensures
            r == self.passed(*input),
    {
        let steps = Self::order();
        let mut shape = *input;
        let mut done: usize = 0;
        proof {
            self.lemma_chain_is_passage(*input);
        }
        while done < steps.len()
            invariant
                done <= steps.len(),
                self.chained(steps@.skip(done as int), shape) == self.passed(*input),
            decreases steps.len() - done,
        {
            let ghost rest = steps@.skip(done as int);
            assert(rest.drop_first() =~= steps@.skip(done + 1));
            match self.step_shape(steps[done], &shape) {
                Ok(next) => {
                    shape = next;
                },
                Err(e) => {
                    return Err(e);
                },
            }
            done = done + 1;
        }
        Ok(shape)
    }

    /// Applying the operations in their canonical order gives what `passed`
    /// says.
    pub proof fn lemma_chain_is_passage(&self, input: ActivationShape)
        ensures
            self.chained(canonical_order(), input) == self.passed(input),
            self.chained(canonical_order().skip(0), input) == self.passed(input),
    {
        reveal_with_fuel(TransformerBlock::chained, 8);
    }
}

/// The parameter count of a block is the number of entries of its parameters.
pub proof fn law_block_count_is_sum_of_entries(block: TransformerBlock)
    ensures
        total_entries(block.parameters()) == block.parameter_total(),
{
    let shapes = block.parameters();
    let d = block.dimension as int;
    let h = 4 * d;
    reveal_with_fuel(total_entries, 9);
    assert(d * h == 4 * (d * d) && h * d == 4 * (d * d)) by (nonlinear_arith)
        requires
            h == 4 * d,
    ;
    assert(shapes[0].rows * shapes[0].cols == d) by (nonlinear_arith)
        requires
            shapes[0].rows == 1,
            shapes[0].cols == d,
    ;
}

/// A well-formed block hands back the shape that it was given, whenever the
/// vectors are of its dimension and the sequences fit its context window.
pub proof fn law_block_keeps_shape(block: TransformerBlock, input: ActivationShape)
    requires
        block.wf(),
        input.width == block.dimension,
        input.sequence <= block.attention.context_window,
    ensures
        block.passed(input) == Ok::<ActivationShape, Error>(input),
        block.chained(canonical_order(), input) == Ok::<ActivationShape, Error>(input),
{
    block.lemma_chain_is_passage(input);
}

} // verus!
