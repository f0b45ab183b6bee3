//! The model as a whole: an embedding table, a stack of blocks, and an output
//! projection, built from hyperparameters; and the shape of what a forward pass
//! gives.

use vstd::prelude::*;
use crate::attention::AttentionModule;
use crate::block::{
    law_block_count_is_sum_of_entries, BlockTensor, TransformerBlock, TENSORS_PER_BLOCK,
};
use crate::config::Hyperparameters;
use crate::error::Error;
use crate::layout::{lay_out, lays_out, lemma_total_of_concatenation, total_entries, Slot};
use crate::shape::{ActivationShape, MatrixShape};
use crate::tokens::{
    all_in_vocabulary, check_group, check_sequence, common_length, first_length, group_checked,
    sequence_checked, sequences_of,
};

verus! {

/// The block that a model built from the given hyperparameters repeats.
pub open spec fn block_of(hp: Hyperparameters) -> TransformerBlock {
    TransformerBlock {
        attention: AttentionModule {
            kind: hp.attention_kind,
            heads: hp.heads,
            context_window: hp.context_window,
        },
        dimension: hp.dimension,
    }
}

/// The shape of the logits that a model built from the given hyperparameters
/// gives for a batch of sequences: one score for each sequence, position and
/// output token. Sequences longer than the context window are a `ShapeError`.
pub open spec fn logits_of(hp: Hyperparameters, batch: u64, sequence: u64) -> Result<
    ActivationShape,
    Error,
> {
    if sequence > hp.context_window {
        Err(Error::ShapeError)
    } else {
        Ok(ActivationShape { batch, sequence, width: hp.output_vocabolary as u64 })
    }
}

/// The result of a forward pass on one sequence of token ids, as a shape: one
/// row for each position and one column for each output token, where the
/// sequence passes the check.
pub open spec fn forward_of(hp: Hyperparameters, tokens: Seq<i64>) -> Result<MatrixShape, Error> {
    match sequence_checked(tokens, hp.context_window, hp.input_vocabolary) {
        Ok(()) => Ok(MatrixShape { rows: tokens.len() as u64, cols: hp.output_vocabolary as u64 }),
        Err(e) => Err(e),
    }
}

/// The result of a forward pass on a group of sequences, as a shape: one score
/// for each sequence, position and output token, where the group passes the
/// check.
pub open spec fn forward_group_of(hp: Hyperparameters, group: Seq<Seq<i64>>) -> Result<
    ActivationShape,
    Error,
> {
    match group_checked(group, hp.context_window, hp.input_vocabolary) {
        Ok(()) => Ok(
            ActivationShape {
                batch: group.len() as u64,
                sequence: common_length(group) as u64,
                width: hp.output_vocabolary as u64,
            },
        ),
        Err(e) => Err(e),
    }
}

/// The shapes of the parameters of the given number of blocks, block after
/// block.
pub open spec fn blocks_parameters(hp: Hyperparameters, blocks: nat) -> Seq<MatrixShape>
    decreases blocks,
{
    if blocks == 0 {
        Seq::<MatrixShape>::empty()
    } else {
        blocks_parameters(hp, (blocks - 1) as nat) + block_of(hp).parameters()
    }
}

/// The shapes of all parameters of a model built from the given
/// hyperparameters: the embedding table, the parameters of each block in
/// order, and the output projection.
pub open spec fn parameters_of(hp: Hyperparameters) -> Seq<MatrixShape> {
    seq![MatrixShape { rows: hp.input_vocabolary as u64, cols: hp.dimension as u64 }]
        + blocks_parameters(hp, hp.depth as nat) + seq![
        MatrixShape { rows: hp.dimension as u64, cols: hp.output_vocabolary as u64 },
    ]
}

/// The place, among all parameters of a model, of a tensor of one of its
/// blocks: after the embedding table and after the tensors of the blocks
/// before it.
pub open spec fn place_of(block: int, tensor: BlockTensor) -> int {
    1 + TENSORS_PER_BLOCK * block + tensor.place()
}

/// One of the parameter tensors of a model.
#[derive(Debug, Clone, Copy, PartialEq, Eq, Structural)]
pub enum ModelTensor {
    /// The embedding table.
    Embedding,
    /// A tensor of the block with the given number, counted from zero.
    Block { block: u32, tensor: BlockTensor },
    /// The output projection.
    Projection,
}

impl ModelTensor {
    /// The tensor's place among the parameters of a model of the given depth.
    pub open spec fn place(self, depth: u32) -> int {
        match self {
            ModelTensor::Embedding => 0,
            ModelTensor::Block { block, tensor } => place_of(block as int, tensor),
            ModelTensor::Projection => 1 + TENSORS_PER_BLOCK * depth,
        }
    }

    /// Whether a model of the given depth has the tensor.
    pub open spec fn within(self, depth: u32) -> bool {
        self matches ModelTensor::Block { block, .. } ==> block < depth
    }

    /// Gives the tensor's place among the parameters of a model of the given
    /// depth, or nothing where such a model has no such tensor.
    pub fn index(&self, depth: u32) -> (r: Option<u64>)
        ensures
            self.within(depth) ==> r == Some(self.place(depth) as u64),
            !self.within(depth) ==> r is None,
    {
        match self {
            ModelTensor::Embedding => Some(0),
            ModelTensor::Block { block, tensor } => if *block < depth {
                Some(1 + TENSORS_PER_BLOCK * (*block as u64) + tensor.position())
            } else {
                None
            },
            ModelTensor::Projection => Some(1 + TENSORS_PER_BLOCK * (depth as u64)),
        }
    }

    /// The tensor at the given place among the parameters of a model of the
    /// given depth.
    pub open spec fn placed(depth: u32, place: int) -> ModelTensor {
        if place == 0 {
            ModelTensor::Embedding
        } else if place == 1 + TENSORS_PER_BLOCK * depth {
            ModelTensor::Projection
        } else {
            ModelTensor::Block {
                block: ((place - 1) / (TENSORS_PER_BLOCK as int)) as u32,
                tensor: BlockTensor::placed((place - 1) % (TENSORS_PER_BLOCK as int)),
            }
        }
    }

    /// The shape of the tensor in a model built from the given
    /// hyperparameters.
    pub open spec fn shape(self, hp: Hyperparameters) -> MatrixShape {
        match self {
            ModelTensor::Embedding => MatrixShape {
                rows: hp.input_vocabolary as u64,
                cols: hp.dimension as u64,
            },
            ModelTensor::Block { tensor, .. } => block_of(hp).shape_of(tensor),
            ModelTensor::Projection => MatrixShape {
                rows: hp.dimension as u64,
                cols: hp.output_vocabolary as u64,
            },
        }
    }
}

/// Number of parameters of a model built from the given hyperparameters: the
/// embedding table, the blocks, and the output projection.
pub open spec fn parameter_total_of(hp: Hyperparameters) -> nat {
    (hp.input_vocabolary * hp.dimension + hp.depth * block_of(hp).parameter_total()
        + hp.dimension * hp.output_vocabolary) as nat
}

/// The architecture of a model: which tensors it has and in which order its
/// blocks stand.
#[derive(Debug)]
pub struct MetaFormerModel {
    hyperparameters: Hyperparameters,
    embedding: MatrixShape,
    blocks: Vec<TransformerBlock>,
    projection: MatrixShape,
}

impl View for MetaFormerModel {
    type V = Hyperparameters;

    /// The hyperparameters that the model was built from.
    closed spec fn view(&self) -> Hyperparameters {
        self.hyperparameters
    }
}

impl MetaFormerModel {
    #[verifier::type_invariant]
    spec fn inv(&self) -> bool {
        &&& self.hyperparameters.valid()
        &&& self.embedding == (MatrixShape {
            rows: self.hyperparameters.input_vocabolary as u64,
            cols: self.hyperparameters.dimension as u64,
        })
        &&& self.projection == (MatrixShape {
            rows: self.hyperparameters.dimension as u64,
            cols: self.hyperparameters.output_vocabolary as u64,
        })
        &&& self.blocks@.len() == self.hyperparameters.depth
        &&& forall|i: int|
            0 <= i < self.blocks@.len() ==> #[trigger] self.blocks@[i] == block_of(
                self.hyperparameters,
            )
    }

    /// Builds the model that the hyperparameters describe. Invalid
    /// hyperparameters are refused with `ConfigError` before anything is made.
    pub fn build(hp: &Hyperparameters) -> (r: Result<MetaFormerModel, Error>)
        ensures
            hp.valid() ==> (r matches Ok(model) && model@ == *hp),
            !hp.valid() ==> (r matches Err(e) && e == Error::ConfigError),
    {
        match hp.validate() {
            Ok(()) => {},
            Err(e) => {
                return Err(e);
            },
        }
        let mut blocks: Vec<TransformerBlock> = Vec::new();
        let mut made: u32 = 0;
        while made < hp.depth
            invariant
                made <= hp.depth,
                hp.valid(),
                blocks@.len() == made,
                forall|i: int| 0 <= i < blocks@.len() ==> #[trigger] blocks@[i] == block_of(*hp),
            decreases hp.depth - made,
        {
            let block = match TransformerBlock::new(
                hp.attention_kind,
                hp.dimension,
                hp.heads,
                hp.context_window,
            ) {
                Ok(block) => block,
                Err(e) => {
                    return Err(e);
                },
            };
            blocks.push(block);
            made = made + 1;
        }
        Ok(
            MetaFormerModel {
                hyperparameters: *hp,
                embedding: MatrixShape {
                    rows: hp.input_vocabolary as u64,
                    cols: hp.dimension as u64,
                },
                blocks,
                projection: MatrixShape {
                    rows: hp.dimension as u64,
                    cols: hp.output_vocabolary as u64,
                },
            },
        )
    }

    /// The hyperparameters that the model was built from. They are valid.
    pub fn hyperparameters(&self) -> (r: Hyperparameters)
        ensures
            r == self@,
            r.valid(),
    {
        proof {
            use_type_invariant(self);
        }
        self.hyperparameters
    }

    /// Shape of the embedding table: one row for each input token, as wide as
    /// the model's vectors.
    pub fn embedding_shape(&self) -> (r: MatrixShape)
        ensures
            r == (MatrixShape { rows: self@.input_vocabolary as u64, cols: self@.dimension as u64 }),
    {
        proof {
            use_type_invariant(self);
        }
        self.embedding
    }

    /// Shape of the output projection: from the model's vectors to one score
    /// for each output token.
    pub fn projection_shape(&self) -> (r: MatrixShape)
        ensures
            r == (MatrixShape {
                rows: self@.dimension as u64,
                cols: self@.output_vocabolary as u64,
            }),
    {
        proof {
            use_type_invariant(self);
        }
        self.projection
    }

    /// The blocks, first to last: as many as the depth, all alike.
    pub fn blocks(&self) -> (r: &Vec<TransformerBlock>)
        ensures
            r@ == Seq::new(self@.depth as nat, |i: int| block_of(self@)),
    {
        proof {
            use_type_invariant(self);
        }
        &self.blocks
    }

    /// Counts the model's parameters.
    pub fn parameter_count(&self) -> (r: u128)
        ensures
            r == parameter_total_of(self@),
    {
        proof {
            use_type_invariant(self);
        }
        let hp = self.hyperparameters;
        let block = TransformerBlock {
            attention: AttentionModule::new(hp.attention_kind, hp.heads, hp.context_window),
            dimension: hp.dimension,
        };
        let per_block: u128 = block.parameter_count();
        let embedding: u128 = self.embedding.element_count();
        let projection: u128 = self.projection.element_count();
        let depth: u128 = hp.depth as u128;
        proof {
            let d = hp.dimension as int;
            assert(d * d <= 0xFFFF_FFFF * 0xFFFF_FFFF) by (nonlinear_arith)
                requires
                    0 <= d <= 0xFFFF_FFFF,
            ;
            assert(depth * per_block <= 0xFFFF_FFFF * (12 * (0xFFFF_FFFF * 0xFFFF_FFFF) + 2
                * 0xFFFF_FFFF)) by (nonlinear_arith)
                requires
                    0 <= depth <= 0xFFFF_FFFF,
                    0 <= per_block <= 12 * (0xFFFF_FFFF * 0xFFFF_FFFF) + 2 * 0xFFFF_FFFF,
            ;
            assert(hp.input_vocabolary * hp.dimension <= 0xFFFF_FFFF * 0xFFFF_FFFF)
                by (nonlinear_arith)
                requires
                    0 <= hp.input_vocabolary <= 0xFFFF_FFFF,
                    0 <= hp.dimension <= 0xFFFF_FFFF,
            ;
            assert(hp.dimension * hp.output_vocabolary <= 0xFFFF_FFFF * 0xFFFF_FFFF)
                by (nonlinear_arith)
                requires
                    0 <= hp.output_vocabolary <= 0xFFFF_FFFF,
                    0 <= hp.dimension <= 0xFFFF_FFFF,
            ;
        }
        embedding + depth * per_block + projection
    }

    /// Follows the shape of a batch of token sequences through the model: the
    /// embedding lookup, the positional encoding, every block in order, and the
    /// output projection.
    pub fn logits_shape(&self, batch: u64, sequence: u64) -> (r: Result<ActivationShape, Error>)
        ensures
            r == logits_of(self@, batch, sequence),
    {
        proof {
            use_type_invariant(self);
        }
        if sequence > self.hyperparameters.context_window as u64 {
            return Err(Error::ShapeError);
        }
        let embedded = ActivationShape { batch, sequence, width: self.embedding.cols };
        let mut shape = embedded;
        let mut passed: usize = 0;
        while passed < self.blocks.len()
            invariant
                passed <= self.blocks@.len(),
                shape == embedded,
                embedded.width == self.hyperparameters.dimension,
                embedded.sequence <= self.hyperparameters.context_window,
                self.hyperparameters.valid(),
                forall|i: int|
                    0 <= i < self.blocks@.len() ==> #[trigger] self.blocks@[i] == block_of(
                        self.hyperparameters,
                    ),
            decreases self.blocks@.len() - passed,
        {
            let block = &self.blocks[passed];
            match block.output_shape(&shape) {
                Ok(next) => {
                    shape = next;
                },
                Err(e) => {
                    return Err(e);
                },
            }
            passed = passed + 1;
        }
        shape.project(&self.projection)
    }

    /// Checks one sequence of token ids and gives the shape of the logits that
    /// a forward pass on it returns.
    pub fn forward_shape(&self, tokens: &Vec<i64>) -> (r: Result<MatrixShape, Error>)
        ensures
            r == forward_of(self@, tokens@),
    {
        proof {
            use_type_invariant(self);
        }
        match check_sequence(
            tokens,
            self.hyperparameters.context_window,
            self.hyperparameters.input_vocabolary,
        ) {
            Ok(()) => {},
            Err(e) => {
                return Err(e);
            },
        }
        let logits = match self.logits_shape(1, tokens.len() as u64) {
            Ok(shape) => shape,
            Err(e) => {
                return Err(e);
            },
        };
        Ok(MatrixShape { rows: logits.sequence, cols: logits.width })
    }

    /// Checks a group of sequences and gives the shape of the logits that a
    /// forward pass on it returns.
    pub fn forward_group_shape(&self, group: &Vec<Vec<i64>>) -> (r: Result<ActivationShape, Error>)
        ensures
            r == forward_group_of(self@, sequences_of(group@)),
    {
        proof {
            use_type_invariant(self);
        }
        match check_group(
            group,
            self.hyperparameters.context_window,
            self.hyperparameters.input_vocabolary,
        ) {
            Ok(()) => {},
            Err(e) => {
                return Err(e);
            },
        }
        let length = first_length(group);
        self.logits_shape(group.len() as u64, length as u64)
    }

    /// Lists the shapes of all parameters, in the order in which they are
    /// kept.
    pub fn parameter_shapes(&self) -> (r: Vec<MatrixShape>)
        ensures
            r@ == parameters_of(self@),
    {
        proof {
            use_type_invariant(self);
        }
        let mut shapes: Vec<MatrixShape> = Vec::new();
        shapes.push(self.embedding);
        let ghost first = shapes@;
        let mut listed: usize = 0;
        while listed < self.blocks.len()
            invariant
                listed <= self.blocks@.len(),
                shapes@ == first + blocks_parameters(self.hyperparameters, listed as nat),
                forall|i: int|
                    0 <= i < self.blocks@.len() ==> #[trigger] self.blocks@[i] == block_of(
                        self.hyperparameters,
                    ),
            decreases self.blocks@.len() - listed,
        {
            let of_block = self.blocks[listed].parameter_shapes();
            push_all(&mut shapes, &of_block);
            listed = listed + 1;
        }
        shapes.push(self.projection);
        shapes
    }

    /// Gives each parameter its place in one flat buffer, or nothing where the
    /// model has more parameters than the machine can index.
    pub fn layout(&self) -> (r: Option<Vec<Slot>>)
        ensures
            parameter_total_of(self@) <= usize::MAX ==> (r matches Some(slots) && lays_out(
                slots@,
                parameters_of(self@),
            )),
            parameter_total_of(self@) > usize::MAX ==> r is None,
    {
        proof {
            law_parameter_count_is_sum_of_entries(self@);
        }
        let shapes = self.parameter_shapes();
        lay_out(&shapes)
    }

    /// The place of the embedding table among the parameters: the first.
    pub fn embedding_index(&self) -> (r: u64)
        ensures
            r == 0,
            parameters_of(self@)[r as int] == (MatrixShape {
                rows: self@.input_vocabolary as u64,
                cols: self@.dimension as u64,
            }),
    {
        0
    }

    /// The place of the output projection among the parameters: the last.
    pub fn projection_index(&self) -> (r: u64)
        ensures
            r == 1 + TENSORS_PER_BLOCK * self@.depth,
            r == parameters_of(self@).len() - 1,
            parameters_of(self@)[r as int] == (MatrixShape {
                rows: self@.dimension as u64,
                cols: self@.output_vocabolary as u64,
            }),
    {
        proof {
            use_type_invariant(self);
            law_parameters_are_where_they_are_looked_for(self@, 0, BlockTensor::Query);
        }
        1 + TENSORS_PER_BLOCK * (self.hyperparameters.depth as u64)
    }

    /// The place, among the parameters, of a tensor of the block with the
    /// given number, counted from zero; nothing where the model has no such
    /// block.
    pub fn tensor_index(&self, block: u32, tensor: BlockTensor) -> (r: Option<u64>)
        ensures
            block < self@.depth ==> r == Some(place_of(block as int, tensor) as u64),
            block >= self@.depth ==> r is None,
            r matches Some(index) ==> index < parameters_of(self@).len() && parameters_of(
                self@,
            )[index as int] == block_of(self@).shape_of(tensor),
    {
        proof {
            use_type_invariant(self);
        }
        if block >= self.hyperparameters.depth {
            return None;
        }
        proof {
            law_parameters_are_where_they_are_looked_for(self@, block as int, tensor);
        }
        Some(1 + TENSORS_PER_BLOCK * (block as u64) + tensor.position())
    }

    /// The tensor that stands at the given place among the parameters, or
    /// nothing where the model has fewer.
    pub fn tensor_at(&self, index: u64) -> (r: Option<ModelTensor>)
        ensures
            index < parameters_of(self@).len() ==> r == Some(
                ModelTensor::placed(self@.depth, index as int),
            ),
            index >= parameters_of(self@).len() ==> r is None,
            r matches Some(tensor) ==> tensor.within(self@.depth) && tensor.place(self@.depth)
                == index && parameters_of(self@)[index as int] == tensor.shape(self@),
    {
        proof {
            use_type_invariant(self);
            law_parameters_are_where_they_are_looked_for(self@, 0, BlockTensor::Query);
            if index < parameters_of(self@).len() {
                law_every_parameter_has_a_name(self@, index as int);
            }
        }
        let last: u64 = 1 + TENSORS_PER_BLOCK * (self.hyperparameters.depth as u64);
        if index == 0 {
            Some(ModelTensor::Embedding)
        } else if index == last {
            Some(ModelTensor::Projection)
        } else if index > last {
            None
        } else {
            let block: u64 = (index - 1) / TENSORS_PER_BLOCK;
            let place: u64 = (index - 1) % TENSORS_PER_BLOCK;
            match BlockTensor::at(place) {
                Some(tensor) => Some(ModelTensor::Block { block: block as u32, tensor }),
                None => None,
            }
        }
    }
}

/// Every place in the list of a model's parameters is the place of one named
/// tensor, and the shape listed there is that tensor's shape.
pub proof fn law_every_parameter_has_a_name(hp: Hyperparameters, index: int)
    requires
        0 <= index < parameters_of(hp).len(),
    ensures
        ModelTensor::placed(hp.depth, index).within(hp.depth),
        ModelTensor::placed(hp.depth, index).place(hp.depth) == index,
        parameters_of(hp)[index] == ModelTensor::placed(hp.depth, index).shape(hp),
{
    law_parameters_are_where_they_are_looked_for(hp, 0, BlockTensor::Query);
    if 0 < index < 1 + TENSORS_PER_BLOCK * hp.depth {
        let block = (index - 1) / (TENSORS_PER_BLOCK as int);
        let tensor = BlockTensor::placed((index - 1) % (TENSORS_PER_BLOCK as int));
        law_parameters_are_where_they_are_looked_for(hp, block, tensor);
    }
}

/// No two tensors of a model share a place: a tensor is known by its place.
pub proof fn law_places_tell_tensors_apart(depth: u32, one: ModelTensor, other: ModelTensor)
    requires
        one.within(depth),
        other.within(depth),
        one.place(depth) == other.place(depth),
    ensures
        one == other,
{
}

/// The parameters of any number of blocks are eight for each block, and the
/// tensors of each block stand in the block's own order.
pub proof fn lemma_blocks_parameters_by_index(
    hp: Hyperparameters,
    blocks: nat,
    block: int,
    tensor: BlockTensor,
)
    requires
        0 <= block < blocks,
    ensures
        blocks_parameters(hp, blocks).len() == TENSORS_PER_BLOCK * blocks,
        blocks_parameters(hp, blocks)[TENSORS_PER_BLOCK * block + tensor.place()] == block_of(
            hp,
        ).shape_of(tensor),
    decreases blocks,
{
    lemma_blocks_parameters_len(hp, (blocks - 1) as nat);
    if block < blocks - 1 {
        lemma_blocks_parameters_by_index(hp, (blocks - 1) as nat, block, tensor);
    }
}

/// The parameters of any number of blocks are eight for each block.
pub proof fn lemma_blocks_parameters_len(hp: Hyperparameters, blocks: nat)
    ensures
        blocks_parameters(hp, blocks).len() == TENSORS_PER_BLOCK * blocks,
    decreases blocks,
{
    if blocks > 0 {
        lemma_blocks_parameters_len(hp, (blocks - 1) as nat);
    }
}

/// The list of a model's parameters holds the embedding table first, the
/// output projection last, and between them each tensor of each block at the
/// place that `place_of` gives.
pub proof fn law_parameters_are_where_they_are_looked_for(
    hp: Hyperparameters,
    block: int,
    tensor: BlockTensor,
)
    ensures
        parameters_of(hp).len() == 2 + TENSORS_PER_BLOCK * hp.depth,
        parameters_of(hp)[0] == (MatrixShape {
            rows: hp.input_vocabolary as u64,
            cols: hp.dimension as u64,
        }),
        parameters_of(hp)[1 + TENSORS_PER_BLOCK * hp.depth] == (MatrixShape {
            rows: hp.dimension as u64,
            cols: hp.output_vocabolary as u64,
        }),
        0 <= block < hp.depth ==> 0 < place_of(block, tensor) < parameters_of(hp).len() - 1
            && parameters_of(hp)[place_of(block, tensor)] == block_of(hp).shape_of(tensor),
{
    lemma_blocks_parameters_len(hp, hp.depth as nat);
    if 0 <= block < hp.depth {
        lemma_blocks_parameters_by_index(hp, hp.depth as nat, block, tensor);
    }
}

/// Appends the shapes of one list to another.
fn push_all(shapes: &mut Vec<MatrixShape>, more: &Vec<MatrixShape>)
    ensures
        final(shapes)@ == old(shapes)@ + more@,
{
    let mut i: usize = 0;
    while i < more.len()
        invariant
            i <= more@.len(),
            shapes@ == old(shapes)@ + more@.take(i as int),
        decreases more@.len() - i,
    {
        shapes.push(more[i]);
        i = i + 1;
    }
}

/// The parameters of any number of blocks have that number of times the
/// entries of one block.
pub proof fn lemma_blocks_entries(hp: Hyperparameters, blocks: nat)
    ensures
        total_entries(blocks_parameters(hp, blocks)) == blocks * block_of(hp).parameter_total(),
    decreases blocks,
{
    if blocks > 0 {
        lemma_blocks_entries(hp, (blocks - 1) as nat);
        lemma_total_of_concatenation(
            blocks_parameters(hp, (blocks - 1) as nat),
            block_of(hp).parameters(),
        );
        law_block_count_is_sum_of_entries(block_of(hp));
        let per = block_of(hp).parameter_total() as int;
        assert(blocks * per == (blocks - 1) * per + per) by (nonlinear_arith);
    } else {
        assert(blocks * block_of(hp).parameter_total() == 0) by (nonlinear_arith)
            requires
                blocks == 0,
        ;
    }
}

/// The parameter count of a model is the number of entries of its parameters.
pub proof fn law_parameter_count_is_sum_of_entries(hp: Hyperparameters)
    ensures
        total_entries(parameters_of(hp)) == parameter_total_of(hp),
{
    let embedding = seq![
        MatrixShape { rows: hp.input_vocabolary as u64, cols: hp.dimension as u64 },
    ];
    let projection = seq![
        MatrixShape { rows: hp.dimension as u64, cols: hp.output_vocabolary as u64 },
    ];
    let middle = blocks_parameters(hp, hp.depth as nat);
    lemma_blocks_entries(hp, hp.depth as nat);
    lemma_total_of_concatenation(embedding, middle);
    lemma_total_of_concatenation(embedding + middle, projection);
    reveal_with_fuel(total_entries, 2);
}

/// The forward pass of a model with valid hyperparameters gives, on any
/// sequence that is no longer than the context window and whose token ids lie
/// in the input vocabulary, one row for each position and one column for each
/// output token.
pub proof fn law_valid_model_gives_logits(hp: Hyperparameters, tokens: Seq<i64>)
    requires
        hp.valid(),
        tokens.len() <= hp.context_window,
        all_in_vocabulary(tokens, hp.input_vocabolary),
    ensures
        forward_of(hp, tokens) == Ok::<MatrixShape, Error>(
            MatrixShape { rows: tokens.len() as u64, cols: hp.output_vocabolary as u64 },
        ),
        logits_of(hp, 1, tokens.len() as u64) == Ok::<ActivationShape, Error>(
            ActivationShape {
                batch: 1,
                sequence: tokens.len() as u64,
                width: hp.output_vocabolary as u64,
            },
        ),
{
}

} // verus!
