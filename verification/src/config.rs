//! Hyperparameters: the record as a command line gives it, the record as the
//! model reads it, and the rule that tells a usable record from an unusable one.

use vstd::prelude::*;
use crate::binary64::{above_zero, Binary64};
use crate::error::Error;

verus! {

/// Which positions a position may attend to.
#[derive(Debug, Clone, Copy, PartialEq, Eq, Structural)]
pub enum AttentionKind {
    /// Every position sees every position.
    Full,
    /// A position sees itself and the positions before it.
    Causal,
}

/// How a position in the sequence is turned into a vector.
#[derive(Debug, Clone, Copy, PartialEq, Eq, Structural)]
pub enum Encoding {
    /// Sines and cosines of the position at geometrically spaced frequencies.
    Sinusoidal,
}

impl AttentionKind {
    /// The kind that a tag names: `full` or `causal`, and nothing else.
    pub open spec fn named(tag: Seq<char>) -> Option<AttentionKind> {
        if tag == "full"@ {
            Some(AttentionKind::Full)
        } else if tag == "causal"@ {
            Some(AttentionKind::Causal)
        } else {
            None
        }
    }

    /// Reads a tag.
    pub fn parse(tag: &str) -> (r: Option<AttentionKind>)
        ensures
            r == Self::named(tag@),
    {
        if same_text(tag, "full") {
            Some(AttentionKind::Full)
        } else if same_text(tag, "causal") {
            Some(AttentionKind::Causal)
        } else {
            None
        }
    }
}

impl Encoding {
    /// The scheme that a tag names: `sinusoidal`, and nothing else.
    pub open spec fn named(tag: Seq<char>) -> Option<Encoding> {
        if tag == "sinusoidal"@ {
            Some(Encoding::Sinusoidal)
        } else {
            None
        }
    }

    /// Reads a tag.
    pub fn parse(tag: &str) -> (r: Option<Encoding>)
        ensures
            r == Self::named(tag@),
    {
        if same_text(tag, "sinusoidal") {
            Some(Encoding::Sinusoidal)
        } else {
            None
        }
    }
}

/// Whether two strings hold the same characters.
fn same_text(left: &str, right: &str) -> (r: bool)
    ensures
        r == (left@ == right@),
{
    let left_owned = left.to_owned();
    let right_owned = right.to_owned();
    left_owned == right_owned
}

/// The size that a raw number stands for: itself, if it is positive and fits in
/// thirty-two bits.
pub open spec fn size_named(raw: i64) -> Option<u32> {
    if 0 < raw && raw <= u32::MAX {
        Some(raw as u32)
    } else {
        None
    }
}

/// Reads a raw number as a size.
pub fn parse_size(raw: i64) -> (r: Option<u32>)
    ensures
        r == size_named(raw),
{
    if 0 < raw && raw <= 0xFFFF_FFFF {
        Some(raw as u32)
    } else {
        None
    }
}

/// The configuration of a model and of its training run.
#[derive(Debug, Clone, Copy, PartialEq, Eq, Structural)]
pub struct Hyperparameters {
    /// How positions are encoded.
    pub encoding: Encoding,
    /// Which positions attention may look at.
    pub attention_kind: AttentionKind,
    /// Width of the vectors that stand for tokens inside the model.
    pub dimension: u32,
    /// Number of transformer blocks.
    pub depth: u32,
    /// Number of attention heads in each block.
    pub heads: u32,
    /// Longest sequence that the model takes.
    pub context_window: u32,
    /// Number of token ids that the model reads.
    pub input_vocabolary: u32,
    /// Number of token ids that the model writes.
    pub output_vocabolary: u32,
    /// Number of sequences in a batch.
    pub batch_size: u32,
    /// Step width of gradient descent.
    pub learning_rate: Binary64,
    /// Whether tensors live on the GPU.
    pub use_gpu: bool,
}

impl Hyperparameters {
    /// A record is valid when every size is positive, the heads divide the
    /// dimension evenly, and the learning rate is greater than zero.
    pub open spec fn valid(&self) -> bool {
        &&& self.dimension > 0
        &&& self.depth > 0
        &&& self.heads > 0
        &&& self.dimension % self.heads == 0
        &&& self.context_window > 0
        &&& self.input_vocabolary > 0
        &&& self.output_vocabolary > 0
        &&& self.batch_size > 0
        &&& above_zero(self.learning_rate.bits)
    }

    /// Accepts a valid record and refuses any other.
    pub fn validate(&self) -> (r: Result<(), Error>)
        ensures
            r == (if self.valid() {
                Ok::<(), Error>(())
            } else {
                Err::<(), Error>(Error::ConfigError)
            }),
    {
        if self.dimension > 0 && self.depth > 0 && self.heads > 0 && self.dimension % self.heads
            == 0 && self.context_window > 0 && self.input_vocabolary > 0 && self.output_vocabolary
            > 0 && self.batch_size > 0 && self.learning_rate.is_above_zero() {
            Ok(())
        } else {
            Err(Error::ConfigError)
        }
    }
}

/// The configuration as the command line gives it: tags still text, sizes still
/// signed numbers, nothing checked.
#[derive(Debug, Clone)]
pub struct Cli {
    pub encoding: String,
    /// The kind of attention to use.
    pub attention_kind: String,
    /// Dimension of the vector space that the network uses internally to represent tokens.
    pub dimension: i64,
    /// Number of transformer blocks.
    pub depth: i64,
    /// Number of attention heads per transformer block.
    pub heads: i64,
    /// Maximum number of tokens in the input sequence.
    pub context_window: i64,
    /// Total number of tokens that the network recognizes in its input.
    pub input_vocabolary: i64,
    /// Total number of tokens that the network recognizes in its output.
    pub output_vocabolary: i64,
    /// Number of samples in a batch.
    pub batch_size: i64,
    /// Where the training data lies.
    pub path_to_slice: String,
    pub learning_rate: Binary64,
    pub use_gpu: bool,
}

impl Cli {
    /// The record that the raw configuration stands for, if every tag names
    /// something, every number is a size, and the whole is valid.
    pub open spec fn described(&self) -> Option<Hyperparameters> {
        if Encoding::named(self.encoding@) is Some && AttentionKind::named(self.attention_kind@)
            is Some && size_named(self.dimension) is Some && size_named(self.depth) is Some
            && size_named(self.heads) is Some && size_named(self.context_window) is Some
            && size_named(self.input_vocabolary) is Some && size_named(self.output_vocabolary)
            is Some && size_named(self.batch_size) is Some {
            let record = Hyperparameters {
                encoding: Encoding::named(self.encoding@)->0,
                attention_kind: AttentionKind::named(self.attention_kind@)->0,
                dimension: size_named(self.dimension)->0,
                depth: size_named(self.depth)->0,
                heads: size_named(self.heads)->0,
                context_window: size_named(self.context_window)->0,
                input_vocabolary: size_named(self.input_vocabolary)->0,
                output_vocabolary: size_named(self.output_vocabolary)->0,
                batch_size: size_named(self.batch_size)->0,
                learning_rate: self.learning_rate,
                use_gpu: self.use_gpu,
            };
            if record.valid() {
                Some(record)
            } else {
                None
            }
        } else {
            None
        }
    }

    /// Turns the raw configuration into hyperparameters, or says that it
    /// describes none.
    pub fn hyperparameters(&self) -> (r: Result<Hyperparameters, Error>)
        ensures
            r == (match self.described() {
                Some(record) => Ok::<Hyperparameters, Error>(record),
                None => Err::<Hyperparameters, Error>(Error::ConfigError),
            }),
    {
        let encoding = Encoding::parse(self.encoding.as_str());
        let attention_kind = AttentionKind::parse(self.attention_kind.as_str());
        let dimension = parse_size(self.dimension);
        let depth = parse_size(self.depth);
        let heads = parse_size(self.heads);
        let context_window = parse_size(self.context_window);
        let input_vocabolary = parse_size(self.input_vocabolary);
        let output_vocabolary = parse_size(self.output_vocabolary);
        let batch_size = parse_size(self.batch_size);
        match (
            encoding,
            attention_kind,
            dimension,
            depth,
            heads,
            context_window,
            input_vocabolary,
            output_vocabolary,
            batch_size,
        ) {
            (
                Some(encoding),
                Some(attention_kind),
                Some(dimension),
                Some(depth),
                Some(heads),
                Some(context_window),
                Some(input_vocabolary),
                Some(output_vocabolary),
                Some(batch_size),
            ) => {
                let record = Hyperparameters {
                    encoding,
                    attention_kind,
                    dimension,
                    depth,
                    heads,
                    context_window,
                    input_vocabolary,
                    output_vocabolary,
                    batch_size,
                    learning_rate: self.learning_rate,
                    use_gpu: self.use_gpu,
                };
                match record.validate() {
                    Ok(()) => Ok(record),
                    Err(e) => Err(e),
                }
            },
            _ => Err(Error::ConfigError),
        }
    }
}

} // verus!
