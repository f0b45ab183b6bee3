//! The attention sublayer: which positions a position may look at, how the
//! width of a vector is shared out among the heads, and what shape comes out.

use vstd::prelude::*;
use crate::config::AttentionKind;
use crate::error::Error;
use crate::shape::{ActivationShape, MatrixShape};

verus! {

impl AttentionKind {
    /// Whether the position `query` may attend to the position `key`.
    pub open spec fn sees(self, query: int, key: int) -> bool {
        self == AttentionKind::Full || key <= query
    }

    /// Decides whether the position `query` may attend to the position `key`.
    pub fn visible(&self, query: usize, key: usize) -> (r: bool)
        ensures
            r == self.sees(query as int, key as int),
    {
        match self {
            AttentionKind::Full => true,
            AttentionKind::Causal => key <= query,
        }
    }
}

/// Number of positions, among the first `length`, that the position `query`
/// may attend to. They are the first so many: all of them under full
/// attention, and those up to `query` itself under causal attention.
pub open spec fn visible_count(kind: AttentionKind, query: int, length: int) -> int {
    if kind == AttentionKind::Full || query + 1 >= length {
        length
    } else {
        query + 1
    }
}

impl AttentionKind {
    /// Counts the positions, among the first `length`, that the position
    /// `query` may attend to.
    pub fn visible_keys(&self, query: usize, length: usize) -> (r: usize)
        ensures
            r == visible_count(*self, query as int, length as int),
            r <= length,
    {
        match self {
            AttentionKind::Full => length,
            AttentionKind::Causal => if query < length {
                query + 1
            } else {
                length
            },
        }
    }
}

/// The positions that a position of a sequence sees are the first so many as
/// `visible_count` says, and at least the position itself.
pub proof fn law_visible_positions_come_first(kind: AttentionKind, query: int, key: int, length: int)
    requires
        0 <= query < length,
        0 <= key < length,
    ensures
        kind.sees(query, key) <==> key < visible_count(kind, query, length),
        query < visible_count(kind, query, length) <= length,
{
}

/// A row of a visibility mask: entry `key` tells whether `query` sees `key`.
pub open spec fn mask_row_of(kind: AttentionKind, query: int, length: nat) -> Seq<bool> {
    Seq::new(length, |key: int| kind.sees(query, key))
}

/// A square visibility mask: row `query`, entry `key`.
pub open spec fn mask_of(kind: AttentionKind, length: nat) -> Seq<Seq<bool>> {
    Seq::new(length, |query: int| mask_row_of(kind, query, length))
}

/// The rows of a nested vector, each as a sequence.
pub open spec fn rows_of(mask: Seq<Vec<bool>>) -> Seq<Seq<bool>> {
    Seq::new(mask.len(), |query: int| mask[query]@)
}

/// One attention sublayer.
#[derive(Debug, Clone, Copy, PartialEq, Eq, Structural)]
pub struct AttentionModule {
    /// Which positions a position sees.
    pub kind: AttentionKind,
    /// Number of heads that share the width of a vector.
    pub heads: u32,
    /// Longest sequence that the sublayer takes.
    pub context_window: u32,
}

impl AttentionModule {
    /// An attention sublayer of the given kind.
    pub fn new(kind: AttentionKind, heads: u32, context_window: u32) -> (r: AttentionModule)
        ensures
            r == (AttentionModule { kind, heads, context_window }),
    {
        AttentionModule { kind, heads, context_window }
    }

    /// Whether the heads share a width out evenly.
    pub open spec fn divides(&self, width: u64) -> bool {
        self.heads > 0 && width % (self.heads as u64) == 0
    }

    /// The number of components that each head works on: the width divided by
    /// the number of heads, where that leaves no remainder.
    pub fn head_width(&self, width: u64) -> (r: Result<u64, Error>)
        ensures
            self.divides(width) ==> r == Ok::<u64, Error>(width / (self.heads as u64)),
            !self.divides(width) ==> r == Err::<u64, Error>(Error::ConfigError),
            r matches Ok(each) ==> each * self.heads == width,
    {
        if self.heads == 0 {
            return Err(Error::ConfigError);
        }
        let heads: u64 = self.heads as u64;
        if width % heads != 0 {
            return Err(Error::ConfigError);
        }
        let each: u64 = width / heads;
        proof {
            lemma_even_share(width, heads);
        }
        Ok(each)
    }

    /// The shape of each of the four weight matrices (query, key, value,
    /// output) for vectors of the given width: square.
    pub fn weight_shape(&self, width: u64) -> (r: MatrixShape)
        ensures
            r == (MatrixShape { rows: width, cols: width }),
    {
        MatrixShape { rows: width, cols: width }
    }

    /// The result of attending to an input of the given shape: a tensor of the
    /// same shape, unless the heads do not divide the width or the sequences
    /// are longer than the context window.
    pub open spec fn attended(&self, input: ActivationShape) -> Result<ActivationShape, Error> {
        if !self.divides(input.width) {
            Err(Error::ConfigError)
        } else if input.sequence > self.context_window {
            Err(Error::ShapeError)
        } else {
            Ok(input)
        }
    }

    /// Follows a shape through the sublayer: the projections to queries, keys
    /// and values, the split into heads, the merge of the heads, and the output
    /// projection.
    pub fn output_shape(&self, input: &ActivationShape) -> (r: Result<ActivationShape, Error>)
        ensures
            r == self.attended(*input),
    {
        let each = match self.head_width(input.width) {
            Ok(each) => each,
            Err(e) => {
                return Err(e);
            },
        };
        if input.sequence > self.context_window as u64 {
            return Err(Error::ShapeError);
        }
        let weight = self.weight_shape(input.width);
        let values = match input.project(&weight) {
            Ok(shape) => shape,
            Err(e) => {
                return Err(e);
            },
        };
        let merged = ActivationShape {
            batch: values.batch,
            sequence: values.sequence,
            width: each * (self.heads as u64),
        };
        merged.project(&weight)
    }

    /// One row of the visibility mask for sequences of the given length.
    pub fn mask_row(&self, query: usize, length: usize) -> (r: Vec<bool>)
        ensures
            r@ == mask_row_of(self.kind, query as int, length as nat),
    {
        let mut row: Vec<bool> = Vec::new();
        let mut key: usize = 0;
        while key < length
            invariant
                key <= length,
                row@.len() == key,
                forall|k: int| 0 <= k < key ==> row@[k] == self.kind.sees(query as int, k),
            decreases length - key,
        {
            row.push(self.kind.visible(query, key));
            key = key + 1;
        }
        row
    }

    /// The visibility mask for sequences of the given length, or `ShapeError`
    /// where the length exceeds the context window.
    pub fn mask(&self, length: usize) -> (r: Result<Vec<Vec<bool>>, Error>)
        ensures
            length <= self.context_window ==> (r matches Ok(mask) && rows_of(mask@) == mask_of(
                self.kind,
                length as nat,
            )),
            length > self.context_window ==> r == Err::<Vec<Vec<bool>>, Error>(Error::ShapeError),
    {
        if length > self.context_window as usize {
            return Err(Error::ShapeError);
        }
        let mut mask: Vec<Vec<bool>> = Vec::new();
        let mut query: usize = 0;
        while query < length
            invariant
                query <= length,
                mask@.len() == query,
                forall|q: int|
                    0 <= q < query ==> (#[trigger] mask@[q])@ == mask_row_of(
                        self.kind,
                        q,
                        length as nat,
                    ),
            decreases length - query,
        {
            let row = self.mask_row(query, length);
            mask.push(row);
            query = query + 1;
        }
        Ok(mask)
    }
}

/// A width that the heads divide is the head width times the number of heads.
proof fn lemma_even_share(width: u64, heads: u64)
    requires
        heads > 0,
        width % heads == 0,
    ensures
        (width / heads) * heads == width,
{
    assert((width as int / heads as int) * heads as int == width as int) by (nonlinear_arith)
        requires
            heads as int > 0,
            width as int % heads as int == 0,
    ;
}

/// Under causal attention no position sees a later one.
pub proof fn law_causal_hides_later_positions(query: int, key: int)
    requires
        key > query,
    ensures
        !AttentionKind::Causal.sees(query, key),
{
}

/// Under full attention every position sees every position.
pub proof fn law_full_sees_everything(query: int, key: int)
    ensures
        AttentionKind::Full.sees(query, key),
{
}

/// Whatever the kind, a position sees itself: no row of a mask is empty of
/// visible positions.
pub proof fn law_every_position_sees_itself(kind: AttentionKind, query: int)
    ensures
        kind.sees(query, query),
{
}

/// In a causal mask, the entries to the right of the diagonal are all false and
/// the others all true.
pub proof fn law_causal_mask_is_lower_triangular(length: nat, query: int, key: int)
    requires
        0 <= query < length,
        0 <= key < length,
    ensures
        mask_of(AttentionKind::Causal, length)[query][key] == (key <= query),
{
}

/// Attention hands back the shape that it was given, for either kind, whenever
/// the heads divide the width and the sequences fit the context window.
pub proof fn law_attention_keeps_shape(module: AttentionModule, input: ActivationShape)
    requires
        module.divides(input.width),
        input.sequence <= module.context_window,
    ensures
        module.attended(input) == Ok::<ActivationShape, Error>(input),
{
}

} // verus!
