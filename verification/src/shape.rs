//! Shapes of tensors, and the rules by which an operation's result shape follows
//! from the shapes of its operands.

use vstd::prelude::*;
use crate::error::Error;

verus! {

/// The shape of a parameter matrix.
#[derive(Debug, Clone, Copy, PartialEq, Eq, Structural)]
pub struct MatrixShape {
    pub rows: u64,
    pub cols: u64,
}

/// The shape of a batch of sequences of vectors.
#[derive(Debug, Clone, Copy, PartialEq, Eq, Structural)]
pub struct ActivationShape {
    /// Number of sequences.
    pub batch: u64,
    /// Number of positions in each sequence.
    pub sequence: u64,
    /// Number of components of the vector at each position.
    pub width: u64,
}

impl MatrixShape {
    /// Number of entries: rows times columns.
    pub open spec fn entries(&self) -> nat {
        (self.rows * self.cols) as nat
    }

    /// Counts the entries.
    pub fn element_count(&self) -> (r: u128)
        ensures
            r == self.entries(),
    {
        proof {
            lemma_product_fits(self.rows, self.cols);
        }
        (self.rows as u128) * (self.cols as u128)
    }
}

impl ActivationShape {
    /// The shape after every vector has been multiplied by a matrix: the width
    /// becomes the matrix's column count, provided the matrix has as many rows
    /// as the vectors have components.
    pub open spec fn projected(self, weight: MatrixShape) -> Option<ActivationShape> {
        if self.width == weight.rows {
            Some(ActivationShape { batch: self.batch, sequence: self.sequence, width: weight.cols })
        } else {
            None
        }
    }

    /// Computes the shape after a multiplication by a matrix, or reports that the
    /// two do not fit.
    pub fn project(&self, weight: &MatrixShape) -> (r: Result<ActivationShape, Error>)
        ensures
            r == (match self.projected(*weight) {
                Some(shape) => Ok::<ActivationShape, Error>(shape),
                None => Err::<ActivationShape, Error>(Error::ShapeError),
            }),
    {
        if self.width == weight.rows {
            Ok(ActivationShape { batch: self.batch, sequence: self.sequence, width: weight.cols })
        } else {
            Err(Error::ShapeError)
        }
    }
}

/// The product of two 64-bit numbers fits in 128 bits.
pub proof fn lemma_product_fits(a: u64, b: u64)
    ensures
        0 <= a * b <= u128::MAX,
{
    assert(0 <= a * b <= 0xFFFF_FFFF_FFFF_FFFF * 0xFFFF_FFFF_FFFF_FFFF) by (nonlinear_arith)
        requires
            0 <= a <= 0xFFFF_FFFF_FFFF_FFFF,
            0 <= b <= 0xFFFF_FFFF_FFFF_FFFF,
    ;
}

} // verus!
