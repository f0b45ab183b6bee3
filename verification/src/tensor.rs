//! Matrices of numbers, what each operation on them computes, and the
//! operations themselves.
//!
//! A matrix is known to the contracts by its terms: for each row and column,
//! how the entry there came about. Every operation refuses operands whose
//! shapes do not fit, takes all others, and gives a result whose terms are
//! those that the operation is defined by.

use vstd::prelude::*;
use crate::binary64::Binary64;
use crate::error::Error;
use crate::number::{gated, terms, Number, Term, Traced};
use crate::rows::{
    added, added_of, constant_of, constant_row, dot, dot_of, with_multiple, with_multiple_of,
};

verus! {

/// The terms of rows of numbers.
pub open spec fn grid<N>(rows: Seq<Vec<Traced<N>>>) -> Seq<Seq<Term>> {
    Seq::new(rows.len(), |i: int| terms(rows[i]@))
}

/// Whether every row has the given length.
pub open spec fn rectangular<N>(rows: Seq<Vec<Traced<N>>>, cols: nat) -> bool {
    forall|i: int| 0 <= i < rows.len() ==> (#[trigger] rows[i])@.len() == cols
}

/// Whether every row of terms has the given length.
pub open spec fn even(terms: Seq<Seq<Term>>, cols: nat) -> bool {
    forall|i: int| 0 <= i < terms.len() ==> (#[trigger] terms[i]).len() == cols
}

/// A matrix of the given shape with the same term everywhere.
pub open spec fn filled_of(rows: nat, cols: nat, value: Term) -> Seq<Seq<Term>> {
    Seq::new(rows, |i: int| constant_of(cols, value))
}

/// The matrix whose entries, row after row, come from the bit patterns that
/// stand in a list from the given place on.
pub open spec fn from_bits_of(rows: nat, cols: nat, bits: Seq<Binary64>, start: int) -> Seq<
    Seq<Term>,
> {
    Seq::new(rows, |i: int| Seq::new(cols, |j: int| Term::Bits(bits[start + i * cols + j].bits)))
}

/// The matrix whose entries come from the given bit patterns.
pub open spec fn from_rows_of(rows: Seq<Vec<Binary64>>) -> Seq<Seq<Term>> {
    Seq::new(rows.len(), |i: int| Seq::new(rows[i]@.len(), |j: int| Term::Bits(rows[i]@[j].bits)))
}

/// A matrix of the given width turned over its diagonal.
pub open spec fn transposed_of(matrix: Seq<Seq<Term>>, width: nat) -> Seq<Seq<Term>> {
    Seq::new(width, |j: int| Seq::new(matrix.len(), |i: int| matrix[i][j]))
}

/// The product of a matrix and the transpose of another: entry `(i, j)` is the
/// dot product of row `i` of the first and row `j` of the second.
pub open spec fn times_transposed_of(left: Seq<Seq<Term>>, right: Seq<Seq<Term>>) -> Seq<
    Seq<Term>,
> {
    Seq::new(left.len(), |i: int| Seq::new(right.len(), |j: int| dot_of(left[i], right[j])))
}

/// The product of two matrices, the second of the given width: entry `(i, j)`
/// is the dot product of row `i` of the first and column `j` of the second.
pub open spec fn matmul_of(left: Seq<Seq<Term>>, right: Seq<Seq<Term>>, width: nat) -> Seq<
    Seq<Term>,
> {
    times_transposed_of(left, transposed_of(right, width))
}

/// The product of the transpose of a matrix and another matrix, of the given
/// widths: entry `(i, j)` is the dot product of column `i` of the first and
/// column `j` of the second.
pub open spec fn transposed_times_of(
    left: Seq<Seq<Term>>,
    left_width: nat,
    right: Seq<Seq<Term>>,
    right_width: nat,
) -> Seq<Seq<Term>> {
    times_transposed_of(transposed_of(left, left_width), transposed_of(right, right_width))
}

/// The sum of two matrices, entry by entry.
pub open spec fn sum_of(left: Seq<Seq<Term>>, right: Seq<Seq<Term>>) -> Seq<Seq<Term>> {
    Seq::new(left.len(), |i: int| added_of(left[i], right[i]))
}

/// A matrix with a multiple of another added to it, entry by entry.
pub open spec fn plus_multiple_of(base: Seq<Seq<Term>>, factor: Term, of: Seq<Seq<Term>>) -> Seq<
    Seq<Term>,
> {
    Seq::new(base.len(), |i: int| with_multiple_of(base[i], factor, of[i]))
}

/// A matrix with every entry replaced by zero where the entry of another at
/// the same place does not exceed zero.
pub open spec fn gated_of(matrix: Seq<Seq<Term>>, by: Seq<Seq<Term>>) -> Seq<Seq<Term>> {
    Seq::new(
        matrix.len(),
        |i: int| Seq::new(matrix[i].len(), |j: int| gated(matrix[i][j], by[i][j])),
    )
}

/// A matrix with every entry that does not exceed zero replaced by zero.
pub open spec fn rectified_of(matrix: Seq<Seq<Term>>) -> Seq<Seq<Term>> {
    gated_of(matrix, matrix)
}

/// The sum of those of the first `upto` rows of a matrix whose index in the
/// list is the given one, added up from the first on, starting from zeros.
pub open spec fn gathered_upto(
    indices: Seq<i64>,
    source: Seq<Seq<Term>>,
    width: nat,
    index: int,
    upto: nat,
) -> Seq<Term>
    decreases upto,
{
    if upto == 0 {
        constant_of(width, Term::Count(0))
    } else if indices[upto - 1] == index {
        added_of(gathered_upto(indices, source, width, index, (upto - 1) as nat), source[upto - 1])
    } else {
        gathered_upto(indices, source, width, index, (upto - 1) as nat)
    }
}

/// For each of the given number of indices, the sum of those rows of a matrix
/// whose index in the list it is.
pub open spec fn scattered_of(rows: nat, indices: Seq<i64>, source: Seq<Seq<Term>>, width: nat) -> Seq<
    Seq<Term>,
> {
    Seq::new(rows, |i: int| gathered_upto(indices, source, width, i, indices.len()))
}

/// The terms of each of some matrices.
pub open spec fn grids<N>(parts: Seq<Matrix<N>>) -> Seq<Seq<Seq<Term>>> {
    Seq::new(parts.len(), |h: int| parts[h].terms())
}

/// A matrix: rows of equal length.
pub struct Matrix<N> {
    pub(crate) entries: Vec<Vec<Traced<N>>>,
    pub(crate) cols: usize,
}

impl<N> Matrix<N> {
    #[verifier::type_invariant]
    pub(crate) closed spec fn inv(&self) -> bool {
        rectangular(self.entries@, self.cols as nat)
    }

    /// Number of rows.
    pub closed spec fn height(&self) -> nat {
        self.entries@.len()
    }

    /// Number of columns.
    pub closed spec fn width(&self) -> nat {
        self.cols as nat
    }

    /// How each entry came about, row by row.
    pub closed spec fn terms(&self) -> Seq<Seq<Term>> {
        grid(self.entries@)
    }

    /// Whether the matrix has the given numbers of rows and columns.
    pub open spec fn shaped(&self, rows: nat, cols: nat) -> bool {
        &&& self.height() == rows
        &&& self.width() == cols
        &&& self.terms().len() == rows
        &&& even(self.terms(), cols)
    }

    /// Whether the matrix is as it should be: it has as many rows of terms as
    /// rows, each as long as the matrix is wide.
    pub open spec fn sound(&self) -> bool {
        self.shaped(self.height(), self.width())
    }
}

impl<N: Number> Matrix<N> {
    /// The matrix with the given rows, which are all of the given length.
    pub(crate) fn assemble(entries: Vec<Vec<Traced<N>>>, cols: usize) -> (r: Matrix<N>)
        requires
            rectangular(entries@, cols as nat),
        ensures
            r.shaped(entries@.len(), cols as nat),
            r.terms() == grid(entries@),
    {
        Matrix { entries, cols }
    }

    /// A matrix of the given shape, every entry the given number.
    pub(crate) fn filled_with(rows: usize, cols: usize, value: Traced<N>) -> (r: Matrix<N>)
        ensures
            r.shaped(rows as nat, cols as nat),
            r.terms() == filled_of(rows as nat, cols as nat, value@),
    {
        let mut entries: Vec<Vec<Traced<N>>> = Vec::new();
        let mut i: usize = 0;
        while i < rows
            invariant
                i <= rows,
                entries@.len() == i,
                rectangular(entries@, cols as nat),
                forall|k: int|
                    0 <= k < i ==> terms((#[trigger] entries@[k])@) == constant_of(
                        cols as nat,
                        value@,
                    ),
            decreases rows - i,
        {
            entries.push(constant_row(cols, value));
            i = i + 1;
        }
        Matrix { entries, cols }
    }

    /// A matrix of the given shape, every entry the number with the given bit
    /// pattern.
    pub fn filled(rows: usize, cols: usize, value: Binary64) -> (r: Matrix<N>)
        ensures
            r.shaped(rows as nat, cols as nat),
            r.terms() == filled_of(rows as nat, cols as nat, Term::Bits(value.bits)),
    {
        Matrix::filled_with(rows, cols, Traced::from_bits(value.to_bits()))
    }

    /// A matrix of the given shape, every entry zero.
    pub fn zeros(rows: usize, cols: usize) -> (r: Matrix<N>)
        ensures
            r.shaped(rows as nat, cols as nat),
            r.terms() == filled_of(rows as nat, cols as nat, Term::Count(0)),
    {
        Matrix::filled_with(rows, cols, Traced::from_count(0))
    }

    /// The matrix whose entries have the given bit patterns, where the rows
    /// are equally long. A matrix without rows has no columns.
    pub fn from_rows(rows: &Vec<Vec<Binary64>>) -> (r: Option<Matrix<N>>)
        ensures
            rows@.len() == 0 ==> (r matches Some(m) && m.shaped(0, 0)),
            rows@.len() > 0 && (forall|i: int|
                0 <= i < rows@.len() ==> (#[trigger] rows@[i])@.len() == rows@[0]@.len()) ==> (
            r matches Some(m) && m.shaped(rows@.len(), rows@[0]@.len())),
            rows@.len() > 0 && !(forall|i: int|
                0 <= i < rows@.len() ==> (#[trigger] rows@[i])@.len() == rows@[0]@.len())
                ==> r is None,
            r matches Some(m) ==> m.terms() == from_rows_of(rows@),
    {
        let cols: usize = if rows.len() == 0 {
            0
        } else {
            rows[0].len()
        };
        let mut entries: Vec<Vec<Traced<N>>> = Vec::new();
        let mut i: usize = 0;
        while i < rows.len()
            invariant
                i <= rows@.len(),
                rows@.len() > 0 ==> cols == rows@[0]@.len(),
                forall|k: int| 0 <= k < i ==> (#[trigger] rows@[k])@.len() == cols,
                entries@.len() == i,
                rectangular(entries@, cols as nat),
                forall|k: int|
                    0 <= k < i ==> terms((#[trigger] entries@[k])@) == from_rows_of(rows@)[k],
            decreases rows@.len() - i,
        {
            let source = &rows[i];
            if source.len() != cols {
                return None;
            }
            let mut row: Vec<Traced<N>> = Vec::new();
            let mut j: usize = 0;
            while j < cols
                invariant
                    j <= cols,
                    source@.len() == cols,
                    row@.len() == j,
                    forall|c: int| 0 <= c < j ==> row@[c]@ == Term::Bits(source@[c].bits),
                decreases cols - j,
            {
                row.push(Traced::from_bits(source[j].to_bits()));
                j = j + 1;
            }
            entries.push(row);
            i = i + 1;
        }
        Some(Matrix { entries, cols })
    }

    /// Gives the number of rows.
    pub fn rows(&self) -> (r: usize)
        ensures
            r == self.height(),
            self.sound(),
    {
        proof {
            use_type_invariant(self);
        }
        self.entries.len()
    }

    /// Gives the number of columns.
    pub fn columns(&self) -> (r: usize)
        ensures
            r == self.width(),
            self.sound(),
    {
        proof {
            use_type_invariant(self);
        }
        self.cols
    }

    /// Gives the entry in the given row and column, if there is one.
    pub fn get(&self, row: usize, col: usize) -> (r: Option<Traced<N>>)
        ensures
            r is Some <==> row < self.height() && col < self.width(),
            r matches Some(entry) ==> entry@ == self.terms()[row as int][col as int],
    {
        proof {
            use_type_invariant(self);
        }
        if row < self.entries.len() && col < self.cols {
            Some(self.entries[row][col])
        } else {
            None
        }
    }

    /// The given row.
    pub(crate) fn line(&self, row: usize) -> (r: &Vec<Traced<N>>)
        requires
            row < self.height(),
        ensures
            r@.len() == self.width(),
            terms(r@) == self.terms()[row as int],
            self.sound(),
    {
        proof {
            use_type_invariant(self);
        }
        &self.entries[row]
    }

    /// A matrix with the same entries.
    pub fn copy(&self) -> (r: Matrix<N>)
        ensures
            r.shaped(self.height(), self.width()),
            r.terms() == self.terms(),
    {
        proof {
            use_type_invariant(self);
        }
        let mut entries: Vec<Vec<Traced<N>>> = Vec::new();
        let mut i: usize = 0;
        while i < self.entries.len()
            invariant
                i <= self.entries@.len(),
                self.inv(),
                entries@.len() == i,
                rectangular(entries@, self.cols as nat),
                forall|k: int|
                    0 <= k < i ==> terms((#[trigger] entries@[k])@) == terms(self.entries@[k]@),
            decreases self.entries@.len() - i,
        {
            let source = &self.entries[i];
            let mut row: Vec<Traced<N>> = Vec::new();
            let mut j: usize = 0;
            while j < self.cols
                invariant
                    j <= self.cols,
                    source@.len() == self.cols,
                    row@.len() == j,
                    forall|c: int| 0 <= c < j ==> row@[c]@ == source@[c]@,
                decreases self.cols - j,
            {
                row.push(source[j]);
                j = j + 1;
            }
            entries.push(row);
            i = i + 1;
        }
        Matrix { entries, cols: self.cols }
    }

    /// The matrix turned over its diagonal: rows become columns.
    pub fn transposed(&self) -> (r: Matrix<N>)
        ensures
            r.shaped(self.width(), self.height()),
            r.terms() == transposed_of(self.terms(), self.width()),
    {
        proof {
            use_type_invariant(self);
        }
        let height = self.entries.len();
        let mut entries: Vec<Vec<Traced<N>>> = Vec::new();
        let mut j: usize = 0;
        while j < self.cols
            invariant
                j <= self.cols,
                self.inv(),
                height == self.entries@.len(),
                entries@.len() == j,
                rectangular(entries@, height as nat),
                forall|k: int|
                    0 <= k < j ==> terms((#[trigger] entries@[k])@) == transposed_of(
                        grid(self.entries@),
                        self.cols as nat,
                    )[k],
            decreases self.cols - j,
        {
            let mut row: Vec<Traced<N>> = Vec::new();
            let mut i: usize = 0;
            while i < height
                invariant
                    i <= height,
                    j < self.cols,
                    self.inv(),
                    height == self.entries@.len(),
                    row@.len() == i,
                    forall|c: int| 0 <= c < i ==> row@[c]@ == self.entries@[c]@[j as int]@,
                decreases height - i,
            {
                row.push(self.entries[i][j]);
                i = i + 1;
            }
            entries.push(row);
            j = j + 1;
        }
        Matrix { entries, cols: height }
    }

    /// The product of this matrix and the transpose of the other, or
    /// `ShapeError` where the rows of the two differ in length.
    pub fn times_transposed(&self, other: &Matrix<N>) -> (r: Result<Matrix<N>, Error>)
        ensures
            self.width() == other.width() ==> (r matches Ok(product) && product.shaped(
                self.height(),
                other.height(),
            ) && product.terms() == times_transposed_of(self.terms(), other.terms())),
            self.width() != other.width() ==> (r matches Err(e) && e == Error::ShapeError),
    {
        proof {
            use_type_invariant(self);
            use_type_invariant(other);
        }
        if self.cols != other.cols {
            return Err(Error::ShapeError);
        }
        let width = other.entries.len();
        let ghost wanted = times_transposed_of(grid(self.entries@), grid(other.entries@));
        let mut entries: Vec<Vec<Traced<N>>> = Vec::new();
        let mut i: usize = 0;
        while i < self.entries.len()
            invariant
                i <= self.entries@.len(),
                self.inv(),
                other.inv(),
                self.cols == other.cols,
                width == other.entries@.len(),
                wanted == times_transposed_of(grid(self.entries@), grid(other.entries@)),
                entries@.len() == i,
                rectangular(entries@, width as nat),
                forall|k: int| 0 <= k < i ==> terms((#[trigger] entries@[k])@) == wanted[k],
            decreases self.entries@.len() - i,
        {
            let left = &self.entries[i];
            let mut row: Vec<Traced<N>> = Vec::new();
            let mut j: usize = 0;
            while j < width
                invariant
                    j <= width,
                    other.inv(),
                    left@.len() == other.cols,
                    width == other.entries@.len(),
                    row@.len() == j,
                    forall|c: int|
                        0 <= c < j ==> row@[c]@ == dot_of(terms(left@), terms(other.entries@[c]@)),
                decreases width - j,
            {
                row.push(dot(left, &other.entries[j]));
                j = j + 1;
            }
            entries.push(row);
            i = i + 1;
        }
        Ok(Matrix { entries, cols: width })
    }

    /// The product of two matrices, or `ShapeError` where the first has not as
    /// many columns as the second has rows.
    pub fn matmul(&self, other: &Matrix<N>) -> (r: Result<Matrix<N>, Error>)
        ensures
            self.width() == other.height() ==> (r matches Ok(product) && product.shaped(
                self.height(),
                other.width(),
            ) && product.terms() == matmul_of(self.terms(), other.terms(), other.width())),
            self.width() != other.height() ==> (r matches Err(e) && e == Error::ShapeError),
    {
        let turned = other.transposed();
        self.times_transposed(&turned)
    }

    /// The product of the transpose of this matrix and the other, or
    /// `ShapeError` where the two differ in their number of rows.
    pub fn transposed_times(&self, other: &Matrix<N>) -> (r: Result<Matrix<N>, Error>)
        ensures
            self.height() == other.height() ==> (r matches Ok(product) && product.shaped(
                self.width(),
                other.width(),
            ) && product.terms() == transposed_times_of(
                self.terms(),
                self.width(),
                other.terms(),
                other.width(),
            )),
            self.height() != other.height() ==> (r matches Err(e) && e == Error::ShapeError),
    {
        let left = self.transposed();
        let right = other.transposed();
        left.times_transposed(&right)
    }

    /// The sum of two matrices, entry by entry, or `ShapeError` where their
    /// shapes differ.
    pub fn sum(&self, other: &Matrix<N>) -> (r: Result<Matrix<N>, Error>)
        ensures
            self.height() == other.height() && self.width() == other.width() ==> (r matches Ok(
                total,
            ) && total.shaped(self.height(), self.width()) && total.terms() == sum_of(
                self.terms(),
                other.terms(),
            )),
            !(self.height() == other.height() && self.width() == other.width()) ==> (
            r matches Err(e) && e == Error::ShapeError),
    {
        proof {
            use_type_invariant(self);
            use_type_invariant(other);
        }
        if self.entries.len() != other.entries.len() || self.cols != other.cols {
            return Err(Error::ShapeError);
        }
        let ghost wanted = sum_of(grid(self.entries@), grid(other.entries@));
        let mut entries: Vec<Vec<Traced<N>>> = Vec::new();
        let mut i: usize = 0;
        while i < self.entries.len()
            invariant
                i <= self.entries@.len(),
                self.inv(),
                other.inv(),
                self.entries@.len() == other.entries@.len(),
                self.cols == other.cols,
                wanted == sum_of(grid(self.entries@), grid(other.entries@)),
                entries@.len() == i,
                rectangular(entries@, self.cols as nat),
                forall|k: int| 0 <= k < i ==> terms((#[trigger] entries@[k])@) == wanted[k],
            decreases self.entries@.len() - i,
        {
            entries.push(added(&self.entries[i], &other.entries[i]));
            i = i + 1;
        }
        Ok(Matrix { entries, cols: self.cols })
    }

    /// This matrix with a multiple of the other added to it, entry by entry, or
    /// `ShapeError` where their shapes differ.
    pub fn with_multiple(&self, factor: &Traced<N>, of: &Matrix<N>) -> (r: Result<Matrix<N>, Error>)
        ensures
            self.height() == of.height() && self.width() == of.width() ==> (r matches Ok(total)
                && total.shaped(self.height(), self.width()) && total.terms() == plus_multiple_of(
                self.terms(),
                factor@,
                of.terms(),
            )),
            !(self.height() == of.height() && self.width() == of.width()) ==> (r matches Err(e)
                && e == Error::ShapeError),
    {
        proof {
            use_type_invariant(self);
            use_type_invariant(of);
        }
        if self.entries.len() != of.entries.len() || self.cols != of.cols {
            return Err(Error::ShapeError);
        }
        let ghost wanted = plus_multiple_of(grid(self.entries@), factor@, grid(of.entries@));
        let mut entries: Vec<Vec<Traced<N>>> = Vec::new();
        let mut i: usize = 0;
        while i < self.entries.len()
            invariant
                i <= self.entries@.len(),
                self.inv(),
                of.inv(),
                self.entries@.len() == of.entries@.len(),
                self.cols == of.cols,
                wanted == plus_multiple_of(grid(self.entries@), factor@, grid(of.entries@)),
                entries@.len() == i,
                rectangular(entries@, self.cols as nat),
                forall|k: int| 0 <= k < i ==> terms((#[trigger] entries@[k])@) == wanted[k],
            decreases self.entries@.len() - i,
        {
            entries.push(with_multiple(&self.entries[i], factor, &of.entries[i]));
            i = i + 1;
        }
        Ok(Matrix { entries, cols: self.cols })
    }

    /// The matrix with every entry replaced by zero where the entry of the
    /// other at the same place does not exceed zero, or `ShapeError` where
    /// their shapes differ.
    pub fn gated(&self, by: &Matrix<N>) -> (r: Result<Matrix<N>, Error>)
        ensures
            self.height() == by.height() && self.width() == by.width() ==> (r matches Ok(kept)
                && kept.shaped(self.height(), self.width()) && kept.terms() == gated_of(
                self.terms(),
                by.terms(),
            )),
            !(self.height() == by.height() && self.width() == by.width()) ==> (r matches Err(e)
                && e == Error::ShapeError),
    {
        proof {
            use_type_invariant(self);
            use_type_invariant(by);
        }
        if self.entries.len() != by.entries.len() || self.cols != by.cols {
            return Err(Error::ShapeError);
        }
        let ghost wanted = gated_of(grid(self.entries@), grid(by.entries@));
        let mut entries: Vec<Vec<Traced<N>>> = Vec::new();
        let mut i: usize = 0;
        while i < self.entries.len()
            invariant
                i <= self.entries@.len(),
                self.inv(),
                by.inv(),
                self.entries@.len() == by.entries@.len(),
                self.cols == by.cols,
                wanted == gated_of(grid(self.entries@), grid(by.entries@)),
                entries@.len() == i,
                rectangular(entries@, self.cols as nat),
                forall|k: int| 0 <= k < i ==> terms((#[trigger] entries@[k])@) == wanted[k],
            decreases self.entries@.len() - i,
        {
            let source = &self.entries[i];
            let switch = &by.entries[i];
            let mut row: Vec<Traced<N>> = Vec::new();
            let mut j: usize = 0;
            while j < self.cols
                invariant
                    j <= self.cols,
                    source@.len() == self.cols,
                    switch@.len() == self.cols,
                    row@.len() == j,
                    forall|c: int| 0 <= c < j ==> row@[c]@ == gated(source@[c]@, switch@[c]@),
                decreases self.cols - j,
            {
                row.push(source[j].gated(&switch[j]));
                j = j + 1;
            }
            entries.push(row);
            i = i + 1;
        }
        Ok(Matrix { entries, cols: self.cols })
    }

    /// The matrix with every entry that does not exceed zero replaced by zero.
    pub fn rectified(&self) -> (r: Matrix<N>)
        ensures
            r.shaped(self.height(), self.width()),
            r.terms() == rectified_of(self.terms()),
    {
        match self.gated(self) {
            Ok(kept) => kept,
            Err(_) => vstd::pervasive::unreached(),
        }
    }

    /// The bit patterns of the entries, row after row.
    pub fn bits(&self) -> (r: Vec<Binary64>)
        ensures
            r@.len() == self.height() * self.width(),
    {
        proof {
            use_type_invariant(self);
        }
        let mut out: Vec<Binary64> = Vec::new();
        let mut i: usize = 0;
        while i < self.entries.len()
            invariant
                i <= self.entries@.len(),
                self.inv(),
                out@.len() == i * self.cols,
            decreases self.entries@.len() - i,
        {
            let source = &self.entries[i];
            let mut j: usize = 0;
            while j < source.len()
                invariant
                    j <= source@.len(),
                    source@.len() == self.cols,
                    out@.len() == i * self.cols + j,
                decreases source@.len() - j,
            {
                out.push(Binary64::from_bits(source[j].to_bits()));
                j = j + 1;
            }
            assert((i + 1) * self.cols == i * self.cols + self.cols) by (nonlinear_arith);
            i = i + 1;
        }
        out
    }

    /// The matrix of the given shape whose entries, row after row, have the
    /// bit patterns that stand in the list from the given place on.
    pub(crate) fn from_bits(rows: usize, cols: usize, bits: &Vec<Binary64>, start: usize) -> (r:
        Matrix<N>)
        requires
            start + rows * cols <= bits@.len(),
        ensures
            r.shaped(rows as nat, cols as nat),
            r.terms() == from_bits_of(rows as nat, cols as nat, bits@, start as int),
    {
        let limit = bits.len();
        let ghost wanted = from_bits_of(rows as nat, cols as nat, bits@, start as int);
        let mut entries: Vec<Vec<Traced<N>>> = Vec::new();
        let mut base: usize = start;
        let mut i: usize = 0;
        while i < rows
            invariant
                i <= rows,
                limit == bits@.len(),
                start + rows * cols <= limit,
                base == start + i * cols,
                wanted == from_bits_of(rows as nat, cols as nat, bits@, start as int),
                entries@.len() == i,
                rectangular(entries@, cols as nat),
                forall|k: int| 0 <= k < i ==> terms((#[trigger] entries@[k])@) == wanted[k],
            decreases rows - i,
        {
            assert((i + 1) * cols <= rows * cols) by (nonlinear_arith)
                requires
                    i + 1 <= rows,
                    0 <= cols,
            ;
            assert((i + 1) * cols == i * cols + cols) by (nonlinear_arith);
            let mut row: Vec<Traced<N>> = Vec::new();
            let mut j: usize = 0;
            while j < cols
                invariant
                    j <= cols,
                    limit == bits@.len(),
                    base + cols <= limit,
                    row@.len() == j,
                    forall|c: int| 0 <= c < j ==> row@[c]@ == Term::Bits(bits@[base + c].bits),
                decreases cols - j,
            {
                row.push(Traced::from_bits(bits[base + j].to_bits()));
                j = j + 1;
            }
            entries.push(row);
            base = base + cols;
            i = i + 1;
        }
        Matrix { entries, cols }
    }

    /// For each of the given number of indices, the sum of those rows of the
    /// source whose index in the list it is.
    pub(crate) fn scattered(rows: usize, indices: &Vec<i64>, source: &Matrix<N>) -> (r: Matrix<N>)
        requires
            indices@.len() == source.height(),
        ensures
            r.shaped(rows as nat, source.width()),
            r.terms() == scattered_of(rows as nat, indices@, source.terms(), source.width()),
    {
        proof {
            use_type_invariant(source);
        }
        let cols = source.cols;
        let ghost wanted = scattered_of(rows as nat, indices@, grid(source.entries@), cols as nat);
        let mut entries: Vec<Vec<Traced<N>>> = Vec::new();
        let mut i: usize = 0;
        while i < rows
            invariant
                i <= rows,
                source.inv(),
                cols == source.cols,
                indices@.len() == source.entries@.len(),
                wanted == scattered_of(rows as nat, indices@, grid(source.entries@), cols as nat),
                entries@.len() == i,
                rectangular(entries@, cols as nat),
                forall|k: int| 0 <= k < i ==> terms((#[trigger] entries@[k])@) == wanted[k],
            decreases rows - i,
        {
            let mut sum: Vec<Traced<N>> = constant_row(cols, Traced::from_count(0));
            let mut p: usize = 0;
            while p < indices.len()
                invariant
                    p <= indices@.len(),
                    source.inv(),
                    cols == source.cols,
                    indices@.len() == source.entries@.len(),
                    sum@.len() == cols,
                    terms(sum@) == gathered_upto(
                        indices@,
                        grid(source.entries@),
                        cols as nat,
                        i as int,
                        p as nat,
                    ),
                decreases indices@.len() - p,
            {
                if indices[p] >= 0 && indices[p] as u64 == i as u64 {
                    sum = added(&sum, &source.entries[p]);
                }
                p = p + 1;
            }
            entries.push(sum);
            i = i + 1;
        }
        Matrix { entries, cols }
    }
}

} // verus!
