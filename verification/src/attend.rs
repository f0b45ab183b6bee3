//! Scaled dot-product attention on matrices of numbers, head by head, and the
//! way back through it.
//!
//! A position that another does not see gets no weight from it at all: the row
//! of weights of a position is only as long as the positions that it sees are
//! many, so that what lies beyond takes no part in any sum.

use vstd::prelude::*;
use crate::attention::{visible_count, AttentionModule};
use crate::config::AttentionKind;
use crate::error::Error;
use crate::number::{minus, one, over, root, terms, times, zero, Number, Term, Traced};
use crate::rows::{
    constant_of, constant_row, dot, dot_of, softmax, softmax_of, with_multiple, with_multiple_of,
};
use crate::tensor::{
    grid, grids, matmul_of, rectangular, sum_of, times_transposed_of, transposed_times_of, Matrix,
};

verus! {

/// Some columns of a matrix: `each` of them, from the column `start` on.
pub open spec fn columns_of(whole: Seq<Seq<Term>>, start: int, each: int) -> Seq<Seq<Term>> {
    Seq::new(whole.len(), |i: int| whole[i].subrange(start, start + each))
}

/// A matrix split into heads: the first `each` columns, the next, and so on.
pub open spec fn heads_of(whole: Seq<Seq<Term>>, heads: nat, each: nat) -> Seq<Seq<Seq<Term>>> {
    Seq::new(heads, |h: int| columns_of(whole, h * each, each as int))
}

/// The given row of the first `upto` of some matrices, one after another.
pub open spec fn joined_upto(parts: Seq<Seq<Seq<Term>>>, row: int, upto: nat) -> Seq<Term>
    decreases upto,
{
    if upto == 0 {
        Seq::<Term>::empty()
    } else {
        joined_upto(parts, row, (upto - 1) as nat) + parts[upto - 1][row]
    }
}

/// Matrices of the given height put side by side.
pub open spec fn merged_of(parts: Seq<Seq<Seq<Term>>>, height: nat) -> Seq<Seq<Term>> {
    Seq::new(height, |i: int| joined_upto(parts, i, parts.len()))
}

/// The number by which scores are divided: the root of the width of a head.
pub open spec fn scale_of(each: nat) -> Term {
    root(Term::Count(each as u64))
}

/// The scores of a query against the first `seen` keys: each dot product,
/// divided by the scale.
pub open spec fn scores_of(query: Seq<Term>, keys: Seq<Seq<Term>>, seen: nat, scale: Term) -> Seq<
    Term,
> {
    Seq::new(seen, |j: int| over(dot_of(query, keys[j]), scale))
}

/// The weights of one head: for each position, the softmax of its scores
/// against the positions that it sees.
pub open spec fn weights_of(
    kind: AttentionKind,
    queries: Seq<Seq<Term>>,
    keys: Seq<Seq<Term>>,
    scale: Term,
) -> Seq<Seq<Term>> {
    Seq::new(
        queries.len(),
        |i: int|
            softmax_of(
                scores_of(
                    queries[i],
                    keys,
                    visible_count(kind, i, queries.len() as int) as nat,
                    scale,
                ),
            ),
    )
}

/// The sum of the first `upto` rows of a matrix, each times its factor, added
/// up from the first on, starting from zeros.
pub open spec fn weighted_upto(factors: Seq<Term>, rows: Seq<Seq<Term>>, width: nat, upto: nat) -> Seq<
    Term,
>
    decreases upto,
{
    if upto == 0 {
        constant_of(width, zero())
    } else {
        with_multiple_of(
            weighted_upto(factors, rows, width, (upto - 1) as nat),
            factors[upto - 1],
            rows[upto - 1],
        )
    }
}

/// For each row of a table of factors, the sum of the rows of a matrix, each
/// times its factor in that row.
pub open spec fn gathered_of(table: Seq<Seq<Term>>, rows: Seq<Seq<Term>>, width: nat) -> Seq<
    Seq<Term>,
> {
    Seq::new(table.len(), |i: int| weighted_upto(table[i], rows, width, table[i].len()))
}

/// The sum of those of the first `upto` rows of a matrix for which the table
/// has a factor in the given column, each times that factor.
pub open spec fn column_sum_upto(
    table: Seq<Seq<Term>>,
    rows: Seq<Seq<Term>>,
    width: nat,
    column: int,
    upto: nat,
) -> Seq<Term>
    decreases upto,
{
    if upto == 0 {
        constant_of(width, zero())
    } else if column < table[upto - 1].len() {
        with_multiple_of(
            column_sum_upto(table, rows, width, column, (upto - 1) as nat),
            table[upto - 1][column],
            rows[upto - 1],
        )
    } else {
        column_sum_upto(table, rows, width, column, (upto - 1) as nat)
    }
}

/// For each column of a table of factors, the sum of the rows of a matrix,
/// each times its factor in that column, where it has one.
pub open spec fn columns_summed_of(table: Seq<Seq<Term>>, rows: Seq<Seq<Term>>, width: nat) -> Seq<
    Seq<Term>,
> {
    Seq::new(rows.len(), |j: int| column_sum_upto(table, rows, width, j, rows.len()))
}

/// The gradients of the weights of one position: the dot product of the
/// gradient of its context with each value that it sees.
pub open spec fn weight_gradients_of(above: Seq<Term>, values: Seq<Seq<Term>>, seen: nat) -> Seq<
    Term,
> {
    Seq::new(seen, |j: int| dot_of(above, values[j]))
}

/// The gradients of the scores of one position, from its weights and their
/// gradients: each weight times its gradient less the mean of the gradients
/// under the weights, divided by the scale.
pub open spec fn score_gradient_row_of(weights: Seq<Term>, of_weights: Seq<Term>, scale: Term) -> Seq<
    Term,
> {
    Seq::new(
        of_weights.len(),
        |j: int| over(times(weights[j], minus(of_weights[j], dot_of(weights, of_weights))), scale),
    )
}

/// The gradients of the scores of one head.
pub open spec fn score_gradients_of(
    weights: Seq<Seq<Term>>,
    values: Seq<Seq<Term>>,
    above: Seq<Seq<Term>>,
    scale: Term,
) -> Seq<Seq<Term>> {
    Seq::new(
        weights.len(),
        |i: int|
            score_gradient_row_of(
                weights[i],
                weight_gradients_of(above[i], values, weights[i].len()),
                scale,
            ),
    )
}

/// What attention computes, as terms.
pub struct Attention {
    /// The queries of each head.
    pub queries: Seq<Seq<Seq<Term>>>,
    /// The keys of each head.
    pub keys: Seq<Seq<Seq<Term>>>,
    /// The values of each head.
    pub values: Seq<Seq<Seq<Term>>>,
    /// The weights of each head: for each position, one for each position
    /// that it sees.
    pub weights: Seq<Seq<Seq<Term>>>,
    /// The weighted sums of the values, the heads side by side.
    pub context: Seq<Seq<Term>>,
    /// The attended sequence.
    pub output: Seq<Seq<Term>>,
}

/// Attention on a sequence of vectors of the given width: queries, keys and
/// values are the sequence times their matrices, split into heads; each head
/// weighs the values of the positions that a position sees by the softmax of
/// the scaled dot products of its query with their keys; the heads are put
/// side by side again and multiplied by the output matrix.
pub open spec fn attention_of(
    kind: AttentionKind,
    heads: nat,
    each: nat,
    width: nat,
    input: Seq<Seq<Term>>,
    query: Seq<Seq<Term>>,
    key: Seq<Seq<Term>>,
    value: Seq<Seq<Term>>,
    output: Seq<Seq<Term>>,
) -> Attention {
    let queries = heads_of(matmul_of(input, query, width), heads, each);
    let keys = heads_of(matmul_of(input, key, width), heads, each);
    let values = heads_of(matmul_of(input, value, width), heads, each);
    let weights = Seq::new(heads, |h: int| weights_of(kind, queries[h], keys[h], scale_of(each)));
    let context = merged_of(
        Seq::new(heads, |h: int| gathered_of(weights[h], values[h], each)),
        input.len(),
    );
    Attention { queries, keys, values, weights, context, output: matmul_of(context, output, width) }
}

/// The gradients of attention, as terms.
pub struct AttentionSlopes {
    /// With respect to the sequence that was attended to.
    pub input: Seq<Seq<Term>>,
    /// With respect to the query matrix.
    pub query: Seq<Seq<Term>>,
    /// With respect to the key matrix.
    pub key: Seq<Seq<Term>>,
    /// With respect to the value matrix.
    pub value: Seq<Seq<Term>>,
    /// With respect to the output matrix.
    pub output: Seq<Seq<Term>>,
}

/// The way back through attention, from the gradient with respect to the
/// attended sequence.
pub open spec fn attention_gradient_of(
    kept: Attention,
    heads: nat,
    each: nat,
    width: nat,
    input: Seq<Seq<Term>>,
    query: Seq<Seq<Term>>,
    key: Seq<Seq<Term>>,
    value: Seq<Seq<Term>>,
    output: Seq<Seq<Term>>,
    upstream: Seq<Seq<Term>>,
) -> AttentionSlopes {
    let above = heads_of(times_transposed_of(upstream, output), heads, each);
    let of_scores = Seq::new(
        heads,
        |h: int| score_gradients_of(kept.weights[h], kept.values[h], above[h], scale_of(each)),
    );
    let of_queries = merged_of(
        Seq::new(heads, |h: int| gathered_of(of_scores[h], kept.keys[h], each)),
        input.len(),
    );
    let of_keys = merged_of(
        Seq::new(heads, |h: int| columns_summed_of(of_scores[h], kept.queries[h], each)),
        input.len(),
    );
    let of_values = merged_of(
        Seq::new(heads, |h: int| columns_summed_of(kept.weights[h], above[h], each)),
        input.len(),
    );
    AttentionSlopes {
        input: sum_of(
            sum_of(times_transposed_of(of_queries, query), times_transposed_of(of_keys, key)),
            times_transposed_of(of_values, value),
        ),
        query: transposed_times_of(input, width, of_queries, width),
        key: transposed_times_of(input, width, of_keys, width),
        value: transposed_times_of(input, width, of_values, width),
        output: transposed_times_of(kept.context, width, upstream, width),
    }
}

/// The terms of one table of rows for each head.
pub open spec fn tables<N>(parts: Seq<Vec<Vec<Traced<N>>>>) -> Seq<Seq<Seq<Term>>> {
    Seq::new(parts.len(), |h: int| grid(parts[h]@))
}

/// Whether the matrices are one for each head, each of the given shape.
pub open spec fn heads_shaped<N>(parts: Seq<Matrix<N>>, heads: nat, length: nat, each: nat) -> bool {
    &&& parts.len() == heads
    &&& forall|h: int| 0 <= h < parts.len() ==> (#[trigger] parts[h]).shaped(length, each)
}

/// Whether the rows are one for each position, the row of a position as long
/// as the positions that it sees are many.
pub open spec fn weights_shaped(rows: Seq<Seq<Term>>, kind: AttentionKind, length: nat) -> bool {
    &&& rows.len() == length
    &&& forall|i: int|
        0 <= i < rows.len() ==> (#[trigger] rows[i]).len() == visible_count(kind, i, length as int)
}

/// Whether the weights are one table for each head, each shaped as
/// `weights_shaped` says.
pub open spec fn all_weights_shaped(
    tables: Seq<Seq<Seq<Term>>>,
    kind: AttentionKind,
    heads: nat,
    length: nat,
) -> bool {
    &&& tables.len() == heads
    &&& forall|h: int| 0 <= h < tables.len() ==> weights_shaped(#[trigger] tables[h], kind, length)
}

/// What attention gives for a sequence, and what it keeps for the way back.
pub struct Attended<N> {
    pub(crate) kind: AttentionKind,
    pub(crate) each: usize,
    pub(crate) input: Matrix<N>,
    pub(crate) queries: Vec<Matrix<N>>,
    pub(crate) keys: Vec<Matrix<N>>,
    pub(crate) values: Vec<Matrix<N>>,
    pub(crate) weights: Vec<Vec<Vec<Traced<N>>>>,
    pub(crate) context: Matrix<N>,
    pub(crate) output: Matrix<N>,
}

impl<N> Attended<N> {
    #[verifier::type_invariant]
    pub(crate) closed spec fn inv(&self) -> bool {
        &&& self.input.sound()
        &&& self.input.width() == self.queries@.len() * self.each
        &&& self.context.shaped(self.input.height(), self.input.width())
        &&& self.output.shaped(self.input.height(), self.input.width())
        &&& heads_shaped(self.queries@, self.queries@.len(), self.input.height(), self.each as nat)
        &&& heads_shaped(self.keys@, self.queries@.len(), self.input.height(), self.each as nat)
        &&& heads_shaped(self.values@, self.queries@.len(), self.input.height(), self.each as nat)
        &&& all_weights_shaped(
            tables(self.weights@),
            self.kind,
            self.queries@.len(),
            self.input.height(),
        )
    }

    /// Number of positions of the sequence.
    pub closed spec fn length(&self) -> nat {
        self.input.height()
    }

    /// Width of the vectors of the sequence.
    pub closed spec fn width(&self) -> nat {
        self.input.width()
    }

    /// Number of heads.
    pub closed spec fn heads(&self) -> nat {
        self.queries@.len()
    }

    /// Width of a head.
    pub closed spec fn each(&self) -> nat {
        self.each as nat
    }

    /// The kind of attention that was paid.
    pub closed spec fn kind(&self) -> AttentionKind {
        self.kind
    }

    /// The sequence that was attended to.
    pub closed spec fn given(&self) -> Seq<Seq<Term>> {
        self.input.terms()
    }

    /// What was computed.
    pub closed spec fn terms(&self) -> Attention {
        Attention {
            queries: grids(self.queries@),
            keys: grids(self.keys@),
            values: grids(self.values@),
            weights: tables(self.weights@),
            context: self.context.terms(),
            output: self.output.terms(),
        }
    }
}

impl<N: Number> Attended<N> {
    /// The attended sequence: as many rows and columns as the input had.
    pub fn output(&self) -> (r: &Matrix<N>)
        ensures
            r.shaped(self.length(), self.width()),
            r.terms() == self.terms().output,
    {
        proof {
            use_type_invariant(self);
        }
        &self.output
    }

    /// The weights: for each head and each position, one weight for each
    /// position that it sees, and none for any other.
    pub fn weights(&self) -> (r: &Vec<Vec<Vec<Traced<N>>>>)
        ensures
            tables(r@) == self.terms().weights,
            all_weights_shaped(tables(r@), self.kind(), self.heads(), self.length()),
    {
        proof {
            use_type_invariant(self);
        }
        &self.weights
    }
}

/// The columns of a matrix that belong to one head.
fn head_of<N: Number>(whole: &Matrix<N>, head: usize, each: usize) -> (r: Matrix<N>)
    requires
        (head + 1) * each <= whole.width(),
    ensures
        r.shaped(whole.height(), each as nat),
        r.terms() == columns_of(whole.terms(), head * each, each as int),
{
    let width = whole.columns();
    proof {
        assert((head + 1) * each == head * each + each) by (nonlinear_arith);
    }
    let start: usize = head * each;
    let ghost wanted = columns_of(whole.terms(), start as int, each as int);
    let mut entries: Vec<Vec<Traced<N>>> = Vec::new();
    let mut i: usize = 0;
    while i < whole.rows()
        invariant
            i <= whole.height(),
            whole.sound(),
            width == whole.width(),
            start + each <= width,
            wanted == columns_of(whole.terms(), start as int, each as int),
            entries@.len() == i,
            rectangular(entries@, each as nat),
            forall|k: int| 0 <= k < i ==> terms((#[trigger] entries@[k])@) == wanted[k],
        decreases whole.height() - i,
    {
        let source = whole.line(i);
        let mut row: Vec<Traced<N>> = Vec::new();
        let mut c: usize = 0;
        while c < each
            invariant
                c <= each,
                start + each <= width,
                source@.len() == width,
                row@.len() == c,
                forall|k: int| 0 <= k < c ==> row@[k]@ == source@[start + k]@,
            decreases each - c,
        {
            row.push(source[start + c]);
            c = c + 1;
        }
        entries.push(row);
        i = i + 1;
    }
    Matrix::assemble(entries, each)
}

/// Splits a matrix into the columns of each head.
fn split<N: Number>(whole: &Matrix<N>, heads: usize, each: usize) -> (r: Vec<Matrix<N>>)
    requires
        heads * each == whole.width(),
    ensures
        heads_shaped(r@, heads as nat, whole.height(), each as nat),
        grids(r@) == heads_of(whole.terms(), heads as nat, each as nat),
{
    let mut parts: Vec<Matrix<N>> = Vec::new();
    let mut h: usize = 0;
    while h < heads
        invariant
            h <= heads,
            heads * each == whole.width(),
            parts@.len() == h,
            forall|k: int| 0 <= k < h ==> (#[trigger] parts@[k]).shaped(whole.height(), each as nat),
            forall|k: int|
                0 <= k < h ==> (#[trigger] parts@[k]).terms() == columns_of(
                    whole.terms(),
                    k * each,
                    each as int,
                ),
        decreases heads - h,
    {
        assert((h + 1) * each <= heads * each) by (nonlinear_arith)
            requires
                h + 1 <= heads,
                0 <= each,
        ;
        parts.push(head_of(whole, h, each));
        h = h + 1;
    }
    parts
}

/// Puts the columns of the heads side by side again.
fn merge<N: Number>(parts: &Vec<Matrix<N>>, length: usize, each: usize, width: usize) -> (r:
    Matrix<N>)
    requires
        heads_shaped(parts@, parts@.len(), length as nat, each as nat),
        parts@.len() * each == width,
    ensures
        r.shaped(length as nat, width as nat),
        r.terms() == merged_of(grids(parts@), length as nat),
{
    let heads = parts.len();
    let ghost wanted = merged_of(grids(parts@), length as nat);
    let mut entries: Vec<Vec<Traced<N>>> = Vec::new();
    let mut i: usize = 0;
    while i < length
        invariant
            i <= length,
            heads == parts@.len(),
            heads_shaped(parts@, parts@.len(), length as nat, each as nat),
            heads * each == width,
            wanted == merged_of(grids(parts@), length as nat),
            entries@.len() == i,
            rectangular(entries@, width as nat),
            forall|k: int| 0 <= k < i ==> terms((#[trigger] entries@[k])@) == wanted[k],
        decreases length - i,
    {
        let mut row: Vec<Traced<N>> = Vec::new();
        let mut h: usize = 0;
        while h < heads
            invariant
                h <= heads,
                i < length,
                heads == parts@.len(),
                heads_shaped(parts@, parts@.len(), length as nat, each as nat),
                heads * each == width,
                row@.len() == h * each,
                terms(row@) == joined_upto(grids(parts@), i as int, h as nat),
            decreases heads - h,
        {
            let part = &parts[h];
            let source = part.line(i);
            let ghost before = row@;
            let mut c: usize = 0;
            while c < each
                invariant
                    c <= each,
                    source@.len() == each,
                    row@.len() == h * each + c,
                    row@ == before + source@.take(c as int),
                decreases each - c,
            {
                row.push(source[c]);
                c = c + 1;
            }
            assert((h + 1) * each == h * each + each) by (nonlinear_arith);
            h = h + 1;
        }
        entries.push(row);
        i = i + 1;
    }
    Matrix::assemble(entries, width)
}

/// The weights of one head: for each position, the softmax of its scores
/// against the positions that it sees.
fn weigh<N: Number>(
    kind: AttentionKind,
    queries: &Matrix<N>,
    keys: &Matrix<N>,
    scale: &Traced<N>,
) -> (r: Vec<Vec<Traced<N>>>)
    requires
        keys.height() == queries.height(),
        keys.width() == queries.width(),
    ensures
        weights_shaped(grid(r@), kind, queries.height()),
        grid(r@) == weights_of(kind, queries.terms(), keys.terms(), scale@),
{
    let length = queries.rows();
    let ghost wanted = weights_of(kind, queries.terms(), keys.terms(), scale@);
    let mut table: Vec<Vec<Traced<N>>> = Vec::new();
    let mut i: usize = 0;
    while i < length
        invariant
            i <= length,
            queries.sound(),
            length == queries.height(),
            keys.height() == length,
            keys.width() == queries.width(),
            wanted == weights_of(kind, queries.terms(), keys.terms(), scale@),
            table@.len() == i,
            forall|k: int|
                0 <= k < i ==> (#[trigger] table@[k])@.len() == visible_count(kind, k, length as int),
            forall|k: int| 0 <= k < i ==> terms((#[trigger] table@[k])@) == wanted[k],
        decreases length - i,
    {
        let seen = kind.visible_keys(i, length);
        let query = queries.line(i);
        let mut scores: Vec<Traced<N>> = Vec::new();
        let mut j: usize = 0;
        while j < seen
            invariant
                j <= seen,
                seen <= keys.height(),
                query@.len() == keys.width(),
                scores@.len() == j,
                forall|k: int|
                    0 <= k < j ==> scores@[k]@ == over(
                        dot_of(terms(query@), keys.terms()[k]),
                        scale@,
                    ),
            decreases seen - j,
        {
            scores.push(dot(query, keys.line(j)).over(scale));
            j = j + 1;
        }
        assert(terms(scores@) =~= scores_of(terms(query@), keys.terms(), seen as nat, scale@));
        table.push(softmax(&scores));
        i = i + 1;
    }
    table
}

/// For each row of a table of factors, the sum of the rows of a matrix, each
/// times its factor in that row.
fn gather<N: Number>(table: &Vec<Vec<Traced<N>>>, rows: &Matrix<N>, each: usize) -> (r: Matrix<N>)
    requires
        table@.len() == rows.height(),
        rows.width() == each,
        forall|i: int| 0 <= i < table@.len() ==> (#[trigger] table@[i])@.len() <= rows.height(),
    ensures
        r.shaped(rows.height(), each as nat),
        r.terms() == gathered_of(grid(table@), rows.terms(), each as nat),
{
    let length = rows.rows();
    let ghost wanted = gathered_of(grid(table@), rows.terms(), each as nat);
    let mut entries: Vec<Vec<Traced<N>>> = Vec::new();
    let mut i: usize = 0;
    while i < length
        invariant
            i <= length,
            length == rows.height(),
            table@.len() == length,
            rows.width() == each,
            forall|k: int| 0 <= k < table@.len() ==> (#[trigger] table@[k])@.len() <= rows.height(),
            wanted == gathered_of(grid(table@), rows.terms(), each as nat),
            entries@.len() == i,
            rectangular(entries@, each as nat),
            forall|k: int| 0 <= k < i ==> terms((#[trigger] entries@[k])@) == wanted[k],
        decreases length - i,
    {
        let factors = &table[i];
        let mut sum: Vec<Traced<N>> = constant_row(each, Traced::from_count(0));
        let mut j: usize = 0;
        while j < factors.len()
            invariant
                j <= factors@.len(),
                factors@.len() <= rows.height(),
                rows.width() == each,
                sum@.len() == each,
                terms(sum@) == weighted_upto(terms(factors@), rows.terms(), each as nat, j as nat),
            decreases factors@.len() - j,
        {
            sum = with_multiple(&sum, &factors[j], rows.line(j));
            j = j + 1;
        }
        entries.push(sum);
        i = i + 1;
    }
    Matrix::assemble(entries, each)
}

/// For each column of a table of factors, the sum of the rows of a matrix,
/// each times its factor in that column, where it has one.
fn sum_columns<N: Number>(table: &Vec<Vec<Traced<N>>>, rows: &Matrix<N>, each: usize) -> (r:
    Matrix<N>)
    requires
        table@.len() == rows.height(),
        rows.width() == each,
    ensures
        r.shaped(rows.height(), each as nat),
        r.terms() == columns_summed_of(grid(table@), rows.terms(), each as nat),
{
    let length = rows.rows();
    let ghost wanted = columns_summed_of(grid(table@), rows.terms(), each as nat);
    let mut entries: Vec<Vec<Traced<N>>> = Vec::new();
    let mut j: usize = 0;
    while j < length
        invariant
            j <= length,
            rows.sound(),
            length == rows.height(),
            table@.len() == length,
            rows.width() == each,
            wanted == columns_summed_of(grid(table@), rows.terms(), each as nat),
            entries@.len() == j,
            rectangular(entries@, each as nat),
            forall|k: int| 0 <= k < j ==> terms((#[trigger] entries@[k])@) == wanted[k],
        decreases length - j,
    {
        let mut sum: Vec<Traced<N>> = constant_row(each, Traced::from_count(0));
        let mut i: usize = 0;
        while i < length
            invariant
                i <= length,
                j < length,
                length == rows.height(),
                table@.len() == length,
                rows.width() == each,
                sum@.len() == each,
                terms(sum@) == column_sum_upto(
                    grid(table@),
                    rows.terms(),
                    each as nat,
                    j as int,
                    i as nat,
                ),
            decreases length - i,
        {
            let factors = &table[i];
            if j < factors.len() {
                sum = with_multiple(&sum, &factors[j], rows.line(i));
            }
            i = i + 1;
        }
        entries.push(sum);
        j = j + 1;
    }
    Matrix::assemble(entries, each)
}

/// Whether a matrix is square and of the given width.
fn fits<N: Number>(width: usize, weight: &Matrix<N>) -> (r: bool)
    ensures
        r == weight.shaped(width as nat, width as nat),
        weight.sound(),
{
    weight.rows() == width && weight.columns() == width
}

impl AttentionModule {
    /// Whether the four weight matrices fit vectors of the given width: each
    /// is square and as wide.
    pub open spec fn weights_fit<N>(
        width: nat,
        query: &Matrix<N>,
        key: &Matrix<N>,
        value: &Matrix<N>,
        output: &Matrix<N>,
    ) -> bool {
        &&& query.shaped(width, width)
        &&& key.shaped(width, width)
        &&& value.shaped(width, width)
        &&& output.shaped(width, width)
    }

    /// What is wrong with an input to attention, if anything: the heads do not
    /// divide its width (`ConfigError`), or else it is longer than the context
    /// window or the weights do not fit it (`ShapeError`).
    pub open spec fn refusal<N>(
        &self,
        input: &Matrix<N>,
        query: &Matrix<N>,
        key: &Matrix<N>,
        value: &Matrix<N>,
        output: &Matrix<N>,
    ) -> Option<Error> {
        if !self.divides(input.width() as u64) {
            Some(Error::ConfigError)
        } else if input.height() > self.context_window || !Self::weights_fit(
            input.width(),
            query,
            key,
            value,
            output,
        ) {
            Some(Error::ShapeError)
        } else {
            None
        }
    }

    /// Attends to a sequence: one row for each position comes in, and one row
    /// of the same width for each position goes out. The input is left as it
    /// is.
    pub fn forward<N: Number>(
        &self,
        input: &Matrix<N>,
        query: &Matrix<N>,
        key: &Matrix<N>,
        value: &Matrix<N>,
        output: &Matrix<N>,
    ) -> (r: Result<Attended<N>, Error>)
        ensures
            match self.refusal(input, query, key, value, output) {
                Some(error) => r matches Err(e) && e == error,
                None => r matches Ok(kept) && kept.length() == input.height() && kept.width()
                    == input.width() && kept.heads() == self.heads && kept.kind() == self.kind
                    && kept.each() * self.heads == input.width() && kept.given() == input.terms()
                    && kept.terms() == attention_of(
                    self.kind,
                    self.heads as nat,
                    kept.each(),
                    input.width(),
                    input.terms(),
                    query.terms(),
                    key.terms(),
                    value.terms(),
                    output.terms(),
                ),
            },
    {
        let width = input.columns();
        let length = input.rows();
        let each = match self.head_width(width as u64) {
            Ok(each) => each as usize,
            Err(e) => {
                return Err(e);
            },
        };
        let heads = self.heads as usize;
        if length > self.context_window as usize || !fits(width, query) || !fits(width, key)
            || !fits(width, value) || !fits(width, output) {
            return Err(Error::ShapeError);
        }
        assert(heads * each == width) by (nonlinear_arith)
            requires
                each * self.heads == width,
                heads == self.heads,
        ;
        let all_queries = match input.matmul(query) {
            Ok(m) => m,
            Err(e) => {
                return Err(e);
            },
        };
        let all_keys = match input.matmul(key) {
            Ok(m) => m,
            Err(e) => {
                return Err(e);
            },
        };
        let all_values = match input.matmul(value) {
            Ok(m) => m,
            Err(e) => {
                return Err(e);
            },
        };
        let queries = split(&all_queries, heads, each);
        let keys = split(&all_keys, heads, each);
        let values = split(&all_values, heads, each);
        let scale = Traced::<N>::from_count(each as u64).root();
        let ghost wanted = attention_of(
            self.kind,
            heads as nat,
            each as nat,
            width as nat,
            input.terms(),
            query.terms(),
            key.terms(),
            value.terms(),
            output.terms(),
        );
        let mut weights: Vec<Vec<Vec<Traced<N>>>> = Vec::new();
        let mut contexts: Vec<Matrix<N>> = Vec::new();
        let mut h: usize = 0;
        while h < heads
            invariant
                h <= heads,
                scale@ == scale_of(each as nat),
                heads_shaped(queries@, heads as nat, length as nat, each as nat),
                heads_shaped(keys@, heads as nat, length as nat, each as nat),
                heads_shaped(values@, heads as nat, length as nat, each as nat),
                grids(queries@) == wanted.queries,
                grids(keys@) == wanted.keys,
                grids(values@) == wanted.values,
                wanted.weights == Seq::new(
                    heads as nat,
                    |k: int|
                        weights_of(
                            self.kind,
                            wanted.queries[k],
                            wanted.keys[k],
                            scale_of(each as nat),
                        ),
                ),
                weights@.len() == h,
                contexts@.len() == h,
                forall|k: int|
                    0 <= k < h ==> weights_shaped(
                        grid((#[trigger] weights@[k])@),
                        self.kind,
                        length as nat,
                    ),
                forall|k: int| 0 <= k < h ==> grid((#[trigger] weights@[k])@) == wanted.weights[k],
                forall|k: int|
                    0 <= k < h ==> (#[trigger] contexts@[k]).shaped(length as nat, each as nat),
                forall|k: int|
                    0 <= k < h ==> (#[trigger] contexts@[k]).terms() == gathered_of(
                        wanted.weights[k],
                        wanted.values[k],
                        each as nat,
                    ),
            decreases heads - h,
        {
            let table = weigh(self.kind, &queries[h], &keys[h], &scale);
            assert forall|i: int| 0 <= i < table@.len() implies (#[trigger] table@[i])@.len()
                <= length by {
                assert(grid(table@)[i].len() == visible_count(self.kind, i, length as int));
            }
            let context = gather(&table, &values[h], each);
            weights.push(table);
            contexts.push(context);
            h = h + 1;
        }
        let context = merge(&contexts, length, each, width);
        let attended = match context.matmul(output) {
            Ok(m) => m,
            Err(e) => {
                return Err(e);
            },
        };
        let input_kept = input.copy();
        proof {
            assert(tables(weights@) =~= wanted.weights);
            assert(grids(contexts@) =~= Seq::new(
                heads as nat,
                |k: int| gathered_of(wanted.weights[k], wanted.values[k], each as nat),
            ));
        }
        Ok(
            Attended {
                kind: self.kind,
                each,
                input: input_kept,
                queries,
                keys,
                values,
                weights,
                context,
                output: attended,
            },
        )
    }
}

/// The gradients of attention.
pub struct AttentionGradients<N> {
    /// With respect to the sequence that was attended to.
    pub input: Matrix<N>,
    /// With respect to the query matrix.
    pub query: Matrix<N>,
    /// With respect to the key matrix.
    pub key: Matrix<N>,
    /// With respect to the value matrix.
    pub value: Matrix<N>,
    /// With respect to the output matrix.
    pub output: Matrix<N>,
}

impl<N> AttentionGradients<N> {
    /// The gradients as terms.
    pub open spec fn terms(&self) -> AttentionSlopes {
        AttentionSlopes {
            input: self.input.terms(),
            query: self.query.terms(),
            key: self.key.terms(),
            value: self.value.terms(),
            output: self.output.terms(),
        }
    }
}

/// The gradients of the scores of one head: for each position, one for each
/// position that it sees.
fn score_gradients<N: Number>(
    table: &Vec<Vec<Traced<N>>>,
    values: &Matrix<N>,
    above: &Matrix<N>,
    scale: &Traced<N>,
) -> (r: Vec<Vec<Traced<N>>>)
    requires
        above.sound(),
        values.sound(),
        table@.len() == values.height(),
        above.height() == values.height(),
        above.width() == values.width(),
        forall|i: int| 0 <= i < table@.len() ==> (#[trigger] table@[i])@.len() <= values.height(),
    ensures
        r@.len() == table@.len(),
        forall|i: int| 0 <= i < r@.len() ==> (#[trigger] r@[i])@.len() == table@[i]@.len(),
        grid(r@) == score_gradients_of(grid(table@), values.terms(), above.terms(), scale@),
{
    let length = values.rows();
    let ghost wanted = score_gradients_of(grid(table@), values.terms(), above.terms(), scale@);
    let mut out: Vec<Vec<Traced<N>>> = Vec::new();
    let mut i: usize = 0;
    while i < length
        invariant
            i <= length,
            above.sound(),
            values.sound(),
            length == values.height(),
            table@.len() == length,
            above.height() == length,
            above.width() == values.width(),
            forall|k: int|
                0 <= k < table@.len() ==> (#[trigger] table@[k])@.len() <= values.height(),
            wanted == score_gradients_of(grid(table@), values.terms(), above.terms(), scale@),
            out@.len() == i,
            forall|k: int| 0 <= k < i ==> (#[trigger] out@[k])@.len() == table@[k]@.len(),
            forall|k: int| 0 <= k < i ==> terms((#[trigger] out@[k])@) == wanted[k],
        decreases length - i,
    {
        let weights = &table[i];
        let gradient = above.line(i);
        let mut of_weights: Vec<Traced<N>> = Vec::new();
        let mut j: usize = 0;
        while j < weights.len()
            invariant
                j <= weights@.len(),
                values.sound(),
                weights@.len() <= values.height(),
                gradient@.len() == values.width(),
                of_weights@.len() == j,
                forall|k: int|
                    0 <= k < j ==> of_weights@[k]@ == dot_of(terms(gradient@), values.terms()[k]),
            decreases weights@.len() - j,
        {
            of_weights.push(dot(gradient, values.line(j)));
            j = j + 1;
        }
        assert(terms(of_weights@) =~= weight_gradients_of(
            terms(gradient@),
            values.terms(),
            weights@.len(),
        ));
        let mean = dot(weights, &of_weights);
        let mut of_scores: Vec<Traced<N>> = Vec::new();
        let mut j: usize = 0;
        while j < of_weights.len()
            invariant
                j <= of_weights@.len(),
                of_weights@.len() == weights@.len(),
                of_scores@.len() == j,
                forall|k: int|
                    0 <= k < j ==> of_scores@[k]@ == over(
                        times(weights@[k]@, minus(of_weights@[k]@, mean@)),
                        scale@,
                    ),
            decreases of_weights@.len() - j,
        {
            of_scores.push(weights[j].times(&of_weights[j].minus(&mean)).over(scale));
            j = j + 1;
        }
        out.push(of_scores);
        i = i + 1;
    }
    out
}

impl<N: Number> Attended<N> {
    /// The way back through attention: from the gradient with respect to the
    /// attended sequence to the gradients with respect to the input and the
    /// four weight matrices. `ShapeError` where the weights or the gradient do
    /// not have the shapes that attention had.
    pub fn backward(
        &self,
        query: &Matrix<N>,
        key: &Matrix<N>,
        value: &Matrix<N>,
        output: &Matrix<N>,
        upstream: &Matrix<N>,
    ) -> (r: Result<AttentionGradients<N>, Error>)
        ensures
            AttentionModule::weights_fit(self.width(), query, key, value, output)
                && upstream.shaped(self.length(), self.width()) ==> (r matches Ok(g)
                && g.input.shaped(self.length(), self.width()) && AttentionModule::weights_fit(
                self.width(),
                &g.query,
                &g.key,
                &g.value,
                &g.output,
            ) && g.terms() == attention_gradient_of(
                self.terms(),
                self.heads(),
                self.each(),
                self.width(),
                self.given(),
                query.terms(),
                key.terms(),
                value.terms(),
                output.terms(),
                upstream.terms(),
            )),
            !(AttentionModule::weights_fit(self.width(), query, key, value, output)
                && upstream.shaped(self.length(), self.width())) ==> (r matches Err(e) && e
                == Error::ShapeError),
    {
        proof {
            use_type_invariant(self);
        }
        let width = self.input.columns();
        let length = self.input.rows();
        let heads = self.queries.len();
        let each = self.each;
        if !fits(width, query) || !fits(width, key) || !fits(width, value) || !fits(width, output)
            || upstream.rows() != length || upstream.columns() != width {
            return Err(Error::ShapeError);
        }
        let ghost kept = self.terms();
        let scale = Traced::<N>::from_count(each as u64).root();
        let of_output = match self.context.transposed_times(upstream) {
            Ok(m) => m,
            Err(e) => {
                return Err(e);
            },
        };
        let of_context = match upstream.times_transposed(output) {
            Ok(m) => m,
            Err(e) => {
                return Err(e);
            },
        };
        let above = split(&of_context, heads, each);
        let ghost of_scores_wanted = Seq::new(
            heads as nat,
            |h: int|
                score_gradients_of(
                    kept.weights[h],
                    kept.values[h],
                    grids(above@)[h],
                    scale_of(each as nat),
                ),
        );
        let mut of_queries: Vec<Matrix<N>> = Vec::new();
        let mut of_keys: Vec<Matrix<N>> = Vec::new();
        let mut of_values: Vec<Matrix<N>> = Vec::new();
        let mut h: usize = 0;
        while h < heads
            invariant
                h <= heads,
                self.inv(),
                kept == self.terms(),
                scale@ == scale_of(each as nat),
                heads == self.queries@.len(),
                each == self.each,
                length == self.input.height(),
                heads_shaped(above@, heads as nat, length as nat, each as nat),
                of_scores_wanted == Seq::new(
                    heads as nat,
                    |h: int|
                        score_gradients_of(
                            kept.weights[h],
                            kept.values[h],
                            grids(above@)[h],
                            scale_of(each as nat),
                        ),
                ),
                of_queries@.len() == h,
                of_keys@.len() == h,
                of_values@.len() == h,
                forall|k: int|
                    0 <= k < h ==> (#[trigger] of_queries@[k]).shaped(length as nat, each as nat),
                forall|k: int|
                    0 <= k < h ==> (#[trigger] of_keys@[k]).shaped(length as nat, each as nat),
                forall|k: int|
                    0 <= k < h ==> (#[trigger] of_values@[k]).shaped(length as nat, each as nat),
                forall|k: int|
                    0 <= k < h ==> (#[trigger] of_queries@[k]).terms() == gathered_of(
                        of_scores_wanted[k],
                        kept.keys[k],
                        each as nat,
                    ),
                forall|k: int|
                    0 <= k < h ==> (#[trigger] of_keys@[k]).terms() == columns_summed_of(
                        of_scores_wanted[k],
                        kept.queries[k],
                        each as nat,
                    ),
                forall|k: int|
                    0 <= k < h ==> (#[trigger] of_values@[k]).terms() == columns_summed_of(
                        kept.weights[k],
                        grids(above@)[k],
                        each as nat,
                    ),
            decreases heads - h,
        {
            assert(tables(self.weights@)[h as int] == grid(self.weights@[h as int]@));
            let table = &self.weights[h];
            assert forall|i: int| 0 <= i < table@.len() implies (#[trigger] table@[i])@.len()
                <= length by {
                assert(grid(table@)[i].len() == visible_count(self.kind, i, length as int));
            }
            let of_scores = score_gradients(table, &self.values[h], &above[h], &scale);
            of_queries.push(gather(&of_scores, &self.keys[h], each));
            of_keys.push(sum_columns(&of_scores, &self.queries[h], each));
            of_values.push(sum_columns(table, &above[h], each));
            h = h + 1;
        }
        proof {
            assert(grids(of_queries@) =~= Seq::new(
                heads as nat,
                |k: int| gathered_of(of_scores_wanted[k], kept.keys[k], each as nat),
            ));
            assert(grids(of_keys@) =~= Seq::new(
                heads as nat,
                |k: int| columns_summed_of(of_scores_wanted[k], kept.queries[k], each as nat),
            ));
            assert(grids(of_values@) =~= Seq::new(
                heads as nat,
                |k: int| columns_summed_of(kept.weights[k], grids(above@)[k], each as nat),
            ));
        }
        let all_queries = merge(&of_queries, length, each, width);
        let all_keys = merge(&of_keys, length, each, width);
        let all_values = merge(&of_values, length, each, width);
        let of_query = match self.input.transposed_times(&all_queries) {
            Ok(m) => m,
            Err(e) => {
                return Err(e);
            },
        };
        let of_key = match self.input.transposed_times(&all_keys) {
            Ok(m) => m,
            Err(e) => {
                return Err(e);
            },
        };
        let of_value = match self.input.transposed_times(&all_values) {
            Ok(m) => m,
            Err(e) => {
                return Err(e);
            },
        };
        let through_queries = match all_queries.times_transposed(query) {
            Ok(m) => m,
            Err(e) => {
                return Err(e);
            },
        };
        let through_keys = match all_keys.times_transposed(key) {
            Ok(m) => m,
            Err(e) => {
                return Err(e);
            },
        };
        let through_values = match all_values.times_transposed(value) {
            Ok(m) => m,
            Err(e) => {
                return Err(e);
            },
        };
        let two = match through_queries.sum(&through_keys) {
            Ok(m) => m,
            Err(e) => {
                return Err(e);
            },
        };
        let of_input = match two.sum(&through_values) {
            Ok(m) => m,
            Err(e) => {
                return Err(e);
            },
        };
        Ok(
            AttentionGradients {
                input: of_input,
                query: of_query,
                key: of_key,
                value: of_value,
                output: of_output,
            },
        )
    }
}

/// A position has a weight for exactly the positions that it may see: under
/// causal attention none for any later position, under full attention one for
/// every position.
pub proof fn law_weights_are_for_what_is_seen(
    tables: Seq<Seq<Seq<Term>>>,
    kind: AttentionKind,
    heads: nat,
    length: nat,
    head: int,
    query: int,
    key: int,
)
    requires
        all_weights_shaped(tables, kind, heads, length),
        0 <= head < heads,
        0 <= query < length,
        0 <= key < length,
    ensures
        key < tables[head][query].len() <==> kind.sees(query, key),
        kind == AttentionKind::Causal && key > query ==> key >= tables[head][query].len(),
        kind == AttentionKind::Full ==> tables[head][query].len() == length,
{
}

} // verus!
