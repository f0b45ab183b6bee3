//! Why causal attention deserves its name: under it, what a model makes of a
//! position does not depend on what comes after that position.

use vstd::prelude::*;
use crate::attend::{
    attention_of, columns_of, gathered_of, joined_upto, scale_of, scores_of, weighted_upto,
    weights_of,
};
use crate::attention::visible_count;
use crate::block::{canonical_order, BlockTensor, SubLayer};
use crate::config::{AttentionKind, Hyperparameters};
use crate::model::ModelTensor;
use crate::normalization::normalized_of;
use crate::number::Term;
use crate::pass::{
    applied, blocks_upto, each_of, embedded_of, entering, flowed_upto, hidden_layer_of,
    hidden_of, passed_of, tensor_of, Flow,
};
use crate::tensor::{matmul_of, rectified_of, sum_of};

verus! {

/// Whether two matrices have the same first `upto` rows.
pub open spec fn agree(left: Seq<Seq<Term>>, right: Seq<Seq<Term>>, upto: nat) -> bool {
    &&& left.len() >= upto
    &&& right.len() >= upto
    &&& forall|i: int| 0 <= i < upto ==> left[i] == right[i]
}

/// A row of a product depends on the same row of the first factor alone.
pub proof fn lemma_product_is_row_by_row(
    left: Seq<Seq<Term>>,
    right: Seq<Seq<Term>>,
    weight: Seq<Seq<Term>>,
    width: nat,
    upto: nat,
)
    requires
        agree(left, right, upto),
    ensures
        agree(matmul_of(left, weight, width), matmul_of(right, weight, width), upto),
{
    assert forall|i: int| 0 <= i < upto implies matmul_of(left, weight, width)[i] == matmul_of(
        right,
        weight,
        width,
    )[i] by {
        assert(matmul_of(left, weight, width)[i] =~= matmul_of(right, weight, width)[i]);
    }
}

/// A row of a normalized matrix depends on the same row of the input alone.
pub proof fn lemma_normalization_is_row_by_row(
    left: Seq<Seq<Term>>,
    right: Seq<Seq<Term>>,
    gain: Seq<Term>,
    upto: nat,
)
    requires
        agree(left, right, upto),
    ensures
        agree(normalized_of(left, gain), normalized_of(right, gain), upto),
{
}

/// A row of a sum depends on the same rows of the summands alone.
pub proof fn lemma_sum_is_row_by_row(
    left: Seq<Seq<Term>>,
    right: Seq<Seq<Term>>,
    more_left: Seq<Seq<Term>>,
    more_right: Seq<Seq<Term>>,
    upto: nat,
)
    requires
        agree(left, right, upto),
        agree(more_left, more_right, upto),
    ensures
        agree(sum_of(left, more_left), sum_of(right, more_right), upto),
{
}

/// A row of a rectified matrix depends on the same row of the input alone.
pub proof fn lemma_rectifier_is_row_by_row(left: Seq<Seq<Term>>, right: Seq<Seq<Term>>, upto: nat)
    requires
        agree(left, right, upto),
    ensures
        agree(rectified_of(left), rectified_of(right), upto),
{
    assert forall|i: int| 0 <= i < upto implies rectified_of(left)[i] == rectified_of(right)[i] by {
        assert(rectified_of(left)[i] =~= rectified_of(right)[i]);
    }
}

/// A row of some columns of a matrix depends on the same row of the matrix
/// alone.
pub proof fn lemma_columns_are_row_by_row(
    left: Seq<Seq<Term>>,
    right: Seq<Seq<Term>>,
    start: int,
    each: int,
    upto: nat,
)
    requires
        agree(left, right, upto),
    ensures
        agree(columns_of(left, start, each), columns_of(right, start, each), upto),
{
}

/// A weighted sum of the first rows of a matrix depends on those rows alone.
pub proof fn lemma_weighted_sum_reads_first_rows(
    factors: Seq<Term>,
    left: Seq<Seq<Term>>,
    right: Seq<Seq<Term>>,
    width: nat,
    upto: nat,
    rows: nat,
)
    requires
        agree(left, right, upto),
        rows <= upto,
    ensures
        weighted_upto(factors, left, width, rows) == weighted_upto(factors, right, width, rows),
    decreases rows,
{
    if rows > 0 {
        lemma_weighted_sum_reads_first_rows(factors, left, right, width, upto, (rows - 1) as nat);
    }
}

/// The weights of a position under causal attention depend on the queries and
/// keys of the positions up to it alone.
pub proof fn lemma_causal_weights_read_the_past(
    queries_left: Seq<Seq<Term>>,
    queries_right: Seq<Seq<Term>>,
    keys_left: Seq<Seq<Term>>,
    keys_right: Seq<Seq<Term>>,
    scale: Term,
    upto: nat,
)
    requires
        agree(queries_left, queries_right, upto),
        agree(keys_left, keys_right, upto),
    ensures
        agree(
            weights_of(AttentionKind::Causal, queries_left, keys_left, scale),
            weights_of(AttentionKind::Causal, queries_right, keys_right, scale),
            upto,
        ),
        forall|i: int|
            0 <= i < upto ==> (#[trigger] weights_of(
                AttentionKind::Causal,
                queries_left,
                keys_left,
                scale,
            )[i]).len() == i + 1,
{
    let left = weights_of(AttentionKind::Causal, queries_left, keys_left, scale);
    let right = weights_of(AttentionKind::Causal, queries_right, keys_right, scale);
    assert forall|i: int| 0 <= i < upto implies left[i] == right[i] && (#[trigger] left[i]).len()
        == i + 1 by {
        let seen_left = visible_count(AttentionKind::Causal, i, queries_left.len() as int) as nat;
        let seen_right = visible_count(AttentionKind::Causal, i, queries_right.len() as int) as nat;
        assert(seen_left == i + 1 && seen_right == i + 1);
        assert(scores_of(queries_left[i], keys_left, seen_left, scale) =~= scores_of(
            queries_right[i],
            keys_right,
            seen_right,
            scale,
        ));
    }
}

/// The weighted sums of a position depend, under weights that reach no
/// further than the position, on the weights of the position and on the rows
/// up to it alone.
pub proof fn lemma_gathering_reads_the_past(
    table_left: Seq<Seq<Term>>,
    table_right: Seq<Seq<Term>>,
    rows_left: Seq<Seq<Term>>,
    rows_right: Seq<Seq<Term>>,
    width: nat,
    upto: nat,
)
    requires
        agree(table_left, table_right, upto),
        agree(rows_left, rows_right, upto),
        forall|i: int| 0 <= i < upto ==> (#[trigger] table_left[i]).len() == i + 1,
    ensures
        agree(
            gathered_of(table_left, rows_left, width),
            gathered_of(table_right, rows_right, width),
            upto,
        ),
{
    assert forall|i: int| 0 <= i < upto implies gathered_of(table_left, rows_left, width)[i]
        == gathered_of(table_right, rows_right, width)[i] by {
        lemma_weighted_sum_reads_first_rows(
            table_left[i],
            rows_left,
            rows_right,
            width,
            upto,
            table_left[i].len(),
        );
    }
}

/// Rows put side by side are the same where the rows are the same.
pub proof fn lemma_joining_is_row_by_row(
    left: Seq<Seq<Seq<Term>>>,
    right: Seq<Seq<Seq<Term>>>,
    row: int,
    upto: nat,
)
    requires
        left.len() >= upto,
        right.len() >= upto,
        forall|h: int| 0 <= h < upto ==> (#[trigger] left[h])[row] == right[h][row],
    ensures
        joined_upto(left, row, upto) == joined_upto(right, row, upto),
    decreases upto,
{
    if upto > 0 {
        lemma_joining_is_row_by_row(left, right, row, (upto - 1) as nat);
    }
}

/// Under causal attention the attended row of a position depends on the rows
/// of the input up to that position alone.
pub proof fn lemma_causal_attention_reads_the_past(
    heads: nat,
    each: nat,
    width: nat,
    left: Seq<Seq<Term>>,
    right: Seq<Seq<Term>>,
    query: Seq<Seq<Term>>,
    key: Seq<Seq<Term>>,
    value: Seq<Seq<Term>>,
    output: Seq<Seq<Term>>,
    upto: nat,
)
    requires
        agree(left, right, upto),
    ensures
        agree(
            attention_of(
                AttentionKind::Causal,
                heads,
                each,
                width,
                left,
                query,
                key,
                value,
                output,
            ).output,
            attention_of(
                AttentionKind::Causal,
                heads,
                each,
                width,
                right,
                query,
                key,
                value,
                output,
            ).output,
            upto,
        ),
{
    let kind = AttentionKind::Causal;
    let a = attention_of(kind, heads, each, width, left, query, key, value, output);
    let b = attention_of(kind, heads, each, width, right, query, key, value, output);
    lemma_product_is_row_by_row(left, right, query, width, upto);
    lemma_product_is_row_by_row(left, right, key, width, upto);
    lemma_product_is_row_by_row(left, right, value, width, upto);
    let gathered_left = Seq::new(heads, |h: int| gathered_of(a.weights[h], a.values[h], each));
    let gathered_right = Seq::new(heads, |h: int| gathered_of(b.weights[h], b.values[h], each));
    assert forall|h: int| 0 <= h < heads implies agree(
        #[trigger] gathered_left[h],
        gathered_right[h],
        upto,
    ) by {
        lemma_columns_are_row_by_row(
            matmul_of(left, query, width),
            matmul_of(right, query, width),
            h * each,
            each as int,
            upto,
        );
        lemma_columns_are_row_by_row(
            matmul_of(left, key, width),
            matmul_of(right, key, width),
            h * each,
            each as int,
            upto,
        );
        lemma_columns_are_row_by_row(
            matmul_of(left, value, width),
            matmul_of(right, value, width),
            h * each,
            each as int,
            upto,
        );
        lemma_causal_weights_read_the_past(
            a.queries[h],
            b.queries[h],
            a.keys[h],
            b.keys[h],
            scale_of(each),
            upto,
        );
        lemma_gathering_reads_the_past(
            a.weights[h],
            b.weights[h],
            a.values[h],
            b.values[h],
            each,
            upto,
        );
    }
    assert forall|i: int| 0 <= i < upto implies a.context[i] == b.context[i] by {
        lemma_joining_is_row_by_row(gathered_left, gathered_right, i, heads);
    }
    lemma_product_is_row_by_row(a.context, b.context, output, width, upto);
}

/// Whether what flows through a block is the same in its first `upto` rows.
pub open spec fn flows_agree(left: Flow, right: Flow, upto: nat) -> bool {
    agree(left.stream, right.stream, upto) && agree(left.current, right.current, upto)
}

/// Under causal attention, what an operation makes of a position depends on
/// what flows in up to that position alone.
pub proof fn lemma_causal_operation_reads_the_past(
    hp: Hyperparameters,
    parameters: Seq<Seq<Seq<Term>>>,
    block: int,
    step: SubLayer,
    left: Flow,
    right: Flow,
    upto: nat,
)
    requires
        hp.attention_kind == AttentionKind::Causal,
        flows_agree(left, right, upto),
    ensures
        flows_agree(
            applied(hp, parameters, block, step, left),
            applied(hp, parameters, block, step, right),
            upto,
        ),
{
    match step {
        SubLayer::Normalize { gain } => {},
        SubLayer::Attend => {
            lemma_causal_attention_reads_the_past(
                hp.heads as nat,
                each_of(hp),
                hp.dimension as nat,
                left.current,
                right.current,
                tensor_of(parameters, block, BlockTensor::Query),
                tensor_of(parameters, block, BlockTensor::Key),
                tensor_of(parameters, block, BlockTensor::Value),
                tensor_of(parameters, block, BlockTensor::Output),
                upto,
            );
        },
        SubLayer::FeedForward => {
            let expand = tensor_of(parameters, block, BlockTensor::Expand);
            let contract = tensor_of(parameters, block, BlockTensor::Contract);
            lemma_product_is_row_by_row(
                left.current,
                right.current,
                expand,
                hidden_of(hp),
                upto,
            );
            lemma_rectifier_is_row_by_row(
                matmul_of(left.current, expand, hidden_of(hp)),
                matmul_of(right.current, expand, hidden_of(hp)),
                upto,
            );
            lemma_product_is_row_by_row(
                hidden_layer_of(hp, parameters, block, left.current),
                hidden_layer_of(hp, parameters, block, right.current),
                contract,
                hp.dimension as nat,
                upto,
            );
        },
        SubLayer::AddResidual => {},
    }
}

/// Under causal attention, what the operations of a block make of a position
/// depends on what flows in up to that position alone.
pub proof fn lemma_causal_block_reads_the_past(
    hp: Hyperparameters,
    parameters: Seq<Seq<Seq<Term>>>,
    block: int,
    left: Flow,
    right: Flow,
    upto: nat,
    steps: nat,
)
    requires
        hp.attention_kind == AttentionKind::Causal,
        flows_agree(left, right, upto),
        steps <= canonical_order().len(),
    ensures
        flows_agree(
            flowed_upto(hp, parameters, block, left, steps),
            flowed_upto(hp, parameters, block, right, steps),
            upto,
        ),
    decreases steps,
{
    if steps > 0 {
        lemma_causal_block_reads_the_past(
            hp,
            parameters,
            block,
            left,
            right,
            upto,
            (steps - 1) as nat,
        );
        lemma_causal_operation_reads_the_past(
            hp,
            parameters,
            block,
            canonical_order()[steps - 1],
            flowed_upto(hp, parameters, block, left, (steps - 1) as nat),
            flowed_upto(hp, parameters, block, right, (steps - 1) as nat),
            upto,
        );
    }
}

/// Under causal attention, what the blocks of a model make of a position
/// depends on what enters them up to that position alone.
pub proof fn lemma_causal_blocks_read_the_past(
    hp: Hyperparameters,
    parameters: Seq<Seq<Seq<Term>>>,
    left: Seq<Seq<Term>>,
    right: Seq<Seq<Term>>,
    upto: nat,
    blocks: nat,
)
    requires
        hp.attention_kind == AttentionKind::Causal,
        agree(left, right, upto),
    ensures
        agree(
            blocks_upto(hp, parameters, left, blocks),
            blocks_upto(hp, parameters, right, blocks),
            upto,
        ),
    decreases blocks,
{
    if blocks > 0 {
        lemma_causal_blocks_read_the_past(hp, parameters, left, right, upto, (blocks - 1) as nat);
        lemma_causal_block_reads_the_past(
            hp,
            parameters,
            blocks - 1,
            entering(blocks_upto(hp, parameters, left, (blocks - 1) as nat)),
            entering(blocks_upto(hp, parameters, right, (blocks - 1) as nat)),
            upto,
            canonical_order().len(),
        );
    }
}

/// Under causal attention, the logits of a position do not depend on the
/// tokens that come after it: two sequences that are the same up to a
/// position give the same logits at that position, whatever follows in
/// either, and however long either is.
pub proof fn law_causal_logits_ignore_what_follows(
    hp: Hyperparameters,
    parameters: Seq<Seq<Seq<Term>>>,
    tokens: Seq<i64>,
    other: Seq<i64>,
    position: int,
)
    requires
        hp.attention_kind == AttentionKind::Causal,
        0 <= position < tokens.len(),
        position < other.len(),
        forall|p: int| 0 <= p <= position ==> tokens[p] == other[p],
    ensures
        passed_of(hp, parameters, tokens).logits[position] == passed_of(
            hp,
            parameters,
            other,
        ).logits[position],
{
    let upto = (position + 1) as nat;
    let table = parameters[ModelTensor::Embedding.place(hp.depth)];
    let left = embedded_of(table, tokens, hp.dimension as nat);
    let right = embedded_of(table, other, hp.dimension as nat);
    assert(agree(left, right, upto));
    lemma_causal_blocks_read_the_past(hp, parameters, left, right, upto, hp.depth as nat);
    lemma_product_is_row_by_row(
        blocks_upto(hp, parameters, left, hp.depth as nat),
        blocks_upto(hp, parameters, right, hp.depth as nat),
        parameters[ModelTensor::Projection.place(hp.depth)],
        hp.output_vocabolary as nat,
        upto,
    );
}

} // verus!
