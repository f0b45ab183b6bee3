use metaformer::binary64::Binary64;
use metaformer::block::TransformerBlock;
use metaformer::config::{AttentionKind, Encoding, Hyperparameters};
use metaformer::error::Error;
use metaformer::model::MetaFormerModel;
use metaformer::shape::{ActivationShape, MatrixShape};
use metaformer::tokens::{check_group, check_sequence, tokens_in_vocabulary};

fn sample() -> Hyperparameters {
    Hyperparameters {
        encoding: Encoding::Sinusoidal,
        attention_kind: AttentionKind::Causal,
        dimension: 16,
        depth: 2,
        heads: 4,
        context_window: 8,
        input_vocabolary: 100,
        output_vocabolary: 100,
        batch_size: 2,
        learning_rate: Binary64::from_bits(0.01f64.to_bits()),
        use_gpu: false,
    }
}

fn model() -> MetaFormerModel {
    MetaFormerModel::build(&sample()).unwrap()
}

#[test]
fn the_example_model_is_built() {
    let model = MetaFormerModel::build(&sample()).unwrap();
    assert_eq!(model.hyperparameters(), sample());
    assert_eq!(model.embedding_shape(), MatrixShape { rows: 100, cols: 16 });
    assert_eq!(model.projection_shape(), MatrixShape { rows: 16, cols: 100 });
    assert_eq!(model.blocks().len(), 2);
}

#[test]
fn the_example_model_gives_logits_for_two_sequences_of_five() {
    let group = vec![vec![1, 2, 3, 4, 5], vec![99, 0, 50, 7, 7]];
    assert_eq!(
        model().forward_group_shape(&group),
        Ok(ActivationShape { batch: 2, sequence: 5, width: 100 })
    );
}

#[test]
fn the_blocks_are_as_many_as_the_depth_and_all_alike() {
    let mut hp = sample();
    hp.depth = 5;
    hp.attention_kind = AttentionKind::Full;
    let model = MetaFormerModel::build(&hp).unwrap();
    let expected = TransformerBlock::new(AttentionKind::Full, 16, 4, 8).unwrap();
    assert_eq!(model.blocks(), &vec![expected; 5]);
}

#[test]
fn no_model_is_built_where_the_heads_do_not_divide_the_dimension() {
    for (dimension, heads) in [(16, 5), (16, 3), (10, 4), (1, 2), (16, 0)] {
        let mut hp = sample();
        hp.dimension = dimension;
        hp.heads = heads;
        assert_eq!(MetaFormerModel::build(&hp).err(), Some(Error::ConfigError));
    }
}

#[test]
fn no_model_is_built_from_any_other_invalid_record() {
    let mut hp = sample();
    hp.depth = 0;
    assert_eq!(MetaFormerModel::build(&hp).err(), Some(Error::ConfigError));
    let mut hp = sample();
    hp.output_vocabolary = 0;
    assert_eq!(MetaFormerModel::build(&hp).err(), Some(Error::ConfigError));
    let mut hp = sample();
    hp.learning_rate = Binary64::from_bits(0.0f64.to_bits());
    assert_eq!(MetaFormerModel::build(&hp).err(), Some(Error::ConfigError));
}

#[test]
fn models_are_built_from_valid_records_of_many_sizes() {
    for (dimension, heads, depth) in [(1, 1, 1), (16, 4, 2), (64, 8, 12), (12, 3, 1), (7, 7, 3)] {
        let mut hp = sample();
        hp.dimension = dimension;
        hp.heads = heads;
        hp.depth = depth;
        hp.output_vocabolary = 37;
        let model = MetaFormerModel::build(&hp).unwrap();
        assert_eq!(model.blocks().len(), depth as usize);
        for length in 0..=8usize {
            let tokens = vec![3i64; length];
            assert_eq!(
                model.forward_shape(&tokens),
                Ok(MatrixShape { rows: length as u64, cols: 37 })
            );
        }
    }
}

#[test]
fn a_forward_pass_gives_one_row_for_each_position() {
    assert_eq!(model().forward_shape(&vec![5, 6, 7]), Ok(MatrixShape { rows: 3, cols: 100 }));
    assert_eq!(model().forward_shape(&vec![0; 8]), Ok(MatrixShape { rows: 8, cols: 100 }));
    assert_eq!(model().forward_shape(&vec![]), Ok(MatrixShape { rows: 0, cols: 100 }));
}

#[test]
fn a_forward_pass_refuses_a_sequence_longer_than_the_context_window() {
    assert_eq!(model().forward_shape(&vec![0; 9]), Err(Error::ShapeError));
    assert_eq!(model().logits_shape(1, 9), Err(Error::ShapeError));
    assert_eq!(model().logits_shape(4, 8), Ok(ActivationShape { batch: 4, sequence: 8, width: 100 }));
}

#[test]
fn a_forward_pass_refuses_a_token_outside_the_vocabulary() {
    assert_eq!(model().forward_shape(&vec![1, 100, 2]), Err(Error::RangeError));
    assert_eq!(model().forward_shape(&vec![-1]), Err(Error::RangeError));
    assert_eq!(model().forward_shape(&vec![1, 2, i64::MAX]), Err(Error::RangeError));
    assert_eq!(model().forward_shape(&vec![i64::MIN, 2]), Err(Error::RangeError));
    assert_eq!(model().forward_shape(&vec![99, 0]), Ok(MatrixShape { rows: 2, cols: 100 }));
}

#[test]
fn a_sequence_that_is_too_long_is_a_shape_error_whatever_it_holds() {
    assert_eq!(model().forward_shape(&vec![-5; 9]), Err(Error::ShapeError));
}

#[test]
fn a_group_must_be_rectangular() {
    let ragged = vec![vec![1, 2, 3], vec![1, 2]];
    assert_eq!(model().forward_group_shape(&ragged), Err(Error::ShapeError));
    let ragged_and_out_of_range = vec![vec![1, 2, 3], vec![1, 200]];
    assert_eq!(model().forward_group_shape(&ragged_and_out_of_range), Err(Error::ShapeError));
    let long = vec![vec![0; 9], vec![0; 9]];
    assert_eq!(model().forward_group_shape(&long), Err(Error::ShapeError));
    let out_of_range = vec![vec![1, 2, 3], vec![1, 2, 100]];
    assert_eq!(model().forward_group_shape(&out_of_range), Err(Error::RangeError));
}

#[test]
fn an_empty_group_gives_empty_logits() {
    assert_eq!(
        model().forward_group_shape(&vec![]),
        Ok(ActivationShape { batch: 0, sequence: 0, width: 100 })
    );
    assert_eq!(
        model().forward_group_shape(&vec![vec![], vec![], vec![]]),
        Ok(ActivationShape { batch: 3, sequence: 0, width: 100 })
    );
}

#[test]
fn the_parameters_are_counted() {
    assert_eq!(model().parameter_count(), 9408);
    let mut hp = sample();
    hp.input_vocabolary = 7;
    hp.output_vocabolary = 11;
    hp.dimension = 3;
    hp.heads = 3;
    hp.depth = 5;
    let small = MetaFormerModel::build(&hp).unwrap();
    assert_eq!(small.parameter_count(), 7 * 3 + 5 * (12 * 9 + 6) + 3 * 11);
}

#[test]
fn the_largest_model_is_still_counted() {
    let mut hp = sample();
    hp.dimension = u32::MAX;
    hp.heads = 1;
    hp.depth = 1;
    hp.input_vocabolary = u32::MAX;
    hp.output_vocabolary = u32::MAX;
    let model = MetaFormerModel::build(&hp).unwrap();
    let d = u32::MAX as u128;
    assert_eq!(model.parameter_count(), d * d + (12 * d * d + 2 * d) + d * d);
}

#[test]
fn sequences_are_checked_for_length_first_and_range_second() {
    assert_eq!(check_sequence(&vec![0, 1, 2], 3, 3), Ok(()));
    assert_eq!(check_sequence(&vec![0, 1, 2, 0], 3, 3), Err(Error::ShapeError));
    assert_eq!(check_sequence(&vec![0, 1, 3], 3, 3), Err(Error::RangeError));
    assert_eq!(check_sequence(&vec![9, 9, 9, 9], 3, 3), Err(Error::ShapeError));
    assert_eq!(check_sequence(&vec![], 0, 1), Ok(()));
    assert_eq!(check_sequence(&vec![0], 0, 1), Err(Error::ShapeError));
}

#[test]
fn tokens_lie_in_a_vocabulary_from_zero_up_to_its_size() {
    assert!(tokens_in_vocabulary(&vec![], 0));
    assert!(tokens_in_vocabulary(&vec![0, 1, 2], 3));
    assert!(!tokens_in_vocabulary(&vec![0, 1, 3], 3));
    assert!(!tokens_in_vocabulary(&vec![-1], 3));
    assert!(!tokens_in_vocabulary(&vec![0], 0));
    assert!(tokens_in_vocabulary(&vec![4_294_967_294], u32::MAX));
    assert!(!tokens_in_vocabulary(&vec![4_294_967_295], u32::MAX));
}

#[test]
fn groups_are_checked_for_shape_first_and_range_second() {
    assert_eq!(check_group(&vec![vec![0, 1], vec![2, 0]], 2, 3), Ok(()));
    assert_eq!(check_group(&vec![vec![0, 1], vec![2]], 2, 3), Err(Error::ShapeError));
    assert_eq!(check_group(&vec![vec![0], vec![2, 1]], 2, 3), Err(Error::ShapeError));
    assert_eq!(check_group(&vec![vec![0, 1, 1], vec![2, 0, 0]], 2, 3), Err(Error::ShapeError));
    assert_eq!(check_group(&vec![vec![0, 1], vec![3, 0]], 2, 3), Err(Error::RangeError));
    assert_eq!(check_group(&vec![], 0, 0), Ok(()));
}
