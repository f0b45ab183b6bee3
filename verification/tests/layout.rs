use metaformer::binary64::Binary64;
use metaformer::block::BlockTensor;
use metaformer::config::{AttentionKind, Encoding, Hyperparameters};
use metaformer::layout::{lay_out, Slot};
use metaformer::model::{MetaFormerModel, ModelTensor};
use metaformer::shape::MatrixShape;

fn sample() -> Hyperparameters {
    Hyperparameters {
        encoding: Encoding::Sinusoidal,
        attention_kind: AttentionKind::Causal,
        dimension: 16,
        depth: 2,
        heads: 4,
        context_window: 8,
        input_vocabolary: 100,
        output_vocabolary: 100,
        batch_size: 2,
        learning_rate: Binary64::from_bits(0.01f64.to_bits()),
        use_gpu: false,
    }
}

#[test]
fn tensors_lie_one_after_another() {
    let shapes = vec![
        MatrixShape { rows: 2, cols: 3 },
        MatrixShape { rows: 1, cols: 4 },
        MatrixShape { rows: 5, cols: 5 },
    ];
    assert_eq!(
        lay_out(&shapes),
        Some(vec![
            Slot { offset: 0, shape: shapes[0] },
            Slot { offset: 6, shape: shapes[1] },
            Slot { offset: 10, shape: shapes[2] },
        ])
    );
}

#[test]
fn nothing_is_laid_out_as_nothing() {
    assert_eq!(lay_out(&vec![]), Some(vec![]));
}

#[test]
fn an_empty_tensor_takes_no_room() {
    let shapes = vec![
        MatrixShape { rows: 0, cols: 3 },
        MatrixShape { rows: 2, cols: 2 },
        MatrixShape { rows: 7, cols: 0 },
        MatrixShape { rows: 1, cols: 1 },
    ];
    let offsets: Vec<usize> = lay_out(&shapes).unwrap().iter().map(|slot| slot.offset).collect();
    assert_eq!(offsets, vec![0, 0, 4, 4]);
}

#[test]
fn a_buffer_that_the_machine_cannot_index_is_not_laid_out() {
    let huge = MatrixShape { rows: u64::MAX, cols: u64::MAX };
    assert_eq!(lay_out(&vec![huge]), None);
    let small = MatrixShape { rows: 1, cols: 1 };
    assert_eq!(lay_out(&vec![small, huge]), None);
    let all = MatrixShape { rows: 1, cols: usize::MAX as u64 };
    assert_eq!(lay_out(&vec![all]), Some(vec![Slot { offset: 0, shape: all }]));
    assert_eq!(lay_out(&vec![all, small]), None);
    assert_eq!(lay_out(&vec![small, all]), None);
    let none = MatrixShape { rows: 0, cols: 9 };
    assert_eq!(
        lay_out(&vec![all, none]),
        Some(vec![Slot { offset: 0, shape: all }, Slot { offset: usize::MAX, shape: none }])
    );
}

#[test]
fn the_parameters_of_the_example_model_are_listed_in_order() {
    let model = MetaFormerModel::build(&sample()).unwrap();
    let gain = MatrixShape { rows: 1, cols: 16 };
    let square = MatrixShape { rows: 16, cols: 16 };
    let expand = MatrixShape { rows: 16, cols: 64 };
    let contract = MatrixShape { rows: 64, cols: 16 };
    let block = vec![gain, square, square, square, square, gain, expand, contract];
    let mut expected = vec![MatrixShape { rows: 100, cols: 16 }];
    expected.extend(block.clone());
    expected.extend(block);
    expected.push(MatrixShape { rows: 16, cols: 100 });
    assert_eq!(model.parameter_shapes(), expected);
}

#[test]
fn the_layout_of_the_example_model_fills_the_buffer() {
    let model = MetaFormerModel::build(&sample()).unwrap();
    let slots = model.layout().unwrap();
    assert_eq!(slots.len(), 18);
    assert_eq!(slots[0], Slot { offset: 0, shape: MatrixShape { rows: 100, cols: 16 } });
    assert_eq!(slots[1], Slot { offset: 1600, shape: MatrixShape { rows: 1, cols: 16 } });
    assert_eq!(slots[2], Slot { offset: 1616, shape: MatrixShape { rows: 16, cols: 16 } });
    assert_eq!(slots[9].offset, 1600 + 3104);
    assert_eq!(slots[17], Slot { offset: 7808, shape: MatrixShape { rows: 16, cols: 100 } });
    let mut next = 0usize;
    for slot in &slots {
        assert_eq!(slot.offset, next);
        next += slot.shape.element_count() as usize;
    }
    assert_eq!(next as u128, model.parameter_count());
    assert_eq!(next, 9408);
}

#[test]
fn the_layout_follows_the_list_of_shapes() {
    let mut hp = sample();
    hp.depth = 3;
    hp.dimension = 6;
    hp.heads = 2;
    hp.input_vocabolary = 11;
    hp.output_vocabolary = 5;
    let model = MetaFormerModel::build(&hp).unwrap();
    let shapes = model.parameter_shapes();
    assert_eq!(shapes.len(), 2 + 8 * 3);
    assert_eq!(model.layout(), lay_out(&shapes));
    let total: u128 = shapes.iter().map(|shape| shape.element_count()).sum();
    assert_eq!(total, model.parameter_count());
    assert_eq!(total, 11 * 6 + 3 * (12 * 36 + 12) + 6 * 5);
}

#[test]
fn a_model_too_large_for_the_machine_has_no_layout() {
    let mut hp = sample();
    hp.dimension = u32::MAX;
    hp.heads = 1;
    hp.depth = 1;
    let model = MetaFormerModel::build(&hp).unwrap();
    assert_eq!(model.layout(), None);
}

#[test]
fn every_tensor_of_a_model_is_found_by_its_index() {
    let mut hp = sample();
    hp.depth = 3;
    let model = MetaFormerModel::build(&hp).unwrap();
    let shapes = model.parameter_shapes();
    assert_eq!(model.embedding_index(), 0);
    assert_eq!(model.projection_index(), 25);
    assert_eq!(shapes[0], model.embedding_shape());
    assert_eq!(shapes[25], model.projection_shape());
    assert_eq!(model.tensor_index(0, BlockTensor::AttentionGain), Some(1));
    assert_eq!(model.tensor_index(0, BlockTensor::Contract), Some(8));
    assert_eq!(model.tensor_index(1, BlockTensor::Query), Some(10));
    assert_eq!(model.tensor_index(2, BlockTensor::Expand), Some(23));
    assert_eq!(model.tensor_index(2, BlockTensor::Contract), Some(24));
    assert_eq!(model.tensor_index(3, BlockTensor::AttentionGain), None);
    assert_eq!(model.tensor_index(u32::MAX, BlockTensor::Contract), None);
    for block in 0..3u32 {
        for tensor in [BlockTensor::Query, BlockTensor::Expand, BlockTensor::FeedForwardGain] {
            let index = model.tensor_index(block, tensor).unwrap() as usize;
            assert_eq!(shapes[index], model.blocks()[block as usize].tensor_shape(tensor));
        }
    }
}

#[test]
fn every_index_names_one_tensor_and_every_tensor_has_its_index() {
    let mut hp = sample();
    hp.depth = 3;
    let model = MetaFormerModel::build(&hp).unwrap();
    assert_eq!(model.tensor_at(0), Some(ModelTensor::Embedding));
    assert_eq!(
        model.tensor_at(1),
        Some(ModelTensor::Block { block: 0, tensor: BlockTensor::AttentionGain })
    );
    assert_eq!(model.tensor_at(8), Some(ModelTensor::Block { block: 0, tensor: BlockTensor::Contract }));
    assert_eq!(model.tensor_at(9), Some(ModelTensor::Block { block: 1, tensor: BlockTensor::AttentionGain }));
    assert_eq!(model.tensor_at(22), Some(ModelTensor::Block { block: 2, tensor: BlockTensor::FeedForwardGain }));
    assert_eq!(model.tensor_at(24), Some(ModelTensor::Block { block: 2, tensor: BlockTensor::Contract }));
    assert_eq!(model.tensor_at(25), Some(ModelTensor::Projection));
    assert_eq!(model.tensor_at(26), None);
    assert_eq!(model.tensor_at(u64::MAX), None);
    for index in 1..25u64 {
        match model.tensor_at(index) {
            Some(ModelTensor::Block { block, tensor }) => {
                assert_eq!(model.tensor_index(block, tensor), Some(index));
            }
            other => panic!("{index}: {other:?}"),
        }
    }
}

#[test]
fn a_slot_spans_from_its_offset_to_its_end() {
    let slot = Slot { offset: 10, shape: MatrixShape { rows: 3, cols: 4 } };
    assert_eq!(slot.span(), Some((10, 22)));
    let empty = Slot { offset: 7, shape: MatrixShape { rows: 0, cols: 4 } };
    assert_eq!(empty.span(), Some((7, 7)));
    let last = Slot { offset: usize::MAX - 4, shape: MatrixShape { rows: 2, cols: 2 } };
    assert_eq!(last.span(), Some((usize::MAX - 4, usize::MAX)));
    let beyond = Slot { offset: usize::MAX - 3, shape: MatrixShape { rows: 2, cols: 2 } };
    assert_eq!(beyond.span(), None);
    let huge = Slot { offset: 0, shape: MatrixShape { rows: u64::MAX, cols: u64::MAX } };
    assert_eq!(huge.span(), None);
}

#[test]
fn a_tensor_gives_its_index_in_a_model_of_a_given_depth() {
    assert_eq!(ModelTensor::Embedding.index(0), Some(0));
    assert_eq!(ModelTensor::Embedding.index(3), Some(0));
    assert_eq!(ModelTensor::Projection.index(0), Some(1));
    assert_eq!(ModelTensor::Projection.index(3), Some(25));
    assert_eq!(ModelTensor::Projection.index(u32::MAX), Some(34_359_738_361));
    let key = ModelTensor::Block { block: 2, tensor: BlockTensor::Key };
    assert_eq!(key.index(3), Some(19));
    assert_eq!(key.index(2), None);
    assert_eq!(key.index(0), None);
}
