use metaformer::attention::AttentionModule;
use metaformer::config::AttentionKind;
use metaformer::error::Error;
use metaformer::shape::{ActivationShape, MatrixShape};

#[test]
fn causal_attention_sees_only_itself_and_the_past() {
    let kind = AttentionKind::Causal;
    for query in 0..8usize {
        for key in 0..8usize {
            assert_eq!(kind.visible(query, key), key <= query, "{query} {key}");
        }
    }
}

#[test]
fn causal_attention_never_sees_a_later_position() {
    let kind = AttentionKind::Causal;
    assert!(!kind.visible(0, 1));
    assert!(!kind.visible(3, 7));
    assert!(!kind.visible(0, usize::MAX));
    assert!(!kind.visible(usize::MAX - 1, usize::MAX));
}

#[test]
fn full_attention_sees_everything() {
    let kind = AttentionKind::Full;
    for query in 0..8usize {
        for key in 0..8usize {
            assert!(kind.visible(query, key));
        }
    }
    assert!(kind.visible(0, usize::MAX));
}

#[test]
fn every_position_sees_itself() {
    for kind in [AttentionKind::Full, AttentionKind::Causal] {
        for query in [0usize, 1, 7, usize::MAX] {
            assert!(kind.visible(query, query));
        }
    }
}

#[test]
fn the_causal_mask_is_lower_triangular() {
    let module = AttentionModule::new(AttentionKind::Causal, 4, 8);
    let mask = module.mask(4).unwrap();
    assert_eq!(
        mask,
        vec![
            vec![true, false, false, false],
            vec![true, true, false, false],
            vec![true, true, true, false],
            vec![true, true, true, true],
        ]
    );
}

#[test]
fn the_full_mask_is_all_true() {
    let module = AttentionModule::new(AttentionKind::Full, 4, 8);
    assert_eq!(module.mask(3).unwrap(), vec![vec![true; 3]; 3]);
}

#[test]
fn masks_exist_up_to_the_context_window_and_no_further() {
    for kind in [AttentionKind::Full, AttentionKind::Causal] {
        let module = AttentionModule::new(kind, 4, 8);
        assert_eq!(module.mask(0), Ok(vec![]));
        for length in 1..=8usize {
            let mask = module.mask(length).unwrap();
            assert_eq!(mask.len(), length);
            for (query, row) in mask.iter().enumerate() {
                assert_eq!(row.len(), length);
                assert!(row[query]);
            }
        }
        assert_eq!(module.mask(9), Err(Error::ShapeError));
    }
}

#[test]
fn a_mask_row_is_a_row_of_the_mask() {
    let module = AttentionModule::new(AttentionKind::Causal, 1, 8);
    assert_eq!(module.mask_row(2, 5), vec![true, true, true, false, false]);
    assert_eq!(module.mask_row(0, 3), vec![true, false, false]);
    assert_eq!(module.mask_row(9, 3), vec![true, true, true]);
    assert_eq!(module.mask_row(1, 0), Vec::<bool>::new());
    let full = AttentionModule::new(AttentionKind::Full, 1, 8);
    assert_eq!(full.mask_row(0, 3), vec![true, true, true]);
}

#[test]
fn the_width_is_shared_out_evenly_among_the_heads() {
    let module = AttentionModule::new(AttentionKind::Full, 4, 8);
    assert_eq!(module.head_width(16), Ok(4));
    assert_eq!(module.head_width(4), Ok(1));
    assert_eq!(module.head_width(0), Ok(0));
    assert_eq!(module.head_width(18), Err(Error::ConfigError));
    assert_eq!(module.head_width(3), Err(Error::ConfigError));
    let none = AttentionModule::new(AttentionKind::Full, 0, 8);
    assert_eq!(none.head_width(16), Err(Error::ConfigError));
    let one = AttentionModule::new(AttentionKind::Full, 1, 8);
    assert_eq!(one.head_width(u64::MAX), Ok(u64::MAX));
}

#[test]
fn attention_weights_are_square() {
    let module = AttentionModule::new(AttentionKind::Full, 4, 8);
    assert_eq!(module.weight_shape(16), MatrixShape { rows: 16, cols: 16 });
}

#[test]
fn attention_keeps_the_shape_for_every_length_up_to_the_context_window() {
    for kind in [AttentionKind::Full, AttentionKind::Causal] {
        let module = AttentionModule::new(kind, 4, 8);
        for sequence in 1..=8u64 {
            let input = ActivationShape { batch: 2, sequence, width: 16 };
            assert_eq!(module.output_shape(&input), Ok(input));
        }
    }
}

#[test]
fn attention_refuses_a_sequence_longer_than_the_context_window() {
    for kind in [AttentionKind::Full, AttentionKind::Causal] {
        let module = AttentionModule::new(kind, 4, 8);
        let input = ActivationShape { batch: 2, sequence: 9, width: 16 };
        assert_eq!(module.output_shape(&input), Err(Error::ShapeError));
    }
}

#[test]
fn attention_refuses_a_width_that_the_heads_do_not_divide() {
    let module = AttentionModule::new(AttentionKind::Causal, 5, 8);
    let input = ActivationShape { batch: 2, sequence: 3, width: 16 };
    assert_eq!(module.output_shape(&input), Err(Error::ConfigError));
    let too_long_as_well = ActivationShape { batch: 2, sequence: 30, width: 16 };
    assert_eq!(module.output_shape(&too_long_as_well), Err(Error::ConfigError));
    let none = AttentionModule::new(AttentionKind::Causal, 0, 8);
    assert_eq!(none.output_shape(&input), Err(Error::ConfigError));
}

#[test]
fn the_positions_that_a_position_sees_are_counted() {
    let causal = AttentionKind::Causal;
    assert_eq!(causal.visible_keys(0, 5), 1);
    assert_eq!(causal.visible_keys(2, 5), 3);
    assert_eq!(causal.visible_keys(4, 5), 5);
    assert_eq!(causal.visible_keys(7, 5), 5);
    assert_eq!(causal.visible_keys(0, 0), 0);
    assert_eq!(causal.visible_keys(usize::MAX, usize::MAX), usize::MAX);
    let full = AttentionKind::Full;
    assert_eq!(full.visible_keys(0, 5), 5);
    assert_eq!(full.visible_keys(4, 5), 5);
    assert_eq!(full.visible_keys(9, 0), 0);
    for kind in [causal, full] {
        for length in 0..6usize {
            for query in 0..length {
                let seen = (0..length).filter(|key| kind.visible(query, *key)).count();
                assert_eq!(kind.visible_keys(query, length), seen);
            }
        }
    }
}
