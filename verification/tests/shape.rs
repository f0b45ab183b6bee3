use metaformer::error::Error;
use metaformer::shape::{ActivationShape, MatrixShape};

#[test]
fn a_matrix_has_rows_times_columns_entries() {
    assert_eq!(MatrixShape { rows: 100, cols: 16 }.element_count(), 1600);
    assert_eq!(MatrixShape { rows: 0, cols: 16 }.element_count(), 0);
    assert_eq!(MatrixShape { rows: 1, cols: 1 }.element_count(), 1);
    assert_eq!(
        MatrixShape { rows: u64::MAX, cols: u64::MAX }.element_count(),
        (u64::MAX as u128) * (u64::MAX as u128)
    );
}

#[test]
fn a_projection_changes_the_width_only() {
    let input = ActivationShape { batch: 2, sequence: 5, width: 16 };
    assert_eq!(
        input.project(&MatrixShape { rows: 16, cols: 100 }),
        Ok(ActivationShape { batch: 2, sequence: 5, width: 100 })
    );
    assert_eq!(input.project(&MatrixShape { rows: 16, cols: 16 }), Ok(input));
}

#[test]
fn a_projection_needs_as_many_rows_as_the_vectors_are_wide() {
    let input = ActivationShape { batch: 2, sequence: 5, width: 16 };
    assert_eq!(input.project(&MatrixShape { rows: 100, cols: 16 }), Err(Error::ShapeError));
    assert_eq!(input.project(&MatrixShape { rows: 15, cols: 16 }), Err(Error::ShapeError));
}
