use metaformer::attention::AttentionModule;
use metaformer::batch::Batch;
use metaformer::binary64::Binary64;
use metaformer::config::{AttentionKind, Encoding, Hyperparameters};
use metaformer::error::Error;
use metaformer::loss::cross_entropy;
use metaformer::model::{MetaFormerModel, ModelTensor};
use metaformer::normalization::{normalize, normalize_backward};
use metaformer::number::{Number, Traced};
use metaformer::parameters::Parameters;
use metaformer::tensor::Matrix;
use metaformer::trainer::Trainer;
use metaformer::training::{Action, Event, State};

#[derive(Clone, Copy, Debug, PartialEq)]
struct Real(f64);

impl Number for Real {
    fn from_bits(bits: u64) -> Self {
        Real(f64::from_bits(bits))
    }
    fn to_bits(&self) -> u64 {
        self.0.to_bits()
    }
    fn from_count(count: u64) -> Self {
        Real(count as f64)
    }
    fn plus(&self, other: &Self) -> Self {
        Real(self.0 + other.0)
    }
    fn minus(&self, other: &Self) -> Self {
        Real(self.0 - other.0)
    }
    fn times(&self, other: &Self) -> Self {
        Real(self.0 * other.0)
    }
    fn over(&self, other: &Self) -> Self {
        Real(self.0 / other.0)
    }
    fn root(&self) -> Self {
        Real(self.0.sqrt())
    }
    fn exp(&self) -> Self {
        Real(self.0.exp())
    }
    fn ln(&self) -> Self {
        Real(self.0.ln())
    }
    fn sin(&self) -> Self {
        Real(self.0.sin())
    }
    fn cos(&self) -> Self {
        Real(self.0.cos())
    }
    fn exceeds(&self, other: &Self) -> bool {
        self.0 > other.0
    }
}

fn bits(x: f64) -> Binary64 {
    Binary64::from_bits(x.to_bits())
}

fn traced(x: f64) -> Traced<Real> {
    Traced::from_bits(x.to_bits())
}

fn matrix(rows: &[&[f64]]) -> Matrix<Real> {
    let rows: Vec<Vec<Binary64>> =
        rows.iter().map(|row| row.iter().map(|x| bits(*x)).collect()).collect();
    Matrix::from_rows(&rows).unwrap()
}

fn values(m: &Matrix<Real>) -> Vec<Vec<f64>> {
    (0..m.rows())
        .map(|r| (0..m.columns()).map(|c| m.get(r, c).unwrap().value().0).collect())
        .collect()
}

fn close(left: f64, right: f64, tolerance: f64) -> bool {
    (left - right).abs() <= tolerance * (1.0 + left.abs().max(right.abs()))
}

fn hyperparameters(kind: AttentionKind) -> Hyperparameters {
    Hyperparameters {
        encoding: Encoding::Sinusoidal,
        attention_kind: kind,
        dimension: 16,
        depth: 2,
        heads: 4,
        context_window: 8,
        input_vocabolary: 100,
        output_vocabolary: 100,
        batch_size: 2,
        learning_rate: Binary64::from_bits(0.01f64.to_bits()),
        use_gpu: false,
    }
}

fn tiny(kind: AttentionKind) -> Hyperparameters {
    Hyperparameters {
        encoding: Encoding::Sinusoidal,
        attention_kind: kind,
        dimension: 4,
        depth: 2,
        heads: 2,
        context_window: 4,
        input_vocabolary: 5,
        output_vocabolary: 6,
        batch_size: 2,
        learning_rate: Binary64::from_bits(0.05f64.to_bits()),
        use_gpu: false,
    }
}

fn batch_of_two() -> Batch {
    Batch::new(
        vec![vec![1, 2, 3, 4, 5], vec![9, 8, 7, 6, 5]],
        vec![vec![2, 3, 4, 5, 6], vec![8, 7, 6, 5, 4]],
    )
}

fn identity(n: usize) -> Matrix<Real> {
    let rows: Vec<Vec<Binary64>> =
        (0..n).map(|r| (0..n).map(|c| bits(if r == c { 1.0 } else { 0.0 })).collect()).collect();
    Matrix::from_rows(&rows).unwrap()
}

fn ramp(rows: usize, cols: usize, scale: f64) -> Matrix<Real> {
    let entries: Vec<Vec<Binary64>> = (0..rows)
        .map(|r| (0..cols).map(|c| bits(scale * ((r * cols + c) as f64 * 0.37).sin())).collect())
        .collect();
    Matrix::from_rows(&entries).unwrap()
}

#[test]
fn a_matrix_is_made_of_equal_rows() {
    let m = matrix(&[&[1.0, 2.0, 3.0], &[4.0, 5.0, 6.0]]);
    assert_eq!(m.rows(), 2);
    assert_eq!(m.columns(), 3);
    assert_eq!(m.get(1, 2).map(|entry| entry.value()), Some(Real(6.0)));
    assert!(m.get(2, 0).is_none());
    assert!(m.get(0, 3).is_none());
    assert!(Matrix::<Real>::from_rows(&vec![vec![bits(1.0)], vec![bits(1.0), bits(2.0)]]).is_none());
    let empty = Matrix::<Real>::from_rows(&vec![]).unwrap();
    assert_eq!((empty.rows(), empty.columns()), (0, 0));
    let zeros = Matrix::<Real>::zeros(2, 3);
    assert_eq!(values(&zeros), vec![vec![0.0; 3]; 2]);
    let sevens = Matrix::<Real>::filled(1, 2, bits(7.0));
    assert_eq!(values(&sevens), vec![vec![7.0, 7.0]]);
    assert_eq!(values(&m.copy()), values(&m));
}

#[test]
fn matrices_are_multiplied_row_by_column() {
    let a = matrix(&[&[1.0, 2.0], &[3.0, 4.0]]);
    let b = matrix(&[&[5.0, 6.0], &[7.0, 8.0]]);
    assert_eq!(values(&a.matmul(&b).unwrap()), vec![vec![19.0, 22.0], vec![43.0, 50.0]]);
    assert_eq!(values(&a.times_transposed(&b).unwrap()), vec![vec![17.0, 23.0], vec![39.0, 53.0]]);
    assert_eq!(values(&a.transposed_times(&b).unwrap()), vec![vec![26.0, 30.0], vec![38.0, 44.0]]);
    let wide = matrix(&[&[1.0, 0.0, 2.0], &[0.0, 1.0, 3.0]]);
    assert_eq!(values(&a.matmul(&wide).unwrap()), vec![vec![1.0, 2.0, 8.0], vec![3.0, 4.0, 18.0]]);
    assert_eq!(values(&wide.transposed()), vec![vec![1.0, 0.0], vec![0.0, 1.0], vec![2.0, 3.0]]);
}

#[test]
fn operands_that_do_not_fit_are_refused() {
    let a = matrix(&[&[1.0, 2.0], &[3.0, 4.0]]);
    let wide = matrix(&[&[1.0, 0.0, 2.0], &[0.0, 1.0, 3.0]]);
    assert_eq!(wide.matmul(&a).err(), Some(Error::ShapeError));
    assert_eq!(a.times_transposed(&wide).err(), Some(Error::ShapeError));
    assert_eq!(a.transposed_times(&matrix(&[&[1.0, 2.0]])).err(), Some(Error::ShapeError));
    assert_eq!(a.sum(&wide).err(), Some(Error::ShapeError));
    assert_eq!(a.with_multiple(&traced(2.0), &wide).err(), Some(Error::ShapeError));
    assert_eq!(a.gated(&wide).err(), Some(Error::ShapeError));
}

#[test]
fn matrices_are_added_scaled_and_gated_entry_by_entry() {
    let a = matrix(&[&[1.0, -2.0], &[3.0, -4.0]]);
    let b = matrix(&[&[5.0, 6.0], &[-7.0, 0.0]]);
    assert_eq!(values(&a.sum(&b).unwrap()), vec![vec![6.0, 4.0], vec![-4.0, -4.0]]);
    assert_eq!(
        values(&a.with_multiple(&traced(-2.0), &b).unwrap()),
        vec![vec![-9.0, -14.0], vec![17.0, -4.0]]
    );
    assert_eq!(values(&a.rectified()), vec![vec![1.0, 0.0], vec![3.0, 0.0]]);
    assert_eq!(values(&a.gated(&b).unwrap()), vec![vec![1.0, -2.0], vec![0.0, 0.0]]);
    let flat = a.bits();
    assert_eq!(flat.len(), 4);
    assert_eq!(flat[1].to_bits(), (-2.0f64).to_bits());
}

#[test]
fn a_normalized_row_has_zero_mean_and_unit_variance() {
    let input = matrix(&[&[1.0, 2.0, 3.0, 4.0], &[10.0, -10.0, 10.0, -10.0]]);
    let gain = matrix(&[&[1.0, 1.0, 1.0, 1.0]]);
    let normalized = normalize(&input, &gain).unwrap();
    let out = values(normalized.output());
    assert!(close(out[0][0], -1.5 / 1.25f64.sqrt(), 1e-4));
    assert!(close(out[0][3], 1.5 / 1.25f64.sqrt(), 1e-4));
    for row in &out {
        let mean: f64 = row.iter().sum::<f64>() / 4.0;
        let variance: f64 = row.iter().map(|x| (x - mean) * (x - mean)).sum::<f64>() / 4.0;
        assert!(mean.abs() < 1e-12);
        assert!(close(variance, 1.0, 1e-4));
    }
    let doubled = normalize(&input, &matrix(&[&[2.0, 2.0, 2.0, 2.0]])).unwrap();
    assert!(close(values(doubled.output())[0][0], 2.0 * out[0][0], 1e-12));
}

#[test]
fn a_row_of_equal_entries_is_normalized_to_zeros() {
    let input = matrix(&[&[3.0, 3.0, 3.0]]);
    let normalized = normalize(&input, &matrix(&[&[1.0, 1.0, 1.0]])).unwrap();
    assert_eq!(values(normalized.output()), vec![vec![0.0, 0.0, 0.0]]);
}

#[test]
fn a_normalization_refuses_a_gain_of_another_shape() {
    let input = matrix(&[&[1.0, 2.0, 3.0]]);
    assert_eq!(normalize(&input, &matrix(&[&[1.0, 1.0]])).err(), Some(Error::ShapeError));
    assert_eq!(
        normalize(&input, &matrix(&[&[1.0, 1.0, 1.0], &[1.0, 1.0, 1.0]])).err(),
        Some(Error::ShapeError)
    );
    let gain = matrix(&[&[1.0, 1.0, 1.0]]);
    let kept = normalize(&input, &gain).unwrap();
    assert_eq!(
        normalize_backward(&kept, &gain, &matrix(&[&[1.0, 1.0]])).err(),
        Some(Error::ShapeError)
    );
    let back = normalize_backward(&kept, &gain, &matrix(&[&[1.0, 0.0, -1.0]])).unwrap();
    assert_eq!((back.input.rows(), back.input.columns()), (1, 3));
    assert_eq!((back.gain.rows(), back.gain.columns()), (1, 3));
}

#[test]
fn attention_gives_back_the_shape_that_it_was_given() {
    for kind in [AttentionKind::Full, AttentionKind::Causal] {
        let module = AttentionModule::new(kind, 4, 8);
        let weight = ramp(16, 16, 0.3);
        for length in 1..=8usize {
            let input = ramp(length, 16, 1.0);
            let before = values(&input);
            let attended = module.forward(&input, &weight, &weight, &weight, &weight).unwrap();
            assert_eq!(attended.output().rows(), length);
            assert_eq!(attended.output().columns(), 16);
            assert_eq!(values(&input), before);
        }
    }
}

#[test]
fn attention_refuses_what_does_not_fit() {
    let module = AttentionModule::new(AttentionKind::Causal, 4, 8);
    let weight = ramp(16, 16, 0.3);
    let long = ramp(9, 16, 1.0);
    assert_eq!(
        module.forward(&long, &weight, &weight, &weight, &weight).err(),
        Some(Error::ShapeError)
    );
    let five = AttentionModule::new(AttentionKind::Causal, 5, 8);
    let input = ramp(3, 16, 1.0);
    assert_eq!(
        five.forward(&input, &weight, &weight, &weight, &weight).err(),
        Some(Error::ConfigError)
    );
    assert_eq!(
        five.forward(&long, &weight, &weight, &weight, &weight).err(),
        Some(Error::ConfigError)
    );
    let small = ramp(16, 8, 0.3);
    assert_eq!(
        module.forward(&input, &weight, &small, &weight, &weight).err(),
        Some(Error::ShapeError)
    );
}

#[test]
fn under_causal_attention_no_position_has_a_weight_for_a_later_one() {
    let module = AttentionModule::new(AttentionKind::Causal, 4, 8);
    let weight = ramp(16, 16, 0.3);
    let input = ramp(6, 16, 1.0);
    let attended = module.forward(&input, &weight, &weight, &weight, &weight).unwrap();
    let weights = attended.weights();
    assert_eq!(weights.len(), 4);
    for head in weights {
        assert_eq!(head.len(), 6);
        for (query, row) in head.iter().enumerate() {
            assert_eq!(row.len(), query + 1);
        }
    }
}

#[test]
fn under_full_attention_every_position_has_a_weight_for_every_position() {
    let module = AttentionModule::new(AttentionKind::Full, 2, 8);
    let weight = ramp(16, 16, 0.3);
    let input = ramp(5, 16, 1.0);
    let attended = module.forward(&input, &weight, &weight, &weight, &weight).unwrap();
    assert_eq!(attended.weights().len(), 2);
    for head in attended.weights() {
        for row in head {
            assert_eq!(row.len(), 5);
        }
    }
}

#[test]
fn the_weights_of_every_position_sum_to_one() {
    for kind in [AttentionKind::Full, AttentionKind::Causal] {
        for scale in [1.0, 50.0, 1e4] {
            let module = AttentionModule::new(kind, 4, 8);
            let weight = ramp(16, 16, 0.3);
            let input = ramp(8, 16, scale);
            let attended = module.forward(&input, &weight, &weight, &weight, &weight).unwrap();
            for head in attended.weights() {
                for row in head {
                    let sum: f64 = row.iter().map(|w| w.value().0).sum();
                    assert!((sum - 1.0).abs() < 1e-6, "{kind:?} {scale}: {sum}");
                    assert!(row.iter().all(|w| w.value().0.is_finite() && w.value().0 >= 0.0));
                }
            }
            assert!(values(attended.output()).iter().flatten().all(|x| x.is_finite()));
        }
    }
}

#[test]
fn the_first_position_under_causal_attention_attends_to_itself_alone() {
    let module = AttentionModule::new(AttentionKind::Causal, 1, 8);
    let input = ramp(3, 4, 1.0);
    let id = identity(4);
    let attended = module.forward(&input, &id, &id, &id, &id).unwrap();
    assert_eq!(attended.weights()[0][0].len(), 1);
    assert_eq!(attended.weights()[0][0][0].value(), Real(1.0));
    let out = values(attended.output());
    let given = values(&input);
    for c in 0..4 {
        assert!(close(out[0][c], given[0][c], 1e-12));
    }
}

#[test]
fn the_cross_entropy_of_equal_logits_is_the_logarithm_of_their_number() {
    let logits = matrix(&[&[0.5, 0.5, 0.5, 0.5], &[2.0, 2.0, 2.0, 2.0]]);
    let loss = cross_entropy(&logits, &vec![0, 3], 2).unwrap();
    assert!(close(loss.value.value().0, 4f64.ln(), 1e-12));
    let gradient = values(&loss.gradient);
    assert!(close(gradient[0][0], (0.25 - 1.0) / 2.0, 1e-12));
    assert!(close(gradient[0][1], 0.25 / 2.0, 1e-12));
    assert!(close(gradient[1][3], (0.25 - 1.0) / 2.0, 1e-12));
    for row in &gradient {
        assert!(row.iter().sum::<f64>().abs() < 1e-12);
    }
}

#[test]
fn the_cross_entropy_is_small_where_the_target_stands_out() {
    let logits = matrix(&[&[30.0, 0.0, 0.0]]);
    let right = cross_entropy(&logits, &vec![0], 1).unwrap();
    assert!(right.value.value().0 >= 0.0 && right.value.value().0 < 1e-9);
    let wrong = cross_entropy(&logits, &vec![1], 1).unwrap();
    assert!(close(wrong.value.value().0, 30.0, 1e-9));
    let huge = matrix(&[&[1e300, -1e300, 0.0]]);
    assert!(cross_entropy(&huge, &vec![0], 1).unwrap().value.value().0.is_finite());
}

#[test]
fn the_cross_entropy_refuses_targets_that_do_not_fit() {
    let logits = matrix(&[&[0.0, 0.0, 0.0], &[0.0, 0.0, 0.0]]);
    assert_eq!(cross_entropy(&logits, &vec![0], 2).err(), Some(Error::ShapeError));
    assert_eq!(cross_entropy(&logits, &vec![0, 1, 2], 2).err(), Some(Error::ShapeError));
    assert_eq!(cross_entropy(&logits, &vec![0, 3], 2).err(), Some(Error::RangeError));
    assert_eq!(cross_entropy(&logits, &vec![-1, 0], 2).err(), Some(Error::RangeError));
    assert_eq!(cross_entropy(&logits, &vec![5], 2).err(), Some(Error::ShapeError));
    assert!(cross_entropy(&logits, &vec![2, 0], 2).is_ok());
}

#[test]
fn parameters_from_one_seed_are_the_same_and_from_another_are_not() {
    let model = MetaFormerModel::build(&hyperparameters(AttentionKind::Causal)).unwrap();
    let first = Parameters::<Real>::initialise(&model, 7).unwrap();
    let second = Parameters::<Real>::initialise(&model, 7).unwrap();
    let other = Parameters::<Real>::initialise(&model, 8).unwrap();
    assert_eq!(first.bits(), second.bits());
    assert_ne!(first.bits(), other.bits());
    assert_eq!(first.bits().len(), 9408);
    assert_eq!(first.hyperparameters(), hyperparameters(AttentionKind::Causal));
}

#[test]
fn initial_gains_are_one_and_initial_weights_lie_within_their_bounds() {
    let model = MetaFormerModel::build(&hyperparameters(AttentionKind::Causal)).unwrap();
    let parameters = Parameters::<Real>::initialise(&model, 3).unwrap();
    let shapes = model.parameter_shapes();
    assert_eq!(parameters.tensors().len(), shapes.len());
    for (index, tensor) in parameters.tensors().iter().enumerate() {
        assert_eq!(tensor.rows() as u64, shapes[index].rows);
        assert_eq!(tensor.columns() as u64, shapes[index].cols);
        let is_gain = match model.tensor_at(index as u64).unwrap() {
            ModelTensor::Block { tensor, .. } => tensor.is_gain(),
            _ => false,
        };
        let bound = 1.0 / (shapes[index].rows as f64).sqrt();
        for x in values(tensor).iter().flatten() {
            if is_gain {
                assert_eq!(*x, 1.0);
            } else {
                assert!(x.abs() <= bound);
            }
        }
    }
    let table = parameters.tensor(ModelTensor::Embedding).unwrap();
    assert_eq!((table.rows(), table.columns()), (100, 16));
    assert!(parameters.tensor(ModelTensor::Block { block: 2, tensor: metaformer::block::BlockTensor::Query }).is_none());
}

#[test]
fn the_forward_pass_gives_a_row_of_logits_for_each_position() {
    for kind in [AttentionKind::Full, AttentionKind::Causal] {
        let model = MetaFormerModel::build(&hyperparameters(kind)).unwrap();
        let parameters = Parameters::<Real>::initialise(&model, 1).unwrap();
        for length in 0..=8usize {
            let tokens: Vec<i64> = (0..length as i64).collect();
            let pass = model.forward(&parameters, &tokens).unwrap();
            assert_eq!(pass.logits().rows(), length);
            assert_eq!(pass.logits().columns(), 100);
            assert!(values(pass.logits()).iter().flatten().all(|x| x.is_finite()));
        }
    }
}

#[test]
fn the_forward_pass_on_two_sequences_of_five_gives_two_by_five_by_a_hundred_logits() {
    let model = MetaFormerModel::build(&hyperparameters(AttentionKind::Causal)).unwrap();
    let parameters = Parameters::<Real>::initialise(&model, 1).unwrap();
    let batch = batch_of_two();
    let logits: Vec<Vec<Vec<f64>>> = batch
        .inputs
        .iter()
        .map(|tokens| values(model.forward(&parameters, tokens).unwrap().logits()))
        .collect();
    assert_eq!(logits.len(), 2);
    for of_sequence in &logits {
        assert_eq!(of_sequence.len(), 5);
        for row in of_sequence {
            assert_eq!(row.len(), 100);
        }
    }
}

#[test]
fn the_forward_pass_refuses_what_the_check_refuses() {
    let model = MetaFormerModel::build(&hyperparameters(AttentionKind::Causal)).unwrap();
    let parameters = Parameters::<Real>::initialise(&model, 1).unwrap();
    assert_eq!(model.forward(&parameters, &vec![0; 9]).err(), Some(Error::ShapeError));
    assert_eq!(model.forward(&parameters, &vec![1, 100]).err(), Some(Error::RangeError));
    assert_eq!(model.forward(&parameters, &vec![-1]).err(), Some(Error::RangeError));
    let other = MetaFormerModel::build(&tiny(AttentionKind::Causal)).unwrap();
    assert_eq!(other.forward(&parameters, &vec![1]).err(), Some(Error::ShapeError));
}

#[test]
fn the_forward_pass_is_the_same_every_time() {
    let model = MetaFormerModel::build(&hyperparameters(AttentionKind::Causal)).unwrap();
    let parameters = Parameters::<Real>::initialise(&model, 11).unwrap();
    let tokens = vec![4, 8, 15, 16, 23, 42];
    let first = model.forward(&parameters, &tokens).unwrap().logits().bits();
    let second = model.forward(&parameters, &tokens).unwrap().logits().bits();
    assert_eq!(first, second);
}

#[test]
fn under_causal_attention_a_later_token_does_not_change_an_earlier_row_of_logits() {
    let model = MetaFormerModel::build(&hyperparameters(AttentionKind::Causal)).unwrap();
    let parameters = Parameters::<Real>::initialise(&model, 5).unwrap();
    let one = values(model.forward(&parameters, &vec![3, 1, 4, 1]).unwrap().logits());
    let other = values(model.forward(&parameters, &vec![3, 1, 4, 59]).unwrap().logits());
    assert_eq!(one[..3], other[..3]);
    assert_ne!(one[3], other[3]);
    let full = MetaFormerModel::build(&hyperparameters(AttentionKind::Full)).unwrap();
    let one = values(full.forward(&parameters_for(&full, 5), &vec![3, 1, 4, 1]).unwrap().logits());
    let other = values(full.forward(&parameters_for(&full, 5), &vec![3, 1, 4, 59]).unwrap().logits());
    assert_ne!(one[0], other[0]);
}

fn parameters_for(model: &MetaFormerModel, seed: u64) -> Parameters<Real> {
    Parameters::initialise(model, seed).unwrap()
}

fn with_entry(parameters: &Parameters<Real>, model: &MetaFormerModel, tensor: usize, row: usize, col: usize, value: f64) -> Parameters<Real> {
    let tensors: Vec<Matrix<Real>> = parameters
        .tensors()
        .iter()
        .enumerate()
        .map(|(index, m)| {
            let mut rows: Vec<Vec<Binary64>> = (0..m.rows())
                .map(|r| (0..m.columns()).map(|c| bits(m.get(r, c).unwrap().value().0)).collect())
                .collect();
            if index == tensor {
                rows[row][col] = bits(value);
            }
            Matrix::from_rows(&rows).unwrap()
        })
        .collect();
    Parameters::from_tensors(model, tensors).unwrap()
}

#[test]
fn the_gradients_are_the_slopes_of_the_loss() {
    for kind in [AttentionKind::Full, AttentionKind::Causal] {
        let model = MetaFormerModel::build(&tiny(kind)).unwrap();
        let parameters = parameters_for(&model, 2);
        let batch = Batch::new(vec![vec![0, 1, 2, 3], vec![4, 3, 2, 1]], vec![vec![1, 2, 3, 4], vec![5, 0, 1, 2]]);
        let computed = model.compute(&parameters, &batch).unwrap();
        assert!(computed.loss.value().0.is_finite() && computed.loss.value().0 >= 0.0);
        let shapes = model.parameter_shapes();
        let mut checked = 0;
        for (tensor, shape) in shapes.iter().enumerate() {
            for (row, col) in [(0usize, 0usize), (shape.rows as usize - 1, shape.cols as usize - 1), (shape.rows as usize / 2, shape.cols as usize / 2)] {
                let here = parameters.tensors()[tensor].get(row, col).unwrap().value().0;
                let h = 1e-5;
                let up = model.compute(&with_entry(&parameters, &model, tensor, row, col, here + h), &batch).unwrap().loss.value().0;
                let down = model.compute(&with_entry(&parameters, &model, tensor, row, col, here - h), &batch).unwrap().loss.value().0;
                let slope = (up - down) / (2.0 * h);
                let gradient = computed.gradients.tensors()[tensor].get(row, col).unwrap().value().0;
                assert!(
                    (slope - gradient).abs() <= 1e-6 + 1e-4 * slope.abs().max(gradient.abs()),
                    "{kind:?} tensor {tensor} ({row}, {col}): slope {slope}, gradient {gradient}"
                );
                checked += 1;
            }
        }
        assert_eq!(checked, 3 * 18);
    }
}

#[test]
fn a_step_is_refused_where_batch_or_parameters_do_not_fit() {
    let model = MetaFormerModel::build(&hyperparameters(AttentionKind::Causal)).unwrap();
    let parameters = parameters_for(&model, 2);
    let undersized = Batch::new(vec![vec![1, 2]], vec![vec![2, 3]]);
    assert_eq!(model.compute(&parameters, &undersized).err(), Some(Error::ShapeError));
    let ragged = Batch::new(vec![vec![1, 2], vec![1]], vec![vec![2, 3], vec![2]]);
    assert_eq!(model.compute(&parameters, &ragged).err(), Some(Error::ShapeError));
    let out_of_range = Batch::new(vec![vec![1, 2], vec![1, 2]], vec![vec![2, 3], vec![2, 100]]);
    assert_eq!(model.compute(&parameters, &out_of_range).err(), Some(Error::RangeError));
    let other = MetaFormerModel::build(&tiny(AttentionKind::Causal)).unwrap();
    assert_eq!(other.compute(&parameters, &batch_of_two()).err(), Some(Error::ShapeError));
    let computed = model.compute(&parameters, &batch_of_two()).unwrap();
    assert_eq!(computed.gradients.hyperparameters(), hyperparameters(AttentionKind::Causal));
}

#[test]
fn a_step_on_a_fresh_model_costs_about_the_logarithm_of_the_vocabulary() {
    let model = MetaFormerModel::build(&hyperparameters(AttentionKind::Causal)).unwrap();
    let parameters = parameters_for(&model, 2);
    let loss = model.compute(&parameters, &batch_of_two()).unwrap().loss.value().0;
    assert!(loss.is_finite());
    assert!(loss >= 0.0);
    assert!((loss - 100f64.ln()).abs() < 1.0, "{loss}");
}

#[test]
fn descending_at_rate_zero_leaves_every_bit_as_it_is() {
    let model = MetaFormerModel::build(&hyperparameters(AttentionKind::Causal)).unwrap();
    let mut parameters = parameters_for(&model, 2);
    let before = parameters.bits();
    let gradients = model.compute(&parameters, &batch_of_two()).unwrap().gradients;
    for _ in 0..10 {
        assert_eq!(parameters.descend(&gradients, Binary64::from_bits(0.0f64.to_bits())), Ok(()));
        assert_eq!(parameters.descend(&gradients, Binary64::from_bits((-0.0f64).to_bits())), Ok(()));
    }
    assert_eq!(parameters.bits(), before);
    assert_eq!(parameters.descend(&gradients, Binary64::from_bits(0.5f64.to_bits())), Ok(()));
    assert_ne!(parameters.bits(), before);
}

#[test]
fn descending_moves_every_entry_against_its_gradient() {
    let model = MetaFormerModel::build(&tiny(AttentionKind::Full)).unwrap();
    let mut parameters = Parameters::<Real>::filled(&model, bits(1.0)).unwrap();
    let gradients = Parameters::<Real>::filled(&model, bits(0.5)).unwrap();
    assert_eq!(parameters.descend(&gradients, Binary64::from_bits(0.25f64.to_bits())), Ok(()));
    assert!(parameters.bits().iter().all(|b| b.to_bits() == 0.875f64.to_bits()));
    let total = parameters.plus(&gradients).unwrap();
    assert!(total.bits().iter().all(|b| b.to_bits() == 1.375f64.to_bits()));
    assert!(parameters.zeroed().bits().iter().all(|b| b.to_bits() == 0));
    assert!(Parameters::<Real>::zeros(&model).unwrap().bits().iter().all(|b| b.to_bits() == 0));
}

#[test]
fn numbers_of_another_model_are_refused() {
    let model = MetaFormerModel::build(&hyperparameters(AttentionKind::Causal)).unwrap();
    let other = MetaFormerModel::build(&tiny(AttentionKind::Causal)).unwrap();
    let mut parameters = parameters_for(&model, 2);
    let before = parameters.bits();
    let gradients = parameters_for(&other, 2);
    assert_eq!(
        parameters.descend(&gradients, Binary64::from_bits(0.5f64.to_bits())),
        Err(Error::ShapeError)
    );
    assert_eq!(parameters.bits(), before);
    assert_eq!(parameters.plus(&gradients).err(), Some(Error::ShapeError));
    let tensors = parameters_for(&other, 2).into_tensors();
    assert_eq!(Parameters::from_tensors(&model, tensors).err(), Some(Error::ShapeError));
    assert_eq!(Parameters::<Real>::from_tensors(&model, vec![]).err(), Some(Error::ShapeError));
    assert_eq!(Trainer::resume(other, parameters).err().map(|e| e), Some(Error::ShapeError));
}

#[test]
fn training_on_one_batch_again_and_again_brings_its_loss_down() {
    let model = MetaFormerModel::build(&hyperparameters(AttentionKind::Causal)).unwrap();
    let mut trainer = Trainer::<Real>::new(model, 0).unwrap();
    trainer = trainer.advance(Event::Start { gpu_available: false });
    assert_eq!(trainer.awaited(), Action::DrawBatch);
    let batch = batch_of_two();
    let mut losses = Vec::new();
    for step in 1..=25u64 {
        trainer = trainer.train(&batch);
        assert_eq!(trainer.awaited(), Action::DrawBatch);
        assert_eq!(trainer.run().steps(), step);
        let loss = f64::from_bits(trainer.run().last_loss().unwrap().to_bits());
        assert!(loss.is_finite());
        assert!(loss >= 0.0);
        losses.push(loss);
    }
    assert!(losses[1] < losses[0], "{losses:?}");
    assert!(losses[24] < losses[19], "{losses:?}");
    assert!(losses[24] < 0.9 * losses[0], "{losses:?}");
    trainer = trainer.advance(Event::SourceExhausted);
    assert_eq!(trainer.run().state(), State::Completed);
    assert_eq!(trainer.run().steps(), 25);
}

#[test]
fn a_step_changes_the_parameters_and_keeps_the_sum_of_the_gradients() {
    let model = MetaFormerModel::build(&tiny(AttentionKind::Causal)).unwrap();
    let mut trainer = Trainer::<Real>::new(model, 4).unwrap();
    let before = trainer.parameters().bits();
    assert!(trainer.accumulated().bits().iter().all(|b| b.to_bits() == 0));
    trainer = trainer.advance(Event::Start { gpu_available: false });
    let batch = Batch::new(vec![vec![0, 1, 2], vec![4, 3, 2]], vec![vec![1, 2, 3], vec![5, 0, 1]]);
    let gradients = trainer.run().model().compute(trainer.parameters(), &batch).unwrap().gradients.bits();
    trainer = trainer.train(&batch);
    assert_ne!(trainer.parameters().bits(), before);
    assert_eq!(trainer.accumulated().bits(), gradients);
    for ((now, then), gradient) in trainer.parameters().bits().iter().zip(&before).zip(&gradients) {
        let expected = f64::from_bits(then.to_bits()) + (0.0 - 0.05) * f64::from_bits(gradient.to_bits());
        assert_eq!(now.to_bits(), expected.to_bits());
    }
}

#[test]
fn a_parameter_that_is_not_a_number_fails_the_run_at_the_next_step() {
    let model = MetaFormerModel::build(&hyperparameters(AttentionKind::Causal)).unwrap();
    let sound = parameters_for(&model, 0);
    let spoiled = with_entry(&sound, &model, 3, 2, 2, f64::NAN);
    let before = spoiled.bits();
    let mut trainer = Trainer::resume(model, spoiled).unwrap();
    trainer = trainer.advance(Event::Start { gpu_available: false });
    trainer = trainer.train(&batch_of_two());
    assert_eq!(trainer.run().state(), State::Failed(Error::NumericalInstabilityError));
    assert_eq!(trainer.awaited(), Action::Halt);
    assert_eq!(trainer.run().steps(), 0);
    assert_eq!(trainer.run().last_loss(), None);
    assert_eq!(trainer.parameters().bits(), before);
    trainer = trainer.train(&batch_of_two());
    assert_eq!(trainer.run().state(), State::Failed(Error::NumericalInstabilityError));
}

#[test]
fn a_parameter_that_is_infinite_fails_the_run_at_the_next_step() {
    let model = MetaFormerModel::build(&hyperparameters(AttentionKind::Full)).unwrap();
    let spoiled = with_entry(&parameters_for(&model, 0), &model, 17, 0, 0, f64::INFINITY);
    let mut trainer = Trainer::resume(model, spoiled).unwrap();
    trainer = trainer.advance(Event::Start { gpu_available: false });
    trainer = trainer.train(&batch_of_two());
    assert_eq!(trainer.run().state(), State::Failed(Error::NumericalInstabilityError));
}

#[test]
fn a_trainer_takes_batches_as_the_loop_takes_them() {
    let model = MetaFormerModel::build(&hyperparameters(AttentionKind::Causal)).unwrap();
    let mut trainer = Trainer::<Real>::new(model, 0).unwrap();
    let before = trainer.parameters().bits();
    trainer = trainer.train(&batch_of_two());
    assert_eq!(trainer.run().state(), State::Idle);
    assert_eq!(trainer.awaited(), Action::CheckDevice);
    trainer = trainer.advance(Event::Start { gpu_available: false });
    let undersized = Batch::new(vec![vec![1, 2]], vec![vec![2, 3]]);
    trainer = trainer.train(&undersized);
    assert_eq!(trainer.run().state(), State::Running);
    assert_eq!(trainer.run().steps(), 0);
    assert_eq!(trainer.parameters().bits(), before);
    let ragged = Batch::new(vec![vec![1, 2], vec![1]], vec![vec![2, 3], vec![2]]);
    trainer = trainer.train(&ragged);
    assert_eq!(trainer.run().state(), State::Failed(Error::ShapeError));
    assert_eq!(trainer.parameters().bits(), before);
    trainer = trainer.train(&batch_of_two());
    assert_eq!(trainer.run().state(), State::Failed(Error::ShapeError));
    assert_eq!(trainer.parameters().bits(), before);
}

#[test]
fn a_trainer_on_a_missing_gpu_fails_at_the_start() {
    let mut hp = hyperparameters(AttentionKind::Causal);
    hp.use_gpu = true;
    let model = MetaFormerModel::build(&hp).unwrap();
    let mut trainer = Trainer::<Real>::new(model, 0).unwrap();
    trainer = trainer.advance(Event::Start { gpu_available: false });
    assert_eq!(trainer.run().state(), State::Failed(Error::DeviceError));
    trainer = trainer.train(&batch_of_two());
    assert_eq!(trainer.run().steps(), 0);
}

#[test]
fn parameters_go_to_a_flat_list_of_bits_and_back() {
    let model = MetaFormerModel::build(&hyperparameters(AttentionKind::Causal)).unwrap();
    let parameters = parameters_for(&model, 9);
    let flat = parameters.bits();
    assert_eq!(flat.len() as u128, model.parameter_count());
    let restored = Parameters::<Real>::from_bits(&model, &flat).unwrap();
    assert_eq!(restored.bits(), flat);
    assert_eq!(restored.hyperparameters(), parameters.hyperparameters());
    for (one, other) in restored.tensors().iter().zip(parameters.tensors()) {
        assert_eq!(values(one), values(other));
    }
}

#[test]
fn every_tensor_lies_in_the_flat_list_where_the_layout_says() {
    let model = MetaFormerModel::build(&tiny(AttentionKind::Full)).unwrap();
    let parameters = parameters_for(&model, 9);
    let flat = parameters.bits();
    let slots = model.layout().unwrap();
    assert_eq!(slots.len(), parameters.tensors().len());
    for (slot, tensor) in slots.iter().zip(parameters.tensors()) {
        let (start, end) = slot.span().unwrap();
        assert_eq!(flat[start..end], tensor.bits()[..]);
    }
    assert_eq!(slots.last().unwrap().span().unwrap().1, flat.len());
}

#[test]
fn a_flat_list_of_another_length_is_refused() {
    let model = MetaFormerModel::build(&tiny(AttentionKind::Full)).unwrap();
    let mut flat = parameters_for(&model, 9).bits();
    flat.pop();
    assert_eq!(Parameters::<Real>::from_bits(&model, &flat).err(), Some(Error::ShapeError));
    flat.push(Binary64::from_bits(0));
    flat.push(Binary64::from_bits(0));
    assert_eq!(Parameters::<Real>::from_bits(&model, &flat).err(), Some(Error::ShapeError));
    assert_eq!(Parameters::<Real>::from_bits(&model, &vec![]).err(), Some(Error::ShapeError));
}

#[test]
fn a_run_can_go_on_from_the_bits_of_another() {
    let hp = tiny(AttentionKind::Causal);
    let batch = Batch::new(vec![vec![0, 1, 2], vec![4, 3, 2]], vec![vec![1, 2, 3], vec![5, 0, 1]]);
    let mut whole = Trainer::<Real>::new(MetaFormerModel::build(&hp).unwrap(), 6).unwrap();
    whole = whole.advance(Event::Start { gpu_available: false });
    whole = whole.train(&batch).train(&batch);
    let mut first = Trainer::<Real>::new(MetaFormerModel::build(&hp).unwrap(), 6).unwrap();
    first = first.advance(Event::Start { gpu_available: false });
    first = first.train(&batch);
    let model = MetaFormerModel::build(&hp).unwrap();
    let saved = first.parameters().bits();
    let restored = Parameters::<Real>::from_bits(&model, &saved).unwrap();
    let mut second = Trainer::resume(model, restored).unwrap();
    second = second.advance(Event::Start { gpu_available: false });
    second = second.train(&batch);
    assert_eq!(second.parameters().bits(), whole.parameters().bits());
    assert_eq!(second.run().last_loss(), whole.run().last_loss());
}

#[test]
fn a_product_adds_its_terms_from_the_first_to_the_last() {
    let left = matrix(&[&[1e16, 1.0, -1e16]]);
    let right = matrix(&[&[1.0, 1.0, 1.0]]);
    assert_eq!(values(&left.times_transposed(&right).unwrap()), vec![vec![0.0]]);
    let turned = matrix(&[&[1.0], &[1.0], &[1.0]]);
    assert_eq!(values(&left.matmul(&turned).unwrap()), vec![vec![0.0]]);
    let reordered = matrix(&[&[1e16, -1e16, 1.0]]);
    assert_eq!(values(&reordered.times_transposed(&right).unwrap()), vec![vec![1.0]]);
}
