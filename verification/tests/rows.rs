use metaformer::number::{Number, Traced};
use metaformer::rows::{constant_row, divided, lowered, lowered_at, scaled, softmax, total};

#[derive(Clone, Copy, Debug, PartialEq)]
struct Plain(f64);

impl Number for Plain {
    fn from_bits(bits: u64) -> Self {
        Plain(f64::from_bits(bits))
    }
    fn to_bits(&self) -> u64 {
        self.0.to_bits()
    }
    fn from_count(count: u64) -> Self {
        Plain(count as f64)
    }
    fn plus(&self, other: &Self) -> Self {
        Plain(self.0 + other.0)
    }
    fn minus(&self, other: &Self) -> Self {
        Plain(self.0 - other.0)
    }
    fn times(&self, other: &Self) -> Self {
        Plain(self.0 * other.0)
    }
    fn over(&self, other: &Self) -> Self {
        Plain(self.0 / other.0)
    }
    fn root(&self) -> Self {
        Plain(self.0.sqrt())
    }
    fn exp(&self) -> Self {
        Plain(self.0.exp())
    }
    fn ln(&self) -> Self {
        Plain(self.0.ln())
    }
    fn sin(&self) -> Self {
        Plain(self.0.sin())
    }
    fn cos(&self) -> Self {
        Plain(self.0.cos())
    }
    fn exceeds(&self, other: &Self) -> bool {
        self.0 > other.0
    }
}

fn one(x: f64) -> Traced<Plain> {
    Traced::from_bits(x.to_bits())
}

fn row(xs: &[f64]) -> Vec<Traced<Plain>> {
    xs.iter().map(|x| one(*x)).collect()
}

fn plain(row: &[Traced<Plain>]) -> Vec<f64> {
    row.iter().map(|x| x.value().0).collect()
}

#[test]
fn a_traced_number_is_the_number_that_the_arithmetic_gives() {
    assert_eq!(one(1.5).value(), Plain(1.5));
    assert_eq!(one(1.5).to_bits(), 1.5f64.to_bits());
    assert_eq!(Traced::<Plain>::from_count(7).value(), Plain(7.0));
    assert_eq!(one(1.5).plus(&one(2.0)).value(), Plain(3.5));
    assert_eq!(one(1.5).minus(&one(2.0)).value(), Plain(-0.5));
    assert_eq!(one(1.5).times(&one(2.0)).value(), Plain(3.0));
    assert_eq!(one(1.5).over(&one(2.0)).value(), Plain(0.75));
    assert_eq!(one(9.0).root().value(), Plain(3.0));
    assert_eq!(one(0.0).exp().value(), Plain(1.0));
    assert_eq!(one(1.0).ln().value(), Plain(0.0));
    assert_eq!(one(0.0).sin().value(), Plain(0.0));
    assert_eq!(one(0.0).cos().value(), Plain(1.0));
}

#[test]
fn the_larger_of_two_numbers_is_the_first_only_where_it_exceeds_the_second() {
    assert_eq!(one(2.0).larger(&one(1.0)).value(), Plain(2.0));
    assert_eq!(one(1.0).larger(&one(2.0)).value(), Plain(2.0));
    assert_eq!(one(2.0).larger(&one(2.0)).value(), Plain(2.0));
    assert!(one(1.0).larger(&one(f64::NAN)).value().0.is_nan());
    assert_eq!(one(f64::NAN).larger(&one(1.0)).value(), Plain(1.0));
}

#[test]
fn a_gated_number_passes_only_where_the_gate_exceeds_zero() {
    assert_eq!(one(5.0).gated(&one(0.1)).value(), Plain(5.0));
    assert_eq!(one(5.0).gated(&one(0.0)).value(), Plain(0.0));
    assert_eq!(one(5.0).gated(&one(-3.0)).value(), Plain(0.0));
    assert_eq!(one(-5.0).gated(&one(2.0)).value(), Plain(-5.0));
    assert_eq!(one(5.0).gated(&one(f64::NAN)).value(), Plain(0.0));
}

#[test]
fn rows_are_scaled_and_shifted_entry_by_entry() {
    let a = row(&[1.0, 2.0, 3.0]);
    assert_eq!(plain(&scaled(&a, &one(2.0))), vec![2.0, 4.0, 6.0]);
    assert_eq!(plain(&lowered(&a, &one(1.0))), vec![0.0, 1.0, 2.0]);
    assert_eq!(plain(&divided(&a, &one(2.0))), vec![0.5, 1.0, 1.5]);
    assert_eq!(plain(&lowered_at(&a, 1, &one(1.0))), vec![1.0, 1.0, 3.0]);
    assert_eq!(plain(&lowered_at(&a, 7, &one(1.0))), vec![1.0, 2.0, 3.0]);
    assert_eq!(plain(&constant_row(3, one(7.0))), vec![7.0, 7.0, 7.0]);
    assert_eq!(plain(&constant_row(0, one(7.0))), Vec::<f64>::new());
    assert_eq!(plain(&scaled(&row(&[]), &one(2.0))), Vec::<f64>::new());
}

#[test]
fn a_sum_runs_from_the_first_entry_to_the_last() {
    assert_eq!(total(&row(&[1.0, 2.0, 3.0])).value(), Plain(6.0));
    assert_eq!(total(&row(&[])).value(), Plain(0.0));
    let uneven = row(&[1e16, 1.0, -1e16]);
    assert_eq!(total(&uneven).value(), Plain((0.0 + 1e16 + 1.0) - 1e16));
}

#[test]
fn the_softmax_of_a_row_sums_to_one_and_keeps_its_order() {
    let weights = plain(&softmax(&row(&[1.0, 2.0, 3.0])));
    let e1 = (-2.0f64).exp();
    let e2 = (-1.0f64).exp();
    let sum = (0.0 + e1 + e2) + 1.0;
    assert_eq!(weights, vec![e1 / sum, e2 / sum, 1.0 / sum]);
    assert!((weights.iter().sum::<f64>() - 1.0).abs() < 1e-12);
    assert_eq!(plain(&softmax(&row(&[5.0]))), vec![1.0]);
    assert_eq!(plain(&softmax(&row(&[]))), Vec::<f64>::new());
    assert_eq!(plain(&softmax(&row(&[0.0, 0.0, 0.0, 0.0]))), vec![0.25; 4]);
    let large = plain(&softmax(&row(&[1000.0, 1000.0])));
    assert_eq!(large, vec![0.5, 0.5]);
    let apart = plain(&softmax(&row(&[-1e308, 1e308])));
    assert_eq!(apart, vec![0.0, 1.0]);
}
