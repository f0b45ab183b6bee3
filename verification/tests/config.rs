use metaformer::binary64::Binary64;
use metaformer::config::{parse_size, AttentionKind, Cli, Encoding, Hyperparameters};
use metaformer::device::Device;
use metaformer::error::Error;

fn rate(x: f64) -> Binary64 {
    Binary64::from_bits(x.to_bits())
}

fn example() -> Hyperparameters {
    Hyperparameters {
        encoding: Encoding::Sinusoidal,
        attention_kind: AttentionKind::Causal,
        dimension: 16,
        depth: 2,
        heads: 4,
        context_window: 8,
        input_vocabolary: 100,
        output_vocabolary: 100,
        batch_size: 2,
        learning_rate: rate(0.01),
        use_gpu: false,
    }
}

fn example_cli() -> Cli {
    Cli {
        encoding: String::from("sinusoidal"),
        attention_kind: String::from("causal"),
        dimension: 16,
        depth: 2,
        heads: 4,
        context_window: 8,
        input_vocabolary: 100,
        output_vocabolary: 100,
        batch_size: 2,
        path_to_slice: String::from("data/slice.txt"),
        learning_rate: rate(0.01),
        use_gpu: false,
    }
}

#[test]
fn attention_kinds_are_read_from_their_tags() {
    assert_eq!(AttentionKind::parse("full"), Some(AttentionKind::Full));
    assert_eq!(AttentionKind::parse("causal"), Some(AttentionKind::Causal));
}

#[test]
fn other_tags_name_no_attention_kind() {
    for tag in ["", "Full", "CAUSAL", "causal ", " full", "ful", "fullx", "sinusoidal"] {
        assert_eq!(AttentionKind::parse(tag), None, "{tag:?}");
    }
}

#[test]
fn encodings_are_read_from_their_tags() {
    assert_eq!(Encoding::parse("sinusoidal"), Some(Encoding::Sinusoidal));
    for tag in ["", "Sinusoidal", "sinusoidal ", "learned", "full"] {
        assert_eq!(Encoding::parse(tag), None, "{tag:?}");
    }
}

#[test]
fn sizes_are_the_positive_numbers_of_thirty_two_bits() {
    assert_eq!(parse_size(1), Some(1));
    assert_eq!(parse_size(16), Some(16));
    assert_eq!(parse_size(4_294_967_295), Some(u32::MAX));
    assert_eq!(parse_size(0), None);
    assert_eq!(parse_size(-1), None);
    assert_eq!(parse_size(4_294_967_296), None);
    assert_eq!(parse_size(i64::MAX), None);
    assert_eq!(parse_size(i64::MIN), None);
}

#[test]
fn the_example_record_is_valid() {
    assert_eq!(example().validate(), Ok(()));
}

#[test]
fn a_record_with_any_size_zero_is_refused() {
    let mut h = example();
    h.dimension = 0;
    assert_eq!(h.validate(), Err(Error::ConfigError));
    let mut h = example();
    h.depth = 0;
    assert_eq!(h.validate(), Err(Error::ConfigError));
    let mut h = example();
    h.heads = 0;
    assert_eq!(h.validate(), Err(Error::ConfigError));
    let mut h = example();
    h.context_window = 0;
    assert_eq!(h.validate(), Err(Error::ConfigError));
    let mut h = example();
    h.input_vocabolary = 0;
    assert_eq!(h.validate(), Err(Error::ConfigError));
    let mut h = example();
    h.output_vocabolary = 0;
    assert_eq!(h.validate(), Err(Error::ConfigError));
    let mut h = example();
    h.batch_size = 0;
    assert_eq!(h.validate(), Err(Error::ConfigError));
}

#[test]
fn heads_must_divide_the_dimension() {
    for (dimension, heads, ok) in
        [(16, 4, true), (16, 16, true), (16, 1, true), (16, 5, false), (16, 32, false), (15, 4, false)]
    {
        let mut h = example();
        h.dimension = dimension;
        h.heads = heads;
        let expected = if ok { Ok(()) } else { Err(Error::ConfigError) };
        assert_eq!(h.validate(), expected, "{dimension} % {heads}");
    }
}

#[test]
fn the_learning_rate_must_be_above_zero() {
    for (x, ok) in [
        (0.01, true),
        (5e-324, true),
        (f64::INFINITY, true),
        (0.0, false),
        (-0.0, false),
        (-0.01, false),
        (f64::NAN, false),
        (f64::NEG_INFINITY, false),
    ] {
        let mut h = example();
        h.learning_rate = rate(x);
        let expected = if ok { Ok(()) } else { Err(Error::ConfigError) };
        assert_eq!(h.validate(), expected, "{x}");
    }
}

#[test]
fn the_command_line_of_the_example_gives_the_example_record() {
    assert_eq!(example_cli().hyperparameters(), Ok(example()));
}

#[test]
fn the_command_line_carries_the_flags_through() {
    let mut cli = example_cli();
    cli.attention_kind = String::from("full");
    cli.use_gpu = true;
    cli.learning_rate = rate(0.5);
    let h = cli.hyperparameters().unwrap();
    assert_eq!(h.attention_kind, AttentionKind::Full);
    assert!(h.use_gpu);
    assert_eq!(h.learning_rate.to_bits(), 0.5f64.to_bits());
}

#[test]
fn a_command_line_with_an_unknown_tag_is_refused() {
    let mut cli = example_cli();
    cli.attention_kind = String::from("sparse");
    assert_eq!(cli.hyperparameters(), Err(Error::ConfigError));
    let mut cli = example_cli();
    cli.encoding = String::from("");
    assert_eq!(cli.hyperparameters(), Err(Error::ConfigError));
}

#[test]
fn a_command_line_with_a_number_that_is_no_size_is_refused() {
    let mut cli = example_cli();
    cli.dimension = -16;
    assert_eq!(cli.hyperparameters(), Err(Error::ConfigError));
    let mut cli = example_cli();
    cli.depth = 0;
    assert_eq!(cli.hyperparameters(), Err(Error::ConfigError));
    let mut cli = example_cli();
    cli.heads = 4_294_967_296;
    assert_eq!(cli.hyperparameters(), Err(Error::ConfigError));
    let mut cli = example_cli();
    cli.context_window = i64::MIN;
    assert_eq!(cli.hyperparameters(), Err(Error::ConfigError));
    let mut cli = example_cli();
    cli.input_vocabolary = 0;
    assert_eq!(cli.hyperparameters(), Err(Error::ConfigError));
    let mut cli = example_cli();
    cli.output_vocabolary = -1;
    assert_eq!(cli.hyperparameters(), Err(Error::ConfigError));
    let mut cli = example_cli();
    cli.batch_size = 0;
    assert_eq!(cli.hyperparameters(), Err(Error::ConfigError));
}

#[test]
fn a_command_line_that_describes_an_invalid_record_is_refused() {
    let mut cli = example_cli();
    cli.heads = 5;
    assert_eq!(cli.hyperparameters(), Err(Error::ConfigError));
    let mut cli = example_cli();
    cli.learning_rate = rate(0.0);
    assert_eq!(cli.hyperparameters(), Err(Error::ConfigError));
    let mut cli = example_cli();
    cli.learning_rate = rate(f64::NAN);
    assert_eq!(cli.hyperparameters(), Err(Error::ConfigError));
}

#[test]
fn the_device_is_the_one_asked_for_if_it_is_there() {
    assert_eq!(Device::select(false, false), Ok(Device::Cpu));
    assert_eq!(Device::select(false, true), Ok(Device::Cpu));
    assert_eq!(Device::select(true, true), Ok(Device::Gpu));
    assert_eq!(Device::select(true, false), Err(Error::DeviceError));
}
