use mobile_ai_orchestrator::mlp::DimensionMismatch;
use mobile_ai_orchestrator::reservoir::{
    encode_text, simple_hash, EchoStateNetwork, LengthMismatch, ReadoutFit,
};
use mobile_ai_orchestrator::types::Fraction;

fn esn(input: usize, reservoir: usize, output: usize) -> EchoStateNetwork {
    EchoStateNetwork::new(input, reservoir, output, Fraction::new(7, 10), Fraction::new(95, 100))
}

#[test]
fn test_esn_creation() {
    let esn = esn(10, 100, 5);
    assert_eq!(esn.reservoir_size(), 100);
    assert_eq!(esn.state_len(10), Ok(100));
}

#[test]
fn test_esn_update() {
    let esn = esn(10, 50, 5);
    let input = vec![1.0f32; 10];
    assert_eq!(esn.state_len(input.len()), Ok(50));
    assert_eq!(esn.state_len(input.len()), Ok(50));
}

#[test]
fn test_esn_output() {
    let esn = esn(10, 50, 5);
    assert_eq!(esn.output_size, 5);
}

#[test]
fn test_esn_train() {
    let esn = esn(10, 50, 5);
    let states = vec![vec![1.0f32; 50]; 10];
    let targets = vec![vec![0.5f32; 5]; 10];
    assert_eq!(esn.train(states.len(), targets.len()), Ok(ReadoutFit::Samples(10)));
}

#[test]
fn test_encode_text() {
    let vector = encode_text("hello world", 100);
    assert_eq!(vector.len(), 100);
    let squares: usize = vector.iter().map(|x| x * x).sum();
    assert_eq!(squares, 2);
}

#[test]
fn test_encode_text_different_inputs() {
    let v1 = encode_text("hello world", 100);
    let v2 = encode_text("goodbye world", 100);
    assert_ne!(v1, v2);
}

#[test]
#[should_panic(expected = "Input size mismatch")]
fn test_esn_update_wrong_size() {
    let esn = esn(10, 50, 5);
    let wrong_input = vec![1.0f32; 5];
    if let Err(e) = esn.state_len(wrong_input.len()) {
        panic!("Input size mismatch: expected {}, got {}", e.expected, e.got);
    }
}

#[test]
fn hash_is_the_polynomial_of_the_bytes() {
    assert_eq!(simple_hash(""), 0);
    assert_eq!(simple_hash("a"), 97);
    assert_eq!(simple_hash("hello"), 99162322);
    assert_eq!(simple_hash("world"), 113318802);
    assert_eq!(simple_hash("goodbye"), 94696302865);
    // A two-byte character contributes both bytes.
    assert_eq!(simple_hash("\u{e9}"), 0xc3 * 31 + 0xa9);
    // Long inputs wrap around.
    let long = "z".repeat(64);
    let mut expected: usize = 0;
    for _ in 0..64 {
        expected = expected.wrapping_mul(31).wrapping_add(122);
    }
    assert_eq!(simple_hash(&long), expected);
}

#[test]
fn encoding_counts_words_per_bucket() {
    let v = encode_text("hello world hello", 100);
    assert_eq!(v[22], 2);
    assert_eq!(v[2], 1);
    assert_eq!(v.iter().sum::<usize>(), 3);
    let w = encode_text("  \t\n ", 7);
    assert_eq!(w, vec![0; 7]);
    let one = encode_text("a b c d", 1);
    assert_eq!(one, vec![4]);
    let spaced = encode_text("\u{2003}hello\u{a0}world\n", 100);
    assert_eq!(spaced, encode_text("hello world", 100));
}

#[test]
fn update_rejects_other_input_lengths() {
    let esn = esn(384, 1000, 100);
    assert_eq!(esn.state_len(383), Err(DimensionMismatch { expected: 384, got: 383 }));
    assert_eq!(esn.state_len(0), Err(DimensionMismatch { expected: 384, got: 0 }));
    assert_eq!(esn.state_len(384), Ok(1000));
}

#[test]
fn readout_fit_checks_the_sample_counts() {
    let esn = esn(3, 4, 2);
    assert_eq!(esn.train(0, 0), Ok(ReadoutFit::Unchanged));
    assert_eq!(esn.train(5, 5), Ok(ReadoutFit::Samples(5)));
    assert_eq!(esn.train(5, 4), Err(LengthMismatch { inputs: 5, targets: 4 }));
    assert_eq!(esn.train(0, 1), Err(LengthMismatch { inputs: 0, targets: 1 }));
}

#[test]
fn new_network_has_unit_input_scaling() {
    let esn = esn(3, 4, 2);
    assert_eq!(esn.input_scaling, Fraction { num: 1, den: 1 });
    assert_eq!(esn.leak_rate, Fraction { num: 7, den: 10 });
    assert_eq!(esn.spectral_radius, Fraction { num: 95, den: 100 });
}

#[test]
fn plan_draws_reservoir_first_then_input() {
    let esn = esn(1, 2, 1);
    let plan = esn.initialize_weights();
    assert_eq!(plan.reservoir, vec![vec![19081, 17033], vec![15269, 25461]]);
    assert_eq!(plan.input, vec![vec![13856], vec![1093]]);
}

#[test]
fn equal_parameters_give_equal_plans() {
    let a = esn(10, 50, 5).initialize_weights();
    let b = esn(10, 50, 5).initialize_weights();
    assert_eq!(a.reservoir, b.reservoir);
    assert_eq!(a.input, b.input);
    // The output size and the rates do not matter.
    let c = EchoStateNetwork::new(10, 50, 9, Fraction::new(1, 2), Fraction::new(1, 3))
        .initialize_weights();
    assert_eq!(a.reservoir, c.reservoir);
    assert_eq!(a.input, c.input);
}

#[test]
fn reservoir_is_sparse() {
    let plan = esn(1, 4, 1).initialize_weights();
    let connected: Vec<u16> = plan
        .reservoir
        .iter()
        .flatten()
        .copied()
        .filter(|&d| EchoStateNetwork::is_connected(d))
        .collect();
    assert_eq!(connected, vec![1093]);
    assert!(EchoStateNetwork::is_connected(3276));
    assert!(!EchoStateNetwork::is_connected(3277));
}
