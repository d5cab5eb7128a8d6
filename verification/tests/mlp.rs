use mobile_ai_orchestrator::lcg::Lcg;
use mobile_ai_orchestrator::mlp::{DimensionMismatch, MLP};

fn key(x: f32) -> i64 {
    assert!(!x.is_nan());
    let bits = x.to_bits();
    if bits >> 31 == 0 {
        bits as i64
    } else {
        -((bits & 0x7fff_ffff) as i64)
    }
}

fn keys(values: &[f32]) -> Vec<i64> {
    values.iter().map(|&v| key(v)).collect()
}

#[test]
fn test_mlp_creation() {
    let mlp = MLP::new(10, vec![20], 3);
    assert_eq!(mlp.input_size(), 10);
    assert_eq!(mlp.output_size(), 3);
}

#[test]
fn test_mlp_forward() {
    let mlp = MLP::new(10, vec![20], 3);
    let input = vec![1.0f32; 10];
    assert_eq!(mlp.output_len(input.len()), Ok(3));
}

#[test]
fn test_argmax() {
    let values = vec![0.1, 0.8, 0.3];
    assert_eq!(MLP::argmax(&keys(&values)), 1);

    let values2 = vec![5.0, 2.0, 1.0];
    assert_eq!(MLP::argmax(&keys(&values2)), 0);
}

#[test]
#[should_panic(expected = "Input size mismatch")]
fn test_mlp_forward_wrong_size() {
    let mlp = MLP::new(10, vec![20], 3);
    let wrong_input = vec![1.0f32; 5];
    if let Err(e) = mlp.output_len(wrong_input.len()) {
        panic!("Input size mismatch: expected {}, got {}", e.expected, e.got);
    }
}

#[test]
fn test_mlp_multi_layer() {
    let mlp = MLP::new(10, vec![50, 30, 20], 3);
    let draws = mlp.initial_draws();
    assert_eq!(draws.len(), 4);
    assert_eq!(mlp.layer_sizes(), vec![10, 50, 30, 20, 3]);
    assert_eq!(mlp.output_len(10), Ok(3));
}

#[test]
fn argmax_ties_resolve_to_the_last_maximum() {
    assert_eq!(MLP::argmax(&keys(&[0.5, 0.9, 0.9])), 2);
    assert_eq!(MLP::argmax(&[7, 7, 7, 7]), 3);
    assert_eq!(MLP::argmax(&[3, 9, 1, 9, 2]), 3);
    assert_eq!(MLP::argmax(&keys(&[-0.0, 0.0, -1.0])), 1);
    assert_eq!(MLP::argmax(&[i64::MIN, i64::MAX, i64::MIN]), 1);
}

#[test]
fn argmax_of_nothing_is_zero() {
    assert_eq!(MLP::argmax(&[]), 0);
    assert_eq!(MLP::argmax(&[42]), 0);
}

#[test]
fn dimension_mismatch_carries_both_sizes() {
    let mlp = MLP::new(384, vec![], 3);
    assert_eq!(mlp.output_len(383), Err(DimensionMismatch { expected: 384, got: 383 }));
    assert_eq!(mlp.output_len(384), Ok(3));
    assert_eq!(mlp.output_len(0), Err(DimensionMismatch { expected: 384, got: 0 }));
}

#[test]
fn rectifier_follows_every_layer_but_the_last() {
    let mlp = MLP::new(4, vec![3, 3], 3);
    assert!(mlp.applies_relu(0));
    assert!(mlp.applies_relu(1));
    assert!(!mlp.applies_relu(2));
    assert!(!mlp.applies_relu(3));
    let single = MLP::new(4, vec![], 2);
    assert!(!single.applies_relu(0));
}

#[test]
fn initial_plan_runs_one_generator_through_the_layers() {
    let mlp = MLP::new(2, vec![3], 1);
    let draws = mlp.initial_draws();
    assert_eq!(draws.len(), 2);
    assert_eq!(draws[0], vec![vec![6727, 22524], vec![25453, 13188], vec![17448, 3325]]);
    assert_eq!(draws[1], vec![vec![20812, 11448, ninth_draw()]]);
}

fn ninth_draw() -> u16 {
    let mut g = Lcg::new(123);
    let mut d = 0;
    for _ in 0..9 {
        d = g.next_draw();
    }
    d
}

#[test]
fn equal_architectures_have_equal_plans() {
    let a = MLP::new(5, vec![7, 4], 3);
    let b = a.clone();
    assert_eq!(a.initial_draws(), b.initial_draws());
    assert_eq!(a.initial_draws(), MLP::new(5, vec![7, 4], 3).initial_draws());
}

#[test]
fn generator_yields_known_draws() {
    let mut g = Lcg::new(123);
    let first: Vec<u16> = (0..8).map(|_| g.next_draw()).collect();
    assert_eq!(first, vec![6727, 22524, 25453, 13188, 17448, 3325, 20812, 11448]);
    let mut g = Lcg::new(42);
    assert_eq!(g.draw_matrix(2, 3), vec![vec![19081, 17033, 15269], vec![25461, 13856, 1093]]);
    assert_eq!(g.next_draw(), 13677);
    assert!(Lcg::new(0).draw_matrix(0, 5).is_empty());
    assert_eq!(Lcg::new(0).draw_matrix(2, 0), vec![Vec::<u16>::new(), Vec::new()]);
}

#[test]
fn connection_threshold_is_exact() {
    assert!(Lcg::is_connection(3276, 10));
    assert!(!Lcg::is_connection(3277, 10));
    assert!(Lcg::is_connection(6553, 5));
    assert!(!Lcg::is_connection(6554, 5));
    assert!(Lcg::is_connection(0, 10));
    assert!(Lcg::is_connection(32767, 1));
    assert!(!Lcg::is_connection(32767, 2));
    assert!(Lcg::is_connection(32767, 0));
}
