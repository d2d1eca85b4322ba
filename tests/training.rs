use neurotic::activation::ActivationList;
use neurotic::fixed::{MAX_VALUE, SCALE};
use neurotic::neuron::Neuron;
use neurotic::training::{
    keep_training, learn, load_features, train_sample, train_stage, StopRule, MAX_EPOCHS,
};

fn exp_neg(x: i64) -> i64 {
    let v = (-(x as f64) / SCALE as f64).exp() * SCALE as f64;
    if v >= MAX_VALUE as f64 {
        MAX_VALUE
    } else {
        v.round() as i64
    }
}

fn data_set() -> Vec<Vec<i64>> {
    vec![
        vec![0, 0],
        vec![0, SCALE],
        vec![SCALE, 0],
        vec![SCALE, SCALE],
    ]
}

fn labels(bits: [i64; 4]) -> Vec<i64> {
    bits.iter().map(|b| b * SCALE).collect()
}

/// Two raw-feature cells (0 and 1) and a neuron reading them, starting from
/// weights `[1, 1]` and bias `1.5`.
fn wired(kind: ActivationList, signals: &mut Vec<i64>) -> Neuron {
    let mut n = Neuron::new(2, kind, signals);
    n.input = vec![0, 1];
    n.weights = vec![SCALE, SCALE];
    n.bias = 1_500_000;
    n
}

/// One stage driven sample by sample, computing `e^(-net)` for sigmoid.
fn run_stage(n: &mut Neuron, signals: &mut Vec<i64>, targets: &[i64], rule: StopRule) -> (u32, i64) {
    let data = data_set();
    let mut total_error: i64 = SCALE;
    let mut epoch: u32 = 0;
    while keep_training(rule, total_error, epoch) {
        total_error = 0;
        epoch += 1;
        for (i, features) in data.iter().enumerate() {
            load_features(signals, &n.input, features);
            let e = exp_neg(n.net_input(signals));
            let error = train_sample(n, signals, features, targets[i], e);
            total_error = (total_error + error.abs()).min(MAX_VALUE);
        }
    }
    (epoch, total_error)
}

fn output_for(n: &Neuron, signals: &mut Vec<i64>) -> i64 {
    let e = exp_neg(n.net_input(signals));
    n.activate(signals, e);
    signals[n.output]
}

#[test]
fn stop_rules() {
    assert!(keep_training(StopRule::ExactZero, 1, 0));
    assert!(!keep_training(StopRule::ExactZero, 0, 5));
    assert!(keep_training(StopRule::Below(100_000), 100_000, 5));
    assert!(!keep_training(StopRule::Below(100_000), 99_999, 5));
    assert!(keep_training(StopRule::ExactZero, 1, MAX_EPOCHS - 1));
    assert!(!keep_training(StopRule::ExactZero, 1, MAX_EPOCHS));
}

#[test]
fn load_features_writes_sources_in_order() {
    let mut signals: Vec<i64> = vec![5, 6, 7];
    load_features(&mut signals, &vec![2, 0], &vec![11, 12]);
    assert_eq!(signals, vec![12, 6, 11]);
    load_features(&mut signals, &vec![1, 1], &vec![3, 4]);
    assert_eq!(signals, vec![12, 4, 11]);
}

#[test]
fn delta_rule_moves_weights_and_bias() {
    let mut signals: Vec<i64> = vec![0, 0];
    let mut n = wired(ActivationList::Step, &mut signals);
    // error = 0 - 1 = -1; weights move by -0.1 * feature, bias by -0.1
    let error = learn(&mut n, &vec![SCALE, 0], 0, SCALE);
    assert_eq!(error, -SCALE);
    assert_eq!(n.weights, vec![900_000, SCALE]);
    assert_eq!(n.bias, 1_400_000);
    let error = learn(&mut n, &vec![500_000, 2 * SCALE], SCALE, 0);
    assert_eq!(error, SCALE);
    assert_eq!(n.weights, vec![950_000, 1_200_000]);
    assert_eq!(n.bias, 1_500_000);
}

#[test]
fn nand_stage_with_step_reaches_zero_error() {
    let mut signals: Vec<i64> = vec![0, 0];
    let mut n = wired(ActivationList::Step, &mut signals);
    let targets = labels([1, 1, 1, 0]);
    let report = train_stage(&mut n, &mut signals, &data_set(), &targets, StopRule::ExactZero);
    assert_eq!(report.total_error, 0);
    assert!(report.epochs <= MAX_EPOCHS);
    assert_eq!(report.epochs, 13);
    assert_eq!(n.weights, vec![-200_000, -200_000]);
    assert_eq!(n.bias, 300_000);
    for (i, features) in data_set().iter().enumerate() {
        load_features(&mut signals, &n.input, features);
        n.activate(&mut signals, 0);
        assert_eq!(signals[n.output], targets[i]);
    }
}

#[test]
fn or_stage_with_sigmoid_gets_below_threshold() {
    let mut signals: Vec<i64> = vec![0, 0];
    let mut n = wired(ActivationList::Sigmoid, &mut signals);
    let (epochs, total_error) =
        run_stage(&mut n, &mut signals, &labels([0, 1, 1, 1]), StopRule::Below(100_000));
    assert!(total_error < 100_000);
    assert!(epochs < MAX_EPOCHS);
}

#[test]
fn composed_network_computes_xor() {
    let mut signals: Vec<i64> = vec![0, 0];
    let mut nand = wired(ActivationList::Sigmoid, &mut signals);
    let mut or = wired(ActivationList::Sigmoid, &mut signals);
    let mut and = wired(ActivationList::Step, &mut signals);
    run_stage(&mut nand, &mut signals, &labels([1, 1, 1, 0]), StopRule::ExactZero);
    run_stage(&mut or, &mut signals, &labels([0, 1, 1, 1]), StopRule::Below(100_000));
    let report = train_stage(&mut and, &mut signals, &data_set(), &labels([0, 0, 0, 1]), StopRule::Below(100_000));
    assert!(report.total_error < 100_000);
    and.input = vec![nand.output, or.output];
    let mut got = Vec::new();
    for features in data_set().iter() {
        load_features(&mut signals, &vec![0, 1], features);
        output_for(&nand, &mut signals);
        output_for(&or, &mut signals);
        got.push(output_for(&and, &mut signals));
    }
    assert_eq!(got, labels([0, 1, 1, 0]));
}
