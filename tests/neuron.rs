use neurotic::activation::ActivationList;
use neurotic::fixed::SCALE;
use neurotic::neuron::Neuron;

#[test]
fn new_neuron_is_zeroed_with_its_own_output_cell() {
    let mut signals: Vec<i64> = vec![7, 8];
    let n = Neuron::new(3, ActivationList::ReLU, &mut signals);
    assert_eq!(n.weights, vec![0, 0, 0]);
    assert!(n.input.is_empty());
    assert_eq!(n.bias, 0);
    assert_eq!(n.activation, ActivationList::ReLU);
    assert_eq!(n.output, 2);
    assert_eq!(signals, vec![7, 8, 0]);
}

#[test]
fn net_input_is_weighted_sum_plus_bias() {
    let mut signals: Vec<i64> = vec![SCALE, 2 * SCALE];
    let mut n = Neuron::new(2, ActivationList::ReLU, &mut signals);
    n.input = vec![0, 1];
    n.weights = vec![1_500_000, -250_000];
    n.bias = 100_000;
    // 1.5 * 1 - 0.25 * 2 + 0.1 = 1.1
    assert_eq!(n.net_input(&signals), 1_100_000);
    n.activate(&mut signals, 0);
    assert_eq!(signals[2], 1_100_000);
}

#[test]
fn zero_inputs_and_bias_give_forward_of_zero() {
    for (kind, expected) in [
        (ActivationList::Step, SCALE),
        (ActivationList::ReLU, 0),
        (ActivationList::Sigmoid, SCALE / 2),
    ] {
        let mut signals: Vec<i64> = vec![0, 0, 0];
        let mut n = Neuron::new(3, kind, &mut signals);
        n.input = vec![0, 1, 2];
        n.weights = vec![1_000_000, -2_000_000, 3_000_000];
        assert_eq!(n.net_input(&signals), 0);
        n.activate(&mut signals, SCALE);
        assert_eq!(signals[n.output], expected);
    }
}

#[test]
fn activating_twice_gives_the_same_output() {
    let mut signals: Vec<i64> = vec![SCALE, 0];
    let mut n = Neuron::new(2, ActivationList::Step, &mut signals);
    n.input = vec![0, 1];
    n.weights = vec![-2_000_000, 1_000_000];
    n.bias = 1_500_000;
    n.activate(&mut signals, 0);
    let first = signals.clone();
    n.activate(&mut signals, 0);
    assert_eq!(signals, first);
    assert_eq!(signals[2], 0);
}
