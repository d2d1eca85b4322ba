//! Online delta-rule training.
//!
//! Per sample: write the features into the input cells, activate, take
//! `error = target - output`, then `weight[j] += error * feature[j] * rate`
//! and `bias += error * rate`. Epochs repeat while the stop rule says so,
//! at most `MAX_EPOCHS` times.
use vstd::prelude::*;
use crate::activation::{ActivationList, exp_ok};
use crate::fixed::{SCALE, in_range, sat, mul_spec, add_spec, abs_spec, fx_mul, fx_sub, fx_add, fx_abs};
use crate::neuron::{Neuron, signals_ok, net_of};

verus! {

/// The learning rate, `0.1`.
pub const LEARNING_RATE: i64 = 100_000;

/// Cap on the number of epochs of one stage.
pub const MAX_EPOCHS: u32 = 1000;

/// When a stage stops, besides the epoch cap.
#[derive(Clone, Copy, Debug, PartialEq, Eq, Structural)]
pub enum StopRule {
    /// Go on until the total error of an epoch is exactly zero.
    ExactZero,
    /// Go on until the total error of an epoch is below the threshold.
    Below(i64),
}

pub open spec fn keep_training_spec(rule: StopRule, total_error: int, epoch: int) -> bool {
    epoch < MAX_EPOCHS && match rule {
        StopRule::ExactZero => total_error != 0,
        StopRule::Below(t) => total_error >= t,
    }
}

/// Whether another epoch runs after `epoch` epochs with this total error.
pub fn keep_training(rule: StopRule, total_error: i64, epoch: u32) -> (r: bool)
    ensures
        r == keep_training_spec(rule, total_error as int, epoch as int),
{
    if epoch >= MAX_EPOCHS {
        return false;
    }
    match rule {
        StopRule::ExactZero => total_error != 0,
        StopRule::Below(t) => total_error >= t,
    }
}

/// The table after writing `f[j]` into cell `src[j]`, for `j < n`, in order.
pub open spec fn loaded(s: Seq<i64>, src: Seq<usize>, f: Seq<i64>, n: nat) -> Seq<i64>
    decreases n,
{
    if n == 0 {
        s
    } else {
        loaded(s, src, f, (n - 1) as nat).update(src[n - 1] as int, f[n - 1])
    }
}

pub open spec fn all_in_range(f: Seq<i64>) -> bool {
    forall|j: int| 0 <= j < f.len() ==> in_range(#[trigger] f[j] as int)
}

/// Writes each feature into its source cell, in feature order.
pub fn load_features(signals: &mut Vec<i64>, sources: &Vec<usize>, features: &Vec<i64>)
    requires
        sources@.len() == features@.len(),
        forall|j: int| 0 <= j < sources@.len() ==> (#[trigger] sources@[j]) < old(signals)@.len(),
        signals_ok(old(signals)@),
        all_in_range(features@),
    ensures
        final(signals)@ == loaded(old(signals)@, sources@, features@, features@.len()),
        final(signals)@.len() == old(signals)@.len(),
        signals_ok(final(signals)@),
{
    let ghost s0 = signals@;
    let mut j: usize = 0;
    while j < features.len()
        invariant
            sources@.len() == features@.len(),
            forall|i: int| 0 <= i < sources@.len() ==> (#[trigger] sources@[i]) < s0.len(),
            all_in_range(features@),
            j <= features@.len(),
            signals@ == loaded(s0, sources@, features@, j as nat),
            signals@.len() == s0.len(),
            signals_ok(signals@),
        decreases features@.len() - j,
    {
        signals.set(sources[j], features[j]);
        j = j + 1;
    }
}

pub open spec fn weight_update(w: int, error: int, f: int) -> int {
    sat(w + mul_spec(mul_spec(error, f), LEARNING_RATE as int))
}

pub open spec fn bias_update(b: int, error: int) -> int {
    sat(b + mul_spec(error, LEARNING_RATE as int))
}

/// The delta rule for one sample: with `error = target - output`, moves each
/// weight by `error * feature * rate` and the bias by `error * rate`, and
/// returns the error.
pub fn learn(neuron: &mut Neuron, features: &Vec<i64>, target: i64, output: i64) -> (error: i64)
    requires
        old(neuron).weights@.len() == features@.len(),
        forall|j: int| 0 <= j < old(neuron).weights@.len() ==> in_range(#[trigger] old(neuron).weights@[j] as int),
        in_range(old(neuron).bias as int),
        all_in_range(features@),
        in_range(target as int),
        in_range(output as int),
    ensures
        error == sat(target - output),
        final(neuron).weights@.len() == old(neuron).weights@.len(),
        forall|j: int| 0 <= j < features@.len() ==> (#[trigger] final(neuron).weights@[j]) == weight_update(
            old(neuron).weights@[j] as int,
            error as int,
            features@[j] as int,
        ),
        final(neuron).bias == bias_update(old(neuron).bias as int, error as int),
        final(neuron).input == old(neuron).input,
        final(neuron).activation == old(neuron).activation,
        final(neuron).output == old(neuron).output,
        forall|j: int| 0 <= j < final(neuron).weights@.len() ==> in_range(#[trigger] final(neuron).weights@[j] as int),
        in_range(final(neuron).bias as int),
        in_range(error as int),
{
    let error = fx_sub(target, output);
    let n = features.len();
    let mut j: usize = 0;
    while j < n
        invariant
            n == features@.len(),
            neuron.weights@.len() == n,
            j <= n,
            all_in_range(features@),
            in_range(error as int),
            forall|i: int| 0 <= i < n ==> in_range(#[trigger] neuron.weights@[i] as int),
            forall|i: int| 0 <= i < j ==> (#[trigger] neuron.weights@[i]) == weight_update(
                old(neuron).weights@[i] as int,
                error as int,
                features@[i] as int,
            ),
            forall|i: int| j <= i < n ==> (#[trigger] neuron.weights@[i]) == old(neuron).weights@[i],
            neuron.bias == old(neuron).bias,
            neuron.input == old(neuron).input,
            neuron.activation == old(neuron).activation,
            neuron.output == old(neuron).output,
        decreases n - j,
    {
        let delta = fx_mul(fx_mul(error, features[j]), LEARNING_RATE);
        let w = fx_add(neuron.weights[j], delta);
        neuron.weights.set(j, w);
        j = j + 1;
    }
    neuron.bias = fx_add(neuron.bias, fx_mul(error, LEARNING_RATE));
    error
}

/// One online step on a sample whose features are already in the input
/// cells: activates the neuron (`exp_neg_net` is `e^(-net)`, used by sigmoid
/// only), then applies the delta rule against `target`. Returns the error.
pub fn train_sample(
    neuron: &mut Neuron,
    signals: &mut Vec<i64>,
    features: &Vec<i64>,
    target: i64,
    exp_neg_net: i64,
) -> (error: i64)
    requires
        old(neuron).wf(old(signals)@),
        signals_ok(old(signals)@),
        exp_ok(exp_neg_net as int),
        features@.len() == old(neuron).input@.len(),
        all_in_range(features@),
        in_range(target as int),
    ensures
        final(signals)@ == old(neuron).activated(old(signals)@, exp_neg_net as int),
        signals_ok(final(signals)@),
        error == sat(target - final(signals)@[old(neuron).output as int]),
        forall|j: int| 0 <= j < features@.len() ==> (#[trigger] final(neuron).weights@[j]) == weight_update(
            old(neuron).weights@[j] as int,
            error as int,
            features@[j] as int,
        ),
        final(neuron).bias == bias_update(old(neuron).bias as int, error as int),
        final(neuron).input == old(neuron).input,
        final(neuron).activation == old(neuron).activation,
        final(neuron).output == old(neuron).output,
        final(neuron).wf(final(signals)@),
        in_range(error as int),
{
    neuron.activate(signals, exp_neg_net);
    let out = signals[neuron.output];
    learn(neuron, features, target, out)
}

/// One online step of a neuron with inputs `inp`, activation `act` (one that
/// needs no exponential) and output cell `out`, from weights `w`, bias `b`
/// and table `s`, on features `f` against target `t`: the new weights, bias
/// and table, and the error.
pub open spec fn sample_spec(
    inp: Seq<usize>,
    act: ActivationList,
    out: usize,
    w: Seq<i64>,
    b: int,
    s: Seq<i64>,
    f: Seq<i64>,
    t: int,
) -> (Seq<i64>, int, Seq<i64>, int) {
    let s1 = loaded(s, inp, f, f.len());
    let y = act.forward_spec(net_of(w, b, inp, s1), 0);
    let error = sat(t - y);
    (
        Seq::new(w.len(), |j: int| weight_update(w[j] as int, error, f[j] as int) as i64),
        bias_update(b, error),
        s1.update(out as int, y as i64),
        error,
    )
}

/// The first `k` samples of an epoch, in order: weights, bias, table, and
/// the total error so far.
pub open spec fn epoch_spec(
    inp: Seq<usize>,
    act: ActivationList,
    out: usize,
    w: Seq<i64>,
    b: int,
    s: Seq<i64>,
    data: Seq<Vec<i64>>,
    targets: Seq<i64>,
    k: nat,
) -> (Seq<i64>, int, Seq<i64>, int)
    decreases k,
{
    if k == 0 {
        (w, b, s, 0)
    } else {
        let prev = epoch_spec(inp, act, out, w, b, s, data, targets, (k - 1) as nat);
        let r = sample_spec(inp, act, out, prev.0, prev.1, prev.2, data[k - 1]@, targets[k - 1] as int);
        (r.0, r.1, r.2, add_spec(prev.3, abs_spec(r.3)))
    }
}

/// The rest of a stage after `epoch` epochs that ended with `total`: final
/// weights, bias, table, total error and epoch count.
pub open spec fn stage_spec(
    inp: Seq<usize>,
    act: ActivationList,
    out: usize,
    rule: StopRule,
    data: Seq<Vec<i64>>,
    targets: Seq<i64>,
    w: Seq<i64>,
    b: int,
    s: Seq<i64>,
    total: int,
    epoch: int,
) -> (Seq<i64>, int, Seq<i64>, int, int)
    decreases MAX_EPOCHS - epoch,
{
    if !keep_training_spec(rule, total, epoch) {
        (w, b, s, total, epoch)
    } else {
        let e = epoch_spec(inp, act, out, w, b, s, data, targets, data.len());
        stage_spec(inp, act, out, rule, data, targets, e.0, e.1, e.2, e.3, epoch + 1)
    }
}

/// The outcome of a training stage.
pub struct StageReport {
    pub epochs: u32,
    pub total_error: i64,
}

/// Trains a neuron whose activation needs no exponential (step or ReLU) on
/// `dataset` against `targets`, one stage: epochs run while `rule` and the
/// epoch cap allow, each going through the samples in order, writing each
/// sample's features into the neuron's input cells, activating, and applying
/// the delta rule. The total error starts at one.
pub fn train_stage(
    neuron: &mut Neuron,
    signals: &mut Vec<i64>,
    dataset: &Vec<Vec<i64>>,
    targets: &Vec<i64>,
    rule: StopRule,
) -> (report: StageReport)
    requires
        old(neuron).wf(old(signals)@),
        signals_ok(old(signals)@),
        old(neuron).activation != ActivationList::Sigmoid,
        dataset@.len() == targets@.len(),
        forall|i: int| 0 <= i < dataset@.len() ==> (#[trigger] dataset@[i])@.len() == old(neuron).input@.len(),
        forall|i: int| 0 <= i < dataset@.len() ==> all_in_range(#[trigger] dataset@[i]@),
        all_in_range(targets@),
    ensures
        final(neuron).wf(final(signals)@),
        signals_ok(final(signals)@),
        final(signals)@.len() == old(signals)@.len(),
        final(neuron).input == old(neuron).input,
        final(neuron).activation == old(neuron).activation,
        final(neuron).output == old(neuron).output,
        ({
            let r = stage_spec(
                old(neuron).input@,
                old(neuron).activation,
                old(neuron).output,
                rule,
                dataset@,
                targets@,
                old(neuron).weights@,
                old(neuron).bias as int,
                old(signals)@,
                SCALE as int,
                0,
            );
            &&& final(neuron).weights@ == r.0
            &&& final(neuron).bias == r.1
            &&& final(signals)@ == r.2
            &&& report.total_error == r.3
            &&& report.epochs == r.4
        }),
        report.epochs <= MAX_EPOCHS,
        !keep_training_spec(rule, report.total_error as int, report.epochs as int),
        report.epochs == 0 ==> report.total_error == SCALE,
        in_range(report.total_error as int),
{
    let mut total_error: i64 = SCALE;
    let mut epoch: u32 = 0;
    let ghost len0 = signals@.len();
    let ghost goal = stage_spec(
        neuron.input@,
        neuron.activation,
        neuron.output,
        rule,
        dataset@,
        targets@,
        neuron.weights@,
        neuron.bias as int,
        signals@,
        SCALE as int,
        0,
    );
    while keep_training(rule, total_error, epoch)
        invariant
            stage_spec(
                neuron.input@,
                neuron.activation,
                neuron.output,
                rule,
                dataset@,
                targets@,
                neuron.weights@,
                neuron.bias as int,
                signals@,
                total_error as int,
                epoch as int,
            ) == goal,
            neuron.wf(signals@),
            signals_ok(signals@),
            signals@.len() == len0,
            neuron.input == old(neuron).input,
            neuron.activation == old(neuron).activation,
            neuron.output == old(neuron).output,
            neuron.activation != ActivationList::Sigmoid,
            dataset@.len() == targets@.len(),
            forall|i: int| 0 <= i < dataset@.len() ==> (#[trigger] dataset@[i])@.len() == neuron.input@.len(),
            forall|i: int| 0 <= i < dataset@.len() ==> all_in_range(#[trigger] dataset@[i]@),
            all_in_range(targets@),
            epoch <= MAX_EPOCHS,
            epoch == 0 ==> total_error == SCALE,
            in_range(total_error as int),
        decreases MAX_EPOCHS - epoch,
    {
        let ghost w0 = neuron.weights@;
        let ghost b0 = neuron.bias as int;
        let ghost s0 = signals@;
        let ghost e0 = epoch as int;
        let ghost t0 = total_error as int;
        total_error = 0;
        epoch = epoch + 1;
        let mut i: usize = 0;
        while i < dataset.len()
            invariant
                ({
                    let r = epoch_spec(
                        neuron.input@,
                        neuron.activation,
                        neuron.output,
                        w0,
                        b0,
                        s0,
                        dataset@,
                        targets@,
                        i as nat,
                    );
                    &&& neuron.weights@ == r.0
                    &&& neuron.bias == r.1
                    &&& signals@ == r.2
                    &&& total_error == r.3
                }),
                stage_spec(
                    neuron.input@,
                    neuron.activation,
                    neuron.output,
                    rule,
                    dataset@,
                    targets@,
                    w0,
                    b0,
                    s0,
                    t0,
                    e0,
                ) == goal,
                keep_training_spec(rule, t0, e0),
                epoch == e0 + 1,
                neuron.wf(signals@),
                signals_ok(signals@),
                signals@.len() == len0,
                neuron.input == old(neuron).input,
                neuron.activation == old(neuron).activation,
                neuron.output == old(neuron).output,
                neuron.activation != ActivationList::Sigmoid,
                dataset@.len() == targets@.len(),
                forall|k: int| 0 <= k < dataset@.len() ==> (#[trigger] dataset@[k])@.len() == neuron.input@.len(),
                forall|k: int| 0 <= k < dataset@.len() ==> all_in_range(#[trigger] dataset@[k]@),
                all_in_range(targets@),
                i <= dataset@.len(),
                1 <= epoch <= MAX_EPOCHS,
                in_range(total_error as int),
            decreases dataset@.len() - i,
        {
            let features = &dataset[i];
            let ghost w1 = neuron.weights@;
            let ghost b1 = neuron.bias as int;
            let ghost s1 = signals@;
            load_features(signals, &neuron.input, features);
            let error = train_sample(neuron, signals, features, targets[i], 0);
            total_error = fx_add(total_error, fx_abs(error));
            proof {
                let r = sample_spec(
                    neuron.input@,
                    neuron.activation,
                    neuron.output,
                    w1,
                    b1,
                    s1,
                    dataset@[i as int]@,
                    targets@[i as int] as int,
                );
                assert(neuron.weights@ =~= r.0);
            }
            i = i + 1;
        }
    }
    StageReport { epochs: epoch, total_error }
}

} // verus!
