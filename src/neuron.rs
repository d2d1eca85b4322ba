//! A neuron reading shared signal cells.
//!
//! Signal cells live in one table, a `Vec<i64>`; a neuron holds the indices
//! of the cells it reads (`input`) and of the cell it writes (`output`).
use vstd::prelude::*;
use crate::activation::{ActivationList, exp_ok};
use crate::fixed::{MAX_VALUE, in_range, mul_spec, sat, fx_mul, saturate};

verus! {

/// Largest number of inputs a neuron may read.
pub const MAX_ARITY: usize = 1000;

/// Every cell of the signal table holds a value in range.
pub open spec fn signals_ok(s: Seq<i64>) -> bool {
    forall|i: int| 0 <= i < s.len() ==> in_range(#[trigger] s[i] as int)
}

/// `sum(w[j] * s[inp[j]])` over the first `n` inputs.
pub open spec fn dot(w: Seq<i64>, inp: Seq<usize>, s: Seq<i64>, n: nat) -> int
    decreases n,
{
    if n == 0 {
        0
    } else {
        dot(w, inp, s, (n - 1) as nat) + mul_spec(
            w[n - 1] as int,
            s[inp[n - 1] as int] as int,
        )
    }
}

/// Weighted sum of the inputs `inp` of table `s` under weights `w`, plus bias `b`.
pub open spec fn net_of(w: Seq<i64>, b: int, inp: Seq<usize>, s: Seq<i64>) -> int {
    sat(b + dot(w, inp, s, inp.len()))
}

pub struct Neuron {
    pub input: Vec<usize>,
    pub weights: Vec<i64>,
    pub bias: i64,
    pub activation: ActivationList,
    pub output: usize,
}

impl Neuron {
    /// The neuron is wired into the table `s`: one weight per input, every
    /// index inside the table, every parameter in range.
    pub open spec fn wf(&self, s: Seq<i64>) -> bool {
        &&& self.input@.len() == self.weights@.len()
        &&& self.input@.len() <= MAX_ARITY
        &&& forall|j: int| 0 <= j < self.input@.len() ==> (#[trigger] self.input@[j]) < s.len()
        &&& forall|j: int| 0 <= j < self.weights@.len() ==> in_range(#[trigger] self.weights@[j] as int)
        &&& in_range(self.bias as int)
        &&& self.output < s.len()
    }

    /// Weighted sum of the inputs plus the bias.
    pub open spec fn net_spec(&self, s: Seq<i64>) -> int {
        net_of(self.weights@, self.bias as int, self.input@, s)
    }

    /// The table after activation, with `e` standing for `e^(-net)`.
    pub open spec fn activated(&self, s: Seq<i64>, e: int) -> Seq<i64> {
        s.update(self.output as int, self.activation.forward_spec(self.net_spec(s), e) as i64)
    }

    /// A neuron of `inputs` zero weights, zero bias and no inputs yet, whose
    /// output is a new cell, holding zero, at the end of `signals`.
    pub fn new(inputs: usize, function: ActivationList, signals: &mut Vec<i64>) -> (n: Neuron)
        requires
            old(signals)@.len() < usize::MAX,
        ensures
            n.weights@ == Seq::new(inputs as nat, |j: int| 0i64),
            n.input@.len() == 0,
            n.bias == 0,
            n.activation == function,
            n.output == old(signals)@.len(),
            final(signals)@ == old(signals)@.push(0),
    {
        let mut weights: Vec<i64> = Vec::new();
        let mut k: usize = 0;
        while k < inputs
            invariant
                k <= inputs,
                weights@ == Seq::new(k as nat, |j: int| 0i64),
            decreases inputs - k,
        {
            weights.push(0);
            k = k + 1;
            assert(weights@ =~= Seq::new(k as nat, |j: int| 0i64));
        }
        let output = signals.len();
        signals.push(0);
        Neuron { input: Vec::new(), weights, bias: 0, activation: function, output }
    }

    /// Weighted sum of the current input values plus the bias.
    pub fn net_input(&self, signals: &Vec<i64>) -> (r: i64)
        requires
            self.wf(signals@),
            signals_ok(signals@),
        ensures
            r == self.net_spec(signals@),
            in_range(r as int),
    {
        let n = self.input.len();
        let mut sum: i64 = 0;
        let mut j: usize = 0;
        while j < n
            invariant
                self.wf(signals@),
                signals_ok(signals@),
                n == self.input@.len(),
                j <= n,
                sum == dot(self.weights@, self.input@, signals@, j as nat),
                -(j as int) * MAX_VALUE <= sum <= (j as int) * MAX_VALUE,
            decreases n - j,
        {
            let v = signals[self.input[j]];
            let p = fx_mul(self.weights[j], v);
            proof {
                assert(in_range(signals@[self.input@[j as int] as int] as int));
            }
            sum = sum + p;
            j = j + 1;
        }
        saturate(self.bias + sum)
    }

    /// Reads the inputs, applies the activation to the net input and stores
    /// the result in the output cell. `exp_neg_net` is `e^(-net)`, used by
    /// sigmoid only.
    pub fn activate(&self, signals: &mut Vec<i64>, exp_neg_net: i64)
        requires
            self.wf(old(signals)@),
            signals_ok(old(signals)@),
            exp_ok(exp_neg_net as int),
        ensures
            final(signals)@ == self.activated(old(signals)@, exp_neg_net as int),
            signals_ok(final(signals)@),
    {
        let net = self.net_input(signals);
        let y = self.activation.forward(net, exp_neg_net);
        signals.set(self.output, y);
    }
}

/// Writing a cell that is not among the inputs leaves the weighted sum alone.
proof fn lemma_dot_frame(w: Seq<i64>, inp: Seq<usize>, s: Seq<i64>, n: nat, k: int, v: i64)
    requires
        n <= inp.len(),
        0 <= k < s.len(),
        forall|j: int| 0 <= j < n ==> (#[trigger] inp[j]) as int != k && inp[j] < s.len(),
    ensures
        dot(w, inp, s.update(k, v), n) == dot(w, inp, s, n),
    decreases n,
{
    if n > 0 {
        lemma_dot_frame(w, inp, s, (n - 1) as nat, k, v);
        assert(inp[n - 1] as int != k);
    }
}

/// With every weight-bearing input at zero, the sum is zero.
proof fn lemma_dot_zero(w: Seq<i64>, inp: Seq<usize>, s: Seq<i64>, n: nat)
    requires
        n <= inp.len(),
        forall|j: int| 0 <= j < n ==> (#[trigger] s[inp[j] as int]) == 0,
    ensures
        dot(w, inp, s, n) == 0,
    decreases n,
{
    if n > 0 {
        lemma_dot_zero(w, inp, s, (n - 1) as nat);
        assert(s[inp[n - 1] as int] == 0);
    }
}

/// A neuron with as many weights as inputs, all inputs at zero and a zero
/// bias, outputs its activation's value at zero.
pub proof fn lemma_zero_input_output(n: Neuron, s: Seq<i64>, e: int)
    requires
        n.wf(s),
        n.bias == 0,
        forall|j: int| 0 <= j < n.input@.len() ==> (#[trigger] s[n.input@[j] as int]) == 0,
    ensures
        n.net_spec(s) == 0,
        n.activated(s, e)[n.output as int] == n.activation.forward_spec(0, e) as i64,
{
    lemma_dot_zero(n.weights@, n.input@, s, n.input@.len());
}

/// Activating twice with unchanged inputs gives the same table as activating
/// once, when the neuron does not read its own output.
pub proof fn lemma_activate_idempotent(n: Neuron, s: Seq<i64>, e: int)
    requires
        n.wf(s),
        forall|j: int| 0 <= j < n.input@.len() ==> (#[trigger] n.input@[j]) != n.output,
    ensures
        n.activated(n.activated(s, e), e) == n.activated(s, e),
{
    let s1 = n.activated(s, e);
    let y = n.activation.forward_spec(n.net_spec(s), e) as i64;
    lemma_dot_frame(n.weights@, n.input@, s, n.input@.len(), n.output as int, y);
    assert(n.net_spec(s1) == n.net_spec(s));
    assert(n.activated(s1, e) =~= s1);
}

} // verus!
