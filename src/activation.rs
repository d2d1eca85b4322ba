//! The activation kinds and their forward and derivative functions.
//!
//! Sigmoid needs `e^(-x)`, which is not computed here: callers pass it in as
//! a fixed-point value `exp_neg_x`, and the other kinds ignore it.
use vstd::prelude::*;
use crate::fixed::{SCALE, MAX_VALUE, in_range, mul_spec, fx_mul};

verus! {

/// Which forward / derivative pair a neuron uses.
#[derive(Clone, Copy, Debug, PartialEq, Eq, Structural)]
pub enum ActivationList {
    Step,
    ReLU,
    Sigmoid,
}

pub open spec fn step_spec(x: int) -> int {
    if x >= 0 {
        SCALE as int
    } else {
        0
    }
}

pub open spec fn relu_spec(x: int) -> int {
    if x >= 0 {
        x
    } else {
        0
    }
}

/// `1 / (1 + e^(-x))` in fixed point, from `e = e^(-x)` in fixed point.
pub open spec fn sigmoid_spec(e: int) -> int {
    (SCALE * SCALE) / (SCALE + e)
}

/// `sigmoid * (1 - sigmoid)`.
pub open spec fn sigmoid_d_spec(e: int) -> int {
    mul_spec(sigmoid_spec(e), SCALE - sigmoid_spec(e))
}

/// A valid fixed-point value of `e^(-x)`.
pub open spec fn exp_ok(e: int) -> bool {
    0 <= e && e <= MAX_VALUE
}

impl ActivationList {
    pub open spec fn forward_spec(self, x: int, e: int) -> int {
        match self {
            ActivationList::Step => step_spec(x),
            ActivationList::ReLU => relu_spec(x),
            ActivationList::Sigmoid => sigmoid_spec(e),
        }
    }

    pub open spec fn derivative_spec(self, x: int, e: int) -> int {
        match self {
            ActivationList::Step => SCALE as int,
            ActivationList::ReLU => step_spec(x),
            ActivationList::Sigmoid => sigmoid_d_spec(e),
        }
    }

    /// The forward function of this kind at `x`; `exp_neg_x` is `e^(-x)`.
    pub fn forward(&self, x: i64, exp_neg_x: i64) -> (r: i64)
        requires
            in_range(x as int),
            exp_ok(exp_neg_x as int),
        ensures
            r == self.forward_spec(x as int, exp_neg_x as int),
            in_range(r as int),
    {
        match self {
            ActivationList::Step => activ_step(x),
            ActivationList::ReLU => activ_relu(x),
            ActivationList::Sigmoid => activ_sigmoid(exp_neg_x),
        }
    }

    /// The derivative of this kind at `x`; `exp_neg_x` is `e^(-x)`.
    pub fn derivative(&self, x: i64, exp_neg_x: i64) -> (r: i64)
        requires
            in_range(x as int),
            exp_ok(exp_neg_x as int),
        ensures
            r == self.derivative_spec(x as int, exp_neg_x as int),
            in_range(r as int),
    {
        match self {
            ActivationList::Step => activ_step_d(x),
            ActivationList::ReLU => activ_relu_d(x),
            ActivationList::Sigmoid => activ_sigmoid_d(exp_neg_x),
        }
    }
}

/// Step: one at and above zero, zero below.
pub fn activ_step(x: i64) -> (r: i64)
    ensures
        r == step_spec(x as int),
        r == SCALE <==> x >= 0,
        r == 0 <==> x < 0,
{
    if x >= 0 {
        SCALE
    } else {
        0
    }
}

/// Derivative of step, taken as the constant one.
pub fn activ_step_d(x: i64) -> (r: i64)
    ensures
        r == SCALE,
{
    SCALE
}

/// ReLU: `max(x, 0)`.
pub fn activ_relu(x: i64) -> (r: i64)
    ensures
        r == relu_spec(x as int),
        r == if x >= 0 { x } else { 0 },
        r >= x && r >= 0,
{
    if x >= 0 {
        x
    } else {
        0
    }
}

/// Derivative of ReLU: one at and above zero, zero below.
pub fn activ_relu_d(x: i64) -> (r: i64)
    ensures
        r == step_spec(x as int),
{
    if x >= 0 {
        SCALE
    } else {
        0
    }
}

/// Sigmoid from `e^(-x)`.
pub fn activ_sigmoid(exp_neg_x: i64) -> (r: i64)
    requires
        exp_ok(exp_neg_x as int),
    ensures
        r == sigmoid_spec(exp_neg_x as int),
        0 <= r <= SCALE,
{
    proof {
        lemma_sigmoid_range(exp_neg_x as int);
    }
    (SCALE * SCALE) / (SCALE + exp_neg_x)
}

/// Derivative of sigmoid from `e^(-x)`.
pub fn activ_sigmoid_d(exp_neg_x: i64) -> (r: i64)
    requires
        exp_ok(exp_neg_x as int),
    ensures
        r == sigmoid_d_spec(exp_neg_x as int),
{
    let fx = activ_sigmoid(exp_neg_x);
    fx_mul(fx, SCALE - fx)
}

/// Sigmoid never leaves `[0, 1]`.
pub proof fn lemma_sigmoid_range(e: int)
    requires
        exp_ok(e),
    ensures
        0 <= sigmoid_spec(e) <= SCALE,
{
    assert(0 <= (1_000_000_000_000int) / (1_000_000 + e) <= 1_000_000) by (nonlinear_arith)
        requires
            0 <= e,
    ;
}

/// Sigmoid lies strictly between zero and one wherever `e^(-x)` is positive
/// and the result is still above the fixed-point resolution
/// (`1 + e^(-x) <= 1000000`), and it is exactly one half at `x = 0`
/// (where `e^(-x)` is one).
pub proof fn lemma_sigmoid_open_interval(e: int)
    requires
        exp_ok(e),
    ensures
        0 < e && SCALE + e <= SCALE * SCALE ==> 0 < sigmoid_spec(e) < SCALE,
        sigmoid_spec(SCALE as int) == SCALE / 2,
{
    if 0 < e && SCALE + e <= SCALE * SCALE {
        assert(0 < (1_000_000_000_000int) / (1_000_000 + e) < 1_000_000) by (nonlinear_arith)
            requires
                0 < e,
                1_000_000 + e <= 1_000_000_000_000,
        ;
    }
}

/// Step is one exactly on the non-negative inputs.
pub proof fn lemma_step_threshold(x: int)
    ensures
        ActivationList::Step.forward_spec(x, 0) == SCALE <==> x >= 0,
{
}

/// ReLU is the maximum of its input and zero.
pub proof fn lemma_relu_is_max(x: int)
    ensures
        ActivationList::ReLU.forward_spec(x, 0) == if x >= 0 { x } else { 0 },
{
}

} // verus!
