//! The state of an Adam optimizer and the rules by which it moves.
//!
//! An optimizer is bound at construction to a shape, the length of the
//! parameter vector it serves, and to three hyperparameters. It owns the
//! first and second moment estimates and a step counter. The estimates are
//! carried as bit patterns: the caller computes the new estimates from the
//! old ones and the gradient, and hands them in with each step.

use vstd::prelude::*;
use crate::binary32::{denotes_positive, denotes_unit_fraction, is_positive, is_unit_fraction};
use crate::error::FitError;

verus! {

/// The pattern of the stability constant, 1e-8, that is added to the square
/// root of the corrected second moment before the division.
pub const EPSILON_BITS: u32 = 0x322b_cc77;

/// The pattern of positive zero, which every moment estimate starts from.
pub const ZERO_BITS: u32 = 0;

/// The hyperparameters an optimizer can be built with: a learning rate above
/// zero, and two decay rates in the half-open interval from zero to one. A
/// NaN is admissible as none of the three.
pub open spec fn config_admissible(lr: u32, b1: u32, b2: u32) -> bool {
    &&& denotes_positive(lr)
    &&& denotes_unit_fraction(b1)
    &&& denotes_unit_fraction(b2)
}

/// What an optimizer is, as a mathematical value.
pub struct AdamState {
    /// Learning rate.
    pub lr: u32,
    /// Decay rate of the first moment estimate.
    pub b1: u32,
    /// Decay rate of the second moment estimate.
    pub b2: u32,
    /// Number of steps taken.
    pub t: nat,
    /// First moment estimate, one entry per parameter.
    pub m: Seq<u32>,
    /// Second moment estimate, one entry per parameter.
    pub v: Seq<u32>,
}

impl AdamState {
    /// The length of the parameter vector the optimizer is bound to.
    pub open spec fn shape(self) -> nat {
        self.m.len()
    }

    /// Both estimates have the bound shape and the hyperparameters are
    /// admissible.
    pub open spec fn wf(self) -> bool {
        &&& self.m.len() == self.v.len()
        &&& config_admissible(self.lr, self.b1, self.b2)
    }

    /// The state of an optimizer that has taken no step: zero estimates of
    /// the given shape and a step count of zero.
    pub open spec fn fresh(shape: nat, lr: u32, b1: u32, b2: u32) -> AdamState {
        AdamState {
            lr,
            b1,
            b2,
            t: 0,
            m: Seq::new(shape, |i: int| ZERO_BITS),
            v: Seq::new(shape, |i: int| ZERO_BITS),
        }
    }

    /// A gradient of the given length and the two new estimates all have the
    /// bound shape.
    pub open spec fn accepts(self, gradient_len: nat, m: Seq<u32>, v: Seq<u32>) -> bool {
        &&& gradient_len == self.shape()
        &&& m.len() == self.shape()
        &&& v.len() == self.shape()
    }

    /// The state after one step that installs the given estimates.
    pub open spec fn stepped(self, m: Seq<u32>, v: Seq<u32>) -> AdamState {
        AdamState { t: self.t + 1, m, v, ..self }
    }

    /// The state after one step for each pair of estimates, first to last.
    pub open spec fn stepped_through(self, moments: Seq<(Seq<u32>, Seq<u32>)>) -> AdamState
        decreases moments.len(),
    {
        if moments.len() == 0 {
            self
        } else {
            self.stepped_through(moments.drop_last()).stepped(moments.last().0, moments.last().1)
        }
    }
}

/// An Adam optimizer's state.
pub struct Adam {
    lr: u32,
    b1: u32,
    b2: u32,
    t: u64,
    m: Vec<u32>,
    v: Vec<u32>,
}

impl View for Adam {
    type V = AdamState;

    closed spec fn view(&self) -> AdamState {
        AdamState { lr: self.lr, b1: self.b1, b2: self.b2, t: self.t as nat, m: self.m@, v: self.v@ }
    }
}

/// A vector of the given length that holds positive zero throughout.
fn zeros(len: usize) -> (r: Vec<u32>)
    ensures
        r@ == Seq::new(len as nat, |i: int| ZERO_BITS),
{
    let mut r: Vec<u32> = Vec::new();
    while r.len() < len
        invariant
            r.len() <= len,
            r@ == Seq::new(r.len() as nat, |i: int| ZERO_BITS),
        decreases len - r.len(),
    {
        r.push(ZERO_BITS);
        assert(r@ =~= Seq::new(r.len() as nat, |i: int| ZERO_BITS));
    }
    r
}

impl Adam {
    #[verifier::type_invariant]
    spec fn inv(&self) -> bool {
        self@.wf()
    }

    /// Builds an optimizer for parameter vectors of length `shape`, with
    /// zero moment estimates and no step taken. Hyperparameters that are
    /// not admissible are refused with `InvalidConfig`.
    pub fn new(shape: usize, lr: u32, b1: u32, b2: u32) -> (r: Result<Adam, FitError>)
        ensures
            config_admissible(lr, b1, b2) ==> r is Ok && r->Ok_0@ == AdamState::fresh(
                shape as nat,
                lr,
                b1,
                b2,
            ),
            !config_admissible(lr, b1, b2) ==> r is Err && r->Err_0 == FitError::InvalidConfig,
    {
        if !is_positive(lr) || !is_unit_fraction(b1) || !is_unit_fraction(b2) {
            return Err(FitError::InvalidConfig);
        }
        Ok(Adam { lr, b1, b2, t: 0, m: zeros(shape), v: zeros(shape) })
    }

    /// The length of the parameter vector the optimizer is bound to.
    pub fn shape(&self) -> (r: usize)
        ensures
            r == self@.shape(),
    {
        self.m.len()
    }

    /// The number of steps taken so far.
    pub fn step_count(&self) -> (r: u64)
        ensures
            r == self@.t,
    {
        self.t
    }

    /// The learning rate.
    pub fn learning_rate(&self) -> (r: u32)
        ensures
            r == self@.lr,
            denotes_positive(r),
    {
        proof {
            use_type_invariant(self);
        }
        self.lr
    }

    /// The decay rate of the first moment estimate.
    pub fn first_decay(&self) -> (r: u32)
        ensures
            r == self@.b1,
            denotes_unit_fraction(r),
    {
        proof {
            use_type_invariant(self);
        }
        self.b1
    }

    /// The decay rate of the second moment estimate.
    pub fn second_decay(&self) -> (r: u32)
        ensures
            r == self@.b2,
            denotes_unit_fraction(r),
    {
        proof {
            use_type_invariant(self);
        }
        self.b2
    }

    /// The first moment estimate; it has the bound shape.
    pub fn first_moment(&self) -> (r: &Vec<u32>)
        ensures
            r@ == self@.m,
            r@.len() == self@.shape(),
    {
        &self.m
    }

    /// The second moment estimate; it has the bound shape.
    pub fn second_moment(&self) -> (r: &Vec<u32>)
        ensures
            r@ == self@.v,
            r@.len() == self@.shape(),
    {
        proof {
            use_type_invariant(self);
        }
        &self.v
    }

    /// Whether a gradient of the given length fits the bound shape; one
    /// that does not is refused with `ShapeMismatch`.
    pub fn check_gradient(&self, gradient_len: usize) -> (r: Result<(), FitError>)
        ensures
            gradient_len == self@.shape() ==> r == Ok::<(), FitError>(()),
            gradient_len != self@.shape() ==> r == Err::<(), FitError>(FitError::ShapeMismatch),
    {
        if gradient_len == self.m.len() {
            Ok(())
        } else {
            Err(FitError::ShapeMismatch)
        }
    }

    /// Takes one step: counts it and installs the new moment estimates `m`
    /// and `v`, which the caller has computed from the current ones and a
    /// gradient of length `gradient_len`. Returns the new step count, the
    /// exponent of the bias correction. If the gradient or either estimate
    /// does not have the bound shape the step is refused with
    /// `ShapeMismatch` and the state stays as it was.
    ///
    /// The counter has 64 bits, and a step that would leave its range is
    /// outside this function's domain.
    pub fn update(&mut self, gradient_len: usize, m: Vec<u32>, v: Vec<u32>) -> (r: Result<
        u64,
        FitError,
    >)
        requires
            old(self)@.t < u64::MAX,
        ensures
            final(self)@.wf(),
            old(self)@.accepts(gradient_len as nat, m@, v@) ==> {
                &&& final(self)@ == old(self)@.stepped(m@, v@)
                &&& r is Ok
                &&& r->Ok_0 == old(self)@.t + 1
            },
            !old(self)@.accepts(gradient_len as nat, m@, v@) ==> {
                &&& final(self)@ == old(self)@
                &&& r == Err::<u64, FitError>(FitError::ShapeMismatch)
            },
    {
        proof {
            use_type_invariant(&*self);
        }
        let shape: usize = self.m.len();
        if gradient_len != shape || m.len() != shape || v.len() != shape {
            return Err(FitError::ShapeMismatch);
        }
        self.t = self.t + 1;
        self.m = m;
        self.v = v;
        Ok(self.t)
    }
}

/// Every step counts once: from any state, after one step for each pair of
/// estimates handed in, the step count has grown by the number of pairs,
/// and the hyperparameters are what they were.
pub proof fn lemma_steps_are_counted(s: AdamState, moments: Seq<(Seq<u32>, Seq<u32>)>)
    ensures
        s.stepped_through(moments).t == s.t + moments.len(),
        s.stepped_through(moments).lr == s.lr,
        s.stepped_through(moments).b1 == s.b1,
        s.stepped_through(moments).b2 == s.b2,
    decreases moments.len(),
{
    if moments.len() > 0 {
        lemma_steps_are_counted(s, moments.drop_last());
    }
}

/// A fresh optimizer that is taken through `moments.len()` steps has a step
/// count of exactly that number.
pub proof fn lemma_fresh_step_count(
    shape: nat,
    lr: u32,
    b1: u32,
    b2: u32,
    moments: Seq<(Seq<u32>, Seq<u32>)>,
)
    ensures
        AdamState::fresh(shape, lr, b1, b2).stepped_through(moments).t == moments.len(),
{
    lemma_steps_are_counted(AdamState::fresh(shape, lr, b1, b2), moments);
}

/// Steps keep the shape: if every pair of estimates handed in has the
/// state's shape, the state that results is well formed and has that shape.
pub proof fn lemma_steps_keep_shape(s: AdamState, moments: Seq<(Seq<u32>, Seq<u32>)>)
    requires
        s.wf(),
        forall|k: int|
            0 <= k < moments.len() ==> (#[trigger] moments[k]).0.len() == s.shape()
                && moments[k].1.len() == s.shape(),
    ensures
        s.stepped_through(moments).wf(),
        s.stepped_through(moments).shape() == s.shape(),
    decreases moments.len(),
{
    if moments.len() > 0 {
        lemma_steps_are_counted(s, moments.drop_last());
        lemma_steps_keep_shape(s, moments.drop_last());
    }
}

/// Construction is a function of its arguments: two optimizers built with
/// the same shape and hyperparameters, and taken through the same steps,
/// hold the same state.
pub proof fn lemma_equal_construction(
    a: AdamState,
    b: AdamState,
    shape: nat,
    lr: u32,
    b1: u32,
    b2: u32,
    moments: Seq<(Seq<u32>, Seq<u32>)>,
)
    requires
        a == AdamState::fresh(shape, lr, b1, b2),
        b == AdamState::fresh(shape, lr, b1, b2),
    ensures
        a.stepped_through(moments) == b.stepped_through(moments),
        a.m == b.m,
        a.v == b.v,
        a.t == 0,
{
}

} // verus!
