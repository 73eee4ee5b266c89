//! Policy backends: what maps a sensor vector to an actuator vector.
//!
//! A 32-bit float travels through this library as its IEEE-754 bit pattern,
//! so a policy takes and gives vectors of bit patterns.

use vstd::prelude::*;

verus! {

/// An inference that failed.
#[derive(Clone, Copy, Debug, PartialEq, Eq, Structural)]
pub struct PolicyError;

/// Anything that can run an inference for the reflex loop. Nothing is
/// promised of what an inference gives: the loop copes with every outcome.
pub trait PolicyModel {
    /// Runs the inference; the lengths of input and output are the
    /// model's own.
    fn infer(&self, input: &Vec<u32>) -> (out: Result<Vec<u32>, PolicyError>);
}

/// The view of an inference's outcome.
pub open spec fn outcome_view(out: Result<Vec<u32>, PolicyError>) -> Option<Seq<u32>> {
    match out {
        Ok(v) => Some(v@),
        Err(_) => None,
    }
}

/// As many zeros as the input has entries.
pub open spec fn zeros(n: nat) -> Seq<u32> {
    Seq::new(n, |i: int| 0u32)
}

fn zero_vector(n: usize) -> (v: Vec<u32>)
    ensures
        v@ == zeros(n as nat),
{
    let mut v: Vec<u32> = Vec::new();
    let mut i: usize = 0;
    while i < n
        invariant
            i <= n,
            v@ =~= zeros(i as nat),
        decreases n - i,
    {
        v.push(0u32);
        i = i + 1;
    }
    v
}

/// The policy that answers zero to everything: what the reflex loop runs
/// on where no model could be loaded.
#[derive(Clone, Copy, Debug, Default)]
pub struct NullPolicy;

impl PolicyModel for NullPolicy {
    /// As many zeros as the input has entries.
    fn infer(&self, input: &Vec<u32>) -> (out: Result<Vec<u32>, PolicyError>)
        ensures
            outcome_view(out) == Some(zeros(input@.len())),
    {
        Ok(zero_vector(input.len()))
    }
}

/// The native backend of machines without an inference engine of their
/// own: it loads from any path and answers zero to everything.
#[derive(Clone, Copy, Debug)]
pub struct MetalPolicy;

impl MetalPolicy {
    /// Loads the model at `path`. This backend reads nothing, and never fails.
    pub fn load(path: &str) -> (loaded: Result<MetalPolicy, PolicyError>)
        ensures
            loaded is Ok,
    {
        Ok(MetalPolicy)
    }
}

impl PolicyModel for MetalPolicy {
    /// As many zeros as the input has entries.
    fn infer(&self, input: &Vec<u32>) -> (out: Result<Vec<u32>, PolicyError>)
        ensures
            outcome_view(out) == Some(zeros(input@.len())),
    {
        Ok(zero_vector(input.len()))
    }
}

/// The policy that the reflex loop runs on: the configured model where it
/// could be loaded, and the null policy where it could not.
pub enum ActivePolicy<P> {
    Native(P),
    Null(NullPolicy),
}

/// Which policy a start-up ends with. `loaded` is `None` where no model is
/// configured, and else what loading it gave.
pub open spec fn resolve_spec<P>(loaded: Option<Result<P, PolicyError>>) -> ActivePolicy<P> {
    match loaded {
        Some(Ok(p)) => ActivePolicy::Native(p),
        _ => ActivePolicy::Null(NullPolicy),
    }
}

impl<P> ActivePolicy<P> {
    /// Settles the policy at start-up. It never fails: where no model is
    /// configured, or loading it failed, the null policy takes its place.
    pub fn resolve(loaded: Option<Result<P, PolicyError>>) -> (active: ActivePolicy<P>)
        ensures
            active == resolve_spec(loaded),
    {
        match loaded {
            Some(Ok(p)) => ActivePolicy::Native(p),
            _ => ActivePolicy::Null(NullPolicy),
        }
    }

    /// Whether the null policy took the model's place.
    pub fn is_fallback(&self) -> (yes: bool)
        ensures
            yes == (*self is Null),
    {
        match self {
            ActivePolicy::Native(_) => false,
            ActivePolicy::Null(_) => true,
        }
    }
}

impl<P: PolicyModel> PolicyModel for ActivePolicy<P> {
    /// The model's answer; where the null policy took its place, as many
    /// zeros as the input has entries.
    fn infer(&self, input: &Vec<u32>) -> (out: Result<Vec<u32>, PolicyError>)
        ensures
            *self is Null ==> outcome_view(out) == Some(zeros(input@.len())),
            *self matches ActivePolicy::Native(p) ==> call_ensures(P::infer, (&p, input), out),
    {
        match self {
            ActivePolicy::Native(p) => p.infer(input),
            ActivePolicy::Null(n) => n.infer(input),
        }
    }
}

} // verus!
