use vstd::prelude::*;

use rand::Rng;

use crate::state::{classify, TernaryState, HALF};

verus! {

/// `rand::rngs::StdRng`, the seedable generator of rand, carried through
/// opaquely so that a caller can supply a reproducible noise source.
#[verifier::external_type_specification]
#[verifier::external_body]
pub struct ExStdRng(rand::rngs::StdRng);

/// Relies on `rand::thread_rng` and `Rng::gen_range` on `i64`: a value of
/// the half-open range `-delta..delta`, which is not empty here.
#[verifier::external_body]
fn thread_offset(delta: i64) -> (r: i64)
    requires
        delta > 0,
    ensures
        -delta <= r < delta,
{
    rand::thread_rng().gen_range(-delta..delta)
}

/// Relies on `Rng::gen_range` on `i64` drawn from a caller's `StdRng`: a
/// value of the half-open range `-delta..delta`, which is not empty here.
#[verifier::external_body]
fn seeded_offset(rng: &mut rand::rngs::StdRng, delta: i64) -> (r: i64)
    requires
        delta > 0,
    ensures
        -delta <= r < delta,
{
    rng.gen_range(-delta..delta)
}

/// The midpoint rule: a perturbed signal at or above one half is `On`,
/// below it `Off`.
pub open spec fn collapse(perturbed: int) -> TernaryState {
    if perturbed >= HALF {
        TernaryState::On
    } else {
        TernaryState::Off
    }
}

/// Collapses an uncertain signal to `On` or `Off` by adding random noise of
/// half-width `delta` and thresholding at the midpoint.
pub struct PsiResolver {
    pub delta: i64,
}

impl PsiResolver {
    pub fn new(delta: i64) -> (r: PsiResolver)
        ensures
            r.delta == delta,
    {
        PsiResolver { delta }
    }

    /// An offset is one the noise can take: in `-delta..delta` for a positive
    /// `delta`; 0 when `delta` is not positive, which means no noise.
    pub open spec fn admits(&self, offset: int) -> bool {
        if self.delta > 0 {
            -self.delta <= offset < self.delta
        } else {
            offset == 0
        }
    }

    /// The outcome for a given noise draw: `On` when `signal + offset`
    /// reaches the midpoint, else `Off`.
    pub fn resolve_with_offset(&self, psi_value: i64, offset: i64) -> (r: TernaryState)
        ensures
            r == collapse(psi_value + offset),
    {
        if psi_value as i128 + offset as i128 >= HALF as i128 {
            TernaryState::On
        } else {
            TernaryState::Off
        }
    }

    /// Resolves a signal with noise from the thread's random generator.
    pub fn resolve(&self, psi_value: i64) -> (r: TernaryState)
        ensures
            exists|offset: int| self.admits(offset) && r == collapse(psi_value + offset),
            r != TernaryState::Psi,
            self.delta <= 0 ==> r == collapse(psi_value as int),
    {
        let offset: i64 = if self.delta > 0 {
            thread_offset(self.delta)
        } else {
            0
        };
        let r = self.resolve_with_offset(psi_value, offset);
        assert(self.admits(offset as int));
        r
    }

    /// Resolves a signal with noise drawn from `rng`, so that a seeded
    /// generator gives a reproducible outcome.
    pub fn resolve_from(&self, psi_value: i64, rng: &mut rand::rngs::StdRng) -> (r: TernaryState)
        ensures
            exists|offset: int| self.admits(offset) && r == collapse(psi_value + offset),
            r != TernaryState::Psi,
            self.delta <= 0 ==> r == collapse(psi_value as int),
    {
        let offset: i64 = if self.delta > 0 {
            seeded_offset(rng, self.delta)
        } else {
            0
        };
        let r = self.resolve_with_offset(psi_value, offset);
        assert(self.admits(offset as int));
        r
    }
}

/// A confidence classifier bound to a fixed tolerance; it applies the same
/// threshold rule as `TernaryState::from_numeric`.
pub struct TernaryDecision {
    pub delta: i64,
}

impl TernaryDecision {
    pub fn new(delta: i64) -> (r: TernaryDecision)
        ensures
            r.delta == delta,
    {
        TernaryDecision { delta }
    }

    /// The verdict on a fixed-point `confidence`.
    pub fn decide(&self, confidence: i64) -> (r: TernaryState)
        ensures
            r == classify(confidence as int, self.delta as int),
    {
        TernaryState::from_numeric(confidence, self.delta)
    }
}

/// A resolver never leaves a signal uncertain, and without noise it is the
/// plain midpoint threshold.
pub proof fn lemma_resolver_bounded(res: PsiResolver, psi_value: int, offset: int)
    requires
        res.admits(offset),
    ensures
        collapse(psi_value + offset) != TernaryState::Psi,
        res.delta <= 0 ==> (collapse(psi_value + offset) == TernaryState::On <==> psi_value
            >= HALF),
{
}

} // verus!
