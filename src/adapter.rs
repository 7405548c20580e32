use vstd::prelude::*;

use crate::logic::{kleene_and, kleene_or, TernaryLogic};
use crate::resolve::TernaryDecision;
use crate::state::{classify, TernaryState};

verus! {

// Entry points on small-integer codes, for callers across a foreign-call
// boundary: 0 is `Off`, 2 is `On`, and any other code is taken as `Psi`.
/// AND3 on codes.
pub fn ternary_and3(a: u8, b: u8) -> (r: u8)
    ensures
        r == kleene_and(TernaryState::decoded(a), TernaryState::decoded(b)).code_of(),
{
    let a = TernaryState::from_code(a);
    let b = TernaryState::from_code(b);
    TernaryLogic::and3(a, b).code()
}

/// OR3 on codes.
pub fn ternary_or3(a: u8, b: u8) -> (r: u8)
    ensures
        r == kleene_or(TernaryState::decoded(a), TernaryState::decoded(b)).code_of(),
{
    let a = TernaryState::from_code(a);
    let b = TernaryState::from_code(b);
    TernaryLogic::or3(a, b).code()
}

/// The code of the verdict on a fixed-point `confidence` with tolerance `delta`.
pub fn ternary_decide(confidence: i64, delta: i64) -> (r: u8)
    ensures
        r == classify(confidence as int, delta as int).code_of(),
{
    let td = TernaryDecision::new(delta);
    td.decide(confidence).code()
}

} // verus!
