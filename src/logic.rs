use vstd::prelude::*;

use crate::state::TernaryState;

verus! {

/// The state of a given rank in the order `Off < Psi < On`.
pub open spec fn of_rank(k: int) -> TernaryState {
    if k <= 0 {
        TernaryState::Off
    } else if k == 1 {
        TernaryState::Psi
    } else {
        TernaryState::On
    }
}

/// Kleene conjunction: the lesser of the two states.
pub open spec fn kleene_and(a: TernaryState, b: TernaryState) -> TernaryState {
    if a.rank() <= b.rank() {
        a
    } else {
        b
    }
}

/// Kleene disjunction: the greater of the two states.
pub open spec fn kleene_or(a: TernaryState, b: TernaryState) -> TernaryState {
    if a.rank() >= b.rank() {
        a
    } else {
        b
    }
}

/// Kleene negation: the mirror image in the order.
pub open spec fn kleene_not(a: TernaryState) -> TernaryState {
    of_rank(2 - a.rank())
}

/// Exclusive or: uncertain if either side is, else true when the sides differ.
pub open spec fn kleene_xor(a: TernaryState, b: TernaryState) -> TernaryState {
    if a == TernaryState::Psi || b == TernaryState::Psi {
        TernaryState::Psi
    } else if a == b {
        TernaryState::Off
    } else {
        TernaryState::On
    }
}

/// The connectives of three-valued logic.
pub struct TernaryLogic;

impl TernaryLogic {
    /// AND3: `Off` if either side is `Off`, `On` if both are `On`, else `Psi`.
    pub fn and3(a: TernaryState, b: TernaryState) -> (r: TernaryState)
        ensures
            r == kleene_and(a, b),
    {
        match (a, b) {
            (TernaryState::Off, _) | (_, TernaryState::Off) => TernaryState::Off,
            (TernaryState::On, TernaryState::On) => TernaryState::On,
            _ => TernaryState::Psi,
        }
    }

    /// OR3: `On` if either side is `On`, `Off` if both are `Off`, else `Psi`.
    pub fn or3(a: TernaryState, b: TernaryState) -> (r: TernaryState)
        ensures
            r == kleene_or(a, b),
    {
        match (a, b) {
            (TernaryState::On, _) | (_, TernaryState::On) => TernaryState::On,
            (TernaryState::Off, TernaryState::Off) => TernaryState::Off,
            _ => TernaryState::Psi,
        }
    }

    /// NOT3: swaps `On` and `Off`; `Psi` stays.
    pub fn not3(a: TernaryState) -> (r: TernaryState)
        ensures
            r == kleene_not(a),
    {
        match a {
            TernaryState::On => TernaryState::Off,
            TernaryState::Off => TernaryState::On,
            TernaryState::Psi => TernaryState::Psi,
        }
    }

    /// XOR3: `Psi` if either side is `Psi`, else two-valued exclusive or.
    pub fn xor3(a: TernaryState, b: TernaryState) -> (r: TernaryState)
        ensures
            r == kleene_xor(a, b),
    {
        match (a, b) {
            (TernaryState::Psi, _) | (_, TernaryState::Psi) => TernaryState::Psi,
            (x, y) => {
                if x == y {
                    TernaryState::Off
                } else {
                    TernaryState::On
                }
            },
        }
    }
}

/// AND3: `Off` absorbs everything, `On` with `On` is `On`, and `Psi` with
/// `On` stays `Psi`.
pub proof fn lemma_and3_dominance(b: TernaryState)
    ensures
        kleene_and(TernaryState::Off, b) == TernaryState::Off,
        kleene_and(b, TernaryState::Off) == TernaryState::Off,
        kleene_and(TernaryState::On, TernaryState::On) == TernaryState::On,
        kleene_and(TernaryState::Psi, TernaryState::On) == TernaryState::Psi,
{
}

/// OR3: `On` absorbs everything, `Off` with `Off` is `Off`, and `Psi` with
/// `Off` stays `Psi`.
pub proof fn lemma_or3_dominance(b: TernaryState)
    ensures
        kleene_or(TernaryState::On, b) == TernaryState::On,
        kleene_or(b, TernaryState::On) == TernaryState::On,
        kleene_or(TernaryState::Off, TernaryState::Off) == TernaryState::Off,
        kleene_or(TernaryState::Psi, TernaryState::Off) == TernaryState::Psi,
{
}

/// NOT3 undoes itself, and leaves `Psi` fixed.
pub proof fn lemma_not3_involution(x: TernaryState)
    ensures
        kleene_not(kleene_not(x)) == x,
        kleene_not(TernaryState::Psi) == TernaryState::Psi,
{
}

/// XOR3: `Psi` on either side gives `Psi`; on definite states it is the
/// two-valued exclusive or.
pub proof fn lemma_xor3_uncertainty(x: TernaryState)
    ensures
        kleene_xor(TernaryState::Psi, x) == TernaryState::Psi,
        kleene_xor(x, TernaryState::Psi) == TernaryState::Psi,
        kleene_xor(TernaryState::On, TernaryState::On) == TernaryState::Off,
        kleene_xor(TernaryState::On, TernaryState::Off) == TernaryState::On,
        kleene_xor(TernaryState::Off, TernaryState::Off) == TernaryState::Off,
{
}

/// AND3, OR3 and XOR3 do not depend on the order of their operands.
pub proof fn lemma_binary_commutative(a: TernaryState, b: TernaryState)
    ensures
        kleene_and(a, b) == kleene_and(b, a),
        kleene_or(a, b) == kleene_or(b, a),
        kleene_xor(a, b) == kleene_xor(b, a),
{
}

/// De Morgan: negation turns AND3 into OR3 of the negations.
pub proof fn lemma_de_morgan(a: TernaryState, b: TernaryState)
    ensures
        kleene_not(kleene_and(a, b)) == kleene_or(kleene_not(a), kleene_not(b)),
        kleene_not(kleene_or(a, b)) == kleene_and(kleene_not(a), kleene_not(b)),
{
}

} // verus!
