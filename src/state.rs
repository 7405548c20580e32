use vstd::prelude::*;

verus! {

/// The fixed-point value that stands for 1.0.
pub const UNIT: i64 = 1_000_000;

/// The fixed-point value that stands for 0.5, the midpoint.
pub const HALF: i64 = 500_000;

/// A ternary state (trit): definitely off, uncertain, or definitely on.
#[derive(Debug, Clone, Copy, PartialEq, Eq, Structural)]
pub enum TernaryState {
    Off,
    Psi,
    On,
}

/// The threshold rule: `On` when `value >= 1 - delta`, else `Off` when
/// `value <= delta`, else `Psi`. The `On` test comes first, so where the two
/// thresholds cross (`delta >= 0.5`) a value meeting both is `On`.
pub open spec fn classify(value: int, delta: int) -> TernaryState {
    if value >= UNIT - delta {
        TernaryState::On
    } else if value <= delta {
        TernaryState::Off
    } else {
        TernaryState::Psi
    }
}

impl TernaryState {
    /// The canonical fixed-point value of a state: 0, one half, one.
    pub open spec fn numeric(self) -> int {
        match self {
            TernaryState::Off => 0,
            TernaryState::Psi => HALF as int,
            TernaryState::On => UNIT as int,
        }
    }

    /// The display token of a state.
    pub open spec fn glyph(self) -> Seq<char> {
        match self {
            TernaryState::Off => "🔴"@,
            TernaryState::Psi => "🟡"@,
            TernaryState::On => "🟢"@,
        }
    }

    /// The position of a state in the order `Off < Psi < On`.
    pub open spec fn rank(self) -> int {
        match self {
            TernaryState::Off => 0,
            TernaryState::Psi => 1,
            TernaryState::On => 2,
        }
    }

    /// The small-integer code of a state at a foreign-call boundary.
    pub open spec fn code_of(self) -> u8 {
        match self {
            TernaryState::Off => 0,
            TernaryState::Psi => 1,
            TernaryState::On => 2,
        }
    }

    /// The state a code stands for: 0 is `Off`, 2 is `On`, any other code `Psi`.
    pub open spec fn decoded(c: u8) -> TernaryState {
        if c == 0 {
            TernaryState::Off
        } else if c == 2 {
            TernaryState::On
        } else {
            TernaryState::Psi
        }
    }

    /// Classifies a fixed-point `value` with tolerance `delta`.
    pub fn from_numeric(value: i64, delta: i64) -> (r: TernaryState)
        ensures
            r == classify(value as int, delta as int),
    {
        let upper: i128 = UNIT as i128 - delta as i128;
        if value as i128 >= upper {
            TernaryState::On
        } else if value <= delta {
            TernaryState::Off
        } else {
            TernaryState::Psi
        }
    }

    /// The canonical fixed-point value: 0 for `Off`, `HALF` for `Psi`,
    /// `UNIT` for `On`.
    pub fn to_numeric(self) -> (r: i64)
        ensures
            r as int == self.numeric(),
    {
        match self {
            TernaryState::Off => 0,
            TernaryState::Psi => HALF,
            TernaryState::On => UNIT,
        }
    }

    /// A display token, distinct for each state.
    pub fn symbol(self) -> (r: &'static str)
        ensures
            r@ == self.glyph(),
    {
        match self {
            TernaryState::Off => "🔴",
            TernaryState::Psi => "🟡",
            TernaryState::On => "🟢",
        }
    }
}

impl TernaryState {
    /// Encodes a state as 0 (`Off`), 1 (`Psi`) or 2 (`On`).
    pub fn code(self) -> (r: u8)
        ensures
            r == self.code_of(),
            r as int == self.rank(),
    {
        match self {
            TernaryState::Off => 0,
            TernaryState::Psi => 1,
            TernaryState::On => 2,
        }
    }

    /// Decodes a code; every code but 0 and 2 decodes to `Psi`.
    pub fn from_code(c: u8) -> (r: TernaryState)
        ensures
            r == TernaryState::decoded(c),
    {
        match c {
            0 => TernaryState::Off,
            2 => TernaryState::On,
            _ => TernaryState::Psi,
        }
    }
}

/// Each state has its own display token.
pub proof fn lemma_glyphs_distinct(a: TernaryState, b: TernaryState)
    requires
        a != b,
    ensures
        a.glyph() != b.glyph(),
{
    reveal_strlit("🔴");
    reveal_strlit("🟡");
    reveal_strlit("🟢");
    if a.glyph() == b.glyph() {
        assert(a.glyph()[0] == b.glyph()[0]);
    }
}

/// Decoding the code of a state gives the state back.
pub proof fn lemma_code_round_trip(s: TernaryState)
    ensures
        TernaryState::decoded(s.code_of()) == s,
{
}

/// Every value is classified, and the three outcomes partition the line:
/// `On` from `1 - delta` up, `Off` at or below `delta` under that, `Psi`
/// strictly between.
pub proof fn lemma_classify_partition(value: int, delta: int)
    ensures
        classify(value, delta) == TernaryState::On <==> value >= UNIT - delta,
        classify(value, delta) == TernaryState::Off <==> (value < UNIT - delta
            && value <= delta),
        classify(value, delta) == TernaryState::Psi <==> (delta < value && value < UNIT
            - delta),
{
}

/// The thresholds themselves: `1 - delta` is `On`; `delta` is `Off` while
/// the thresholds do not cross; the midpoint is `Psi` while `delta < 0.5`.
pub proof fn lemma_classify_thresholds(delta: int)
    ensures
        classify(UNIT - delta, delta) == TernaryState::On,
        2 * delta < UNIT ==> classify(delta, delta) == TernaryState::Off,
        delta < HALF ==> classify(HALF as int, delta) == TernaryState::Psi,
{
}

} // verus!
