use libternary::adapter::{ternary_and3, ternary_decide, ternary_or3};
use libternary::resolve::TernaryDecision;
use libternary::state::{TernaryState, HALF, UNIT};

#[test]
fn test_decision() {
    let td = TernaryDecision::new(50_000);
    assert_eq!(td.decide(990_000), TernaryState::On);
    assert_eq!(td.decide(10_000), TernaryState::Off);
    assert_eq!(td.decide(500_000), TernaryState::Psi);
}

#[test]
fn classify_scenario() {
    assert_eq!(TernaryState::from_numeric(990_000, 50_000), TernaryState::On);
    assert_eq!(TernaryState::from_numeric(10_000, 50_000), TernaryState::Off);
    assert_eq!(TernaryState::from_numeric(500_000, 50_000), TernaryState::Psi);
}

#[test]
fn classify_at_thresholds() {
    for delta in [0, 1, 50_000, 250_000, HALF - 1] {
        assert_eq!(TernaryState::from_numeric(UNIT - delta, delta), TernaryState::On);
        assert_eq!(TernaryState::from_numeric(delta, delta), TernaryState::Off);
        assert_eq!(TernaryState::from_numeric(HALF, delta), TernaryState::Psi);
        assert_eq!(TernaryState::from_numeric(delta + 1, delta), TernaryState::Psi);
        assert_eq!(TernaryState::from_numeric(UNIT - delta - 1, delta), TernaryState::Psi);
    }
}

#[test]
fn classify_crossed_thresholds_prefer_on() {
    assert_eq!(TernaryState::from_numeric(HALF, HALF), TernaryState::On);
    assert_eq!(TernaryState::from_numeric(400_000, 700_000), TernaryState::On);
    assert_eq!(TernaryState::from_numeric(299_999, 700_000), TernaryState::Off);
}

#[test]
fn classify_out_of_range_values() {
    assert_eq!(TernaryState::from_numeric(i64::MAX, 50_000), TernaryState::On);
    assert_eq!(TernaryState::from_numeric(i64::MIN, 50_000), TernaryState::Off);
    assert_eq!(TernaryState::from_numeric(-5, 0), TernaryState::Off);
    assert_eq!(TernaryState::from_numeric(0, i64::MIN), TernaryState::Psi);
    assert_eq!(TernaryState::from_numeric(0, i64::MAX), TernaryState::On);
}

#[test]
fn decide_matches_from_numeric() {
    for delta in [0, 50_000, HALF, 900_000, -3] {
        let td = TernaryDecision::new(delta);
        for c in [-1, 0, 49_999, 50_000, HALF, 950_000, UNIT, UNIT + 7] {
            assert_eq!(td.decide(c), TernaryState::from_numeric(c, delta));
        }
    }
}

#[test]
fn numeric_values_are_canonical() {
    assert_eq!(TernaryState::Off.to_numeric(), 0);
    assert_eq!(TernaryState::Psi.to_numeric(), 500_000);
    assert_eq!(TernaryState::On.to_numeric(), 1_000_000);
}

#[test]
fn symbols_are_distinct() {
    assert_eq!(TernaryState::Off.symbol(), "🔴");
    assert_eq!(TernaryState::Psi.symbol(), "🟡");
    assert_eq!(TernaryState::On.symbol(), "🟢");
}

#[test]
fn codes_round_trip() {
    for s in [TernaryState::Off, TernaryState::Psi, TernaryState::On] {
        assert_eq!(TernaryState::from_code(s.code()), s);
    }
    assert_eq!(TernaryState::Off.code(), 0);
    assert_eq!(TernaryState::Psi.code(), 1);
    assert_eq!(TernaryState::On.code(), 2);
    assert_eq!(TernaryState::from_code(255), TernaryState::Psi);
    assert_eq!(TernaryState::from_code(3), TernaryState::Psi);
}

#[test]
fn adapter_and3_scenario() {
    assert_eq!(ternary_and3(2, 2), 2);
    assert_eq!(ternary_and3(0, 2), 0);
    assert_eq!(ternary_and3(1, 2), 1);
    assert_eq!(ternary_and3(255, 2), 1);
}

#[test]
fn adapter_or3_codes() {
    assert_eq!(ternary_or3(2, 0), 2);
    assert_eq!(ternary_or3(0, 0), 0);
    assert_eq!(ternary_or3(1, 0), 1);
    assert_eq!(ternary_or3(0, 9), 1);
}

#[test]
fn adapter_decide_codes() {
    assert_eq!(ternary_decide(990_000, 50_000), 2);
    assert_eq!(ternary_decide(10_000, 50_000), 0);
    assert_eq!(ternary_decide(500_000, 50_000), 1);
}
