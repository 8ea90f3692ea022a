use clarity_errors::costs::CostErrors;
use clarity_errors::errors::ParseError;
use clarity_errors::errors::ParseErrors;

#[test]
fn overflow_signal_becomes_cost_overflow() {
    let e = ParseError::from_cost_error(CostErrors::CostOverflow);
    assert_eq!(e.err, ParseErrors::CostOverflow);
    assert_eq!(e.pre_expressions, None);
    assert_eq!(e.diagnostic.message, "used up cost budget during the parse");
}

#[test]
fn cost_signal_preserves_magnitudes() {
    let e = ParseError::from_cost_error(CostErrors::CostBalanceExceeded(3, 5));
    assert_eq!(e.err, ParseErrors::CostBalanceExceeded(3, 5));
    assert_eq!(
        e.diagnostic.message,
        "used up cost budget during the parse: 3 balance, 5 used"
    );
}

#[test]
fn memory_signal_preserves_magnitudes() {
    let e = ParseError::from_cost_error(CostErrors::MemoryBalanceExceeded(100, 150));
    assert_eq!(e.err, ParseErrors::MemoryBalanceExceeded(100, 150));
    assert_eq!(
        e.diagnostic.message,
        "used up memory budget during the parse: 100 balance, 150 used"
    );
}

#[test]
fn bridge_attaches_no_nodes() {
    let e = ParseError::from_cost_error(CostErrors::MemoryBalanceExceeded(1, 2));
    assert!(!e.has_pre_expression());
    assert_eq!(e.diagnostic.spans.len(), 0);
}
