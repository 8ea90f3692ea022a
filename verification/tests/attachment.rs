use clarity_errors::diagnostic::Span;
use clarity_errors::errors::ParseError;
use clarity_errors::errors::ParseErrors;
use clarity_errors::representations::PreSymbolicExpression;

fn span(start_line: u32, start_column: u32, end_line: u32, end_column: u32) -> Span {
    Span { start_line, start_column, end_line, end_column }
}

fn node(start_line: u32, start_column: u32, end_line: u32, end_column: u32)
    -> PreSymbolicExpression {
    PreSymbolicExpression { span: span(start_line, start_column, end_line, end_column) }
}

#[test]
fn construction_preserves_the_kind() {
    assert_eq!(
        ParseError::new(ParseErrors::TooManyExpressions).err,
        ParseErrors::TooManyExpressions
    );
    assert_eq!(
        ParseError::new(ParseErrors::FailedParsingIntValue("12x".to_string())).err,
        ParseErrors::FailedParsingIntValue("12x".to_string())
    );
    assert_eq!(
        ParseError::new(ParseErrors::MemoryBalanceExceeded(7, 9)).err,
        ParseErrors::MemoryBalanceExceeded(7, 9)
    );
    assert_eq!(
        ParseError::new(ParseErrors::CircularReference(vec!["f".to_string()])).err,
        ParseErrors::CircularReference(vec!["f".to_string()])
    );
}

#[test]
fn construction_derives_the_diagnostic_from_the_kind() {
    let e = ParseError::new(ParseErrors::FailedParsingIntValue("12x".to_string()));
    assert_eq!(e.diagnostic.message, "failed to parse int literal '12x'");
    assert_eq!(e.diagnostic.spans, Vec::<Span>::new());
    assert_eq!(e.diagnostic.suggestion, None);
}

#[test]
fn fresh_failure_has_no_pre_expression() {
    let e = ParseError::new(ParseErrors::TooManyExpressions);
    assert!(!e.has_pre_expression());
    assert_eq!(e.pre_expressions, None);
}

#[test]
fn attaching_one_node_sets_node_and_span() {
    let mut e = ParseError::new(ParseErrors::TooManyExpressions);
    let n = node(4, 1, 4, 5);
    e.set_pre_expression(&n);
    assert!(e.has_pre_expression());
    assert_eq!(e.pre_expressions, Some(vec![n]));
    assert_eq!(e.diagnostic.spans, vec![span(4, 1, 4, 5)]);
}

#[test]
fn attaching_many_nodes_keeps_spans_in_order() {
    let mut e = ParseError::new(ParseErrors::ClosingParenthesisExpected);
    let a = node(1, 1, 1, 3);
    let b = node(2, 5, 2, 9);
    e.set_pre_expressions(vec![a, b]);
    assert!(e.has_pre_expression());
    assert_eq!(e.pre_expressions, Some(vec![a, b]));
    assert_eq!(e.diagnostic.spans, vec![span(1, 1, 1, 3), span(2, 5, 2, 9)]);
}

#[test]
fn attaching_twice_keeps_only_the_second_set() {
    let mut e = ParseError::new(ParseErrors::TooManyExpressions);
    let first = node(1, 1, 1, 2);
    let second = node(3, 4, 3, 8);
    let third = node(5, 1, 5, 2);
    e.set_pre_expression(&first);
    e.set_pre_expressions(vec![second, third]);
    assert_eq!(e.pre_expressions, Some(vec![second, third]));
    assert_eq!(e.diagnostic.spans, vec![span(3, 4, 3, 8), span(5, 1, 5, 2)]);
    e.set_pre_expression(&first);
    assert_eq!(e.pre_expressions, Some(vec![first]));
    assert_eq!(e.diagnostic.spans, vec![span(1, 1, 1, 2)]);
}

#[test]
fn attaching_nothing_leaves_the_failure_without_nodes() {
    let mut e = ParseError::new(ParseErrors::TooManyExpressions);
    e.set_pre_expression(&node(4, 1, 4, 5));
    e.set_pre_expressions(Vec::new());
    assert!(!e.has_pre_expression());
    assert_eq!(e.pre_expressions, None);
    assert_eq!(e.diagnostic.spans, Vec::<Span>::new());
}

#[test]
fn attachment_never_changes_kind_or_message() {
    let mut e = ParseError::new(ParseErrors::FailedParsingIntValue("12x".to_string()));
    e.set_pre_expression(&node(4, 1, 4, 5));
    assert_eq!(e.err, ParseErrors::FailedParsingIntValue("12x".to_string()));
    assert_eq!(e.diagnostic.message, "failed to parse int literal '12x'");
}

#[test]
fn a_failure_is_a_root_cause() {
    let e = ParseError::new(ParseErrors::TooManyExpressions);
    assert!(e.source().is_none());
}
