use clarity_errors::diagnostic::Span;
use clarity_errors::errors::ParseError;
use clarity_errors::errors::ParseErrors;
use clarity_errors::representations::PreSymbolicExpression;

fn node(start_line: u32, start_column: u32, end_line: u32, end_column: u32)
    -> PreSymbolicExpression {
    PreSymbolicExpression {
        span: Span { start_line, start_column, end_line, end_column },
    }
}

#[test]
fn render_of_payload_free_kind_is_its_name() {
    assert_eq!(
        ParseError::new(ParseErrors::CostOverflow).render(),
        "CostOverflow"
    );
    assert_eq!(
        ParseError::new(ParseErrors::ClosingTupleLiteralExpected).render(),
        "ClosingTupleLiteralExpected"
    );
}

#[test]
fn render_shows_payloads_structurally() {
    assert_eq!(
        ParseError::new(ParseErrors::FailedParsingIntValue("12x".to_string())).render(),
        "FailedParsingIntValue(\"12x\")"
    );
    assert_eq!(
        ParseError::new(ParseErrors::TupleColonExpected(3)).render(),
        "TupleColonExpected(3)"
    );
    assert_eq!(
        ParseError::new(ParseErrors::CostBalanceExceeded(100, 150)).render(),
        "CostBalanceExceeded(100, 150)"
    );
    assert_eq!(
        ParseError::new(ParseErrors::FailedParsingHexValue(
            "0xZZ".to_string(),
            "bad digit".to_string()
        ))
        .render(),
        "FailedParsingHexValue(\"0xZZ\", \"bad digit\")"
    );
    assert_eq!(
        ParseError::new(ParseErrors::CircularReference(vec![
            "f".to_string(),
            "g".to_string()
        ]))
        .render(),
        "CircularReference([\"f\", \"g\"])"
    );
}

#[test]
fn render_without_nodes_has_no_near_marker() {
    let e = ParseError::new(ParseErrors::TooManyExpressions);
    assert!(!e.render().contains("Near:"));
}

#[test]
fn render_with_nodes_shows_near_marker() {
    let mut e = ParseError::new(ParseErrors::TooManyExpressions);
    e.set_pre_expression(&node(4, 1, 4, 5));
    assert!(e.render().contains("\nNear:\n"));
}

#[test]
fn render_shows_attached_span_after_near_marker() {
    let mut e = ParseError::new(ParseErrors::TooManyExpressions);
    e.set_pre_expression(&node(4, 1, 4, 5));
    let rendered = e.render();
    assert_eq!(rendered, "TooManyExpressions\nNear:\n[(4:1)-(4:5)]");
    let after_marker = rendered.find("Near:").map(|i| &rendered[i..]).unwrap();
    assert!(after_marker.contains("(4:1)-(4:5)"));
}

#[test]
fn render_lists_every_attached_node() {
    let mut e = ParseError::new(ParseErrors::ClosingParenthesisExpected);
    e.set_pre_expressions(vec![node(1, 1, 1, 3), node(2, 5, 2, 9)]);
    assert_eq!(
        e.render(),
        "ClosingParenthesisExpected\nNear:\n[(1:1)-(1:3), (2:5)-(2:9)]"
    );
}

#[test]
fn render_after_clearing_nodes_drops_the_marker() {
    let mut e = ParseError::new(ParseErrors::TooManyExpressions);
    e.set_pre_expression(&node(4, 1, 4, 5));
    e.set_pre_expressions(Vec::new());
    assert_eq!(e.render(), "TooManyExpressions");
}
