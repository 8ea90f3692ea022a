use clarity_errors::diagnostic::DiagnosableError;
use clarity_errors::errors::ParseErrors;

#[test]
fn budget_messages() {
    assert_eq!(
        ParseErrors::CostOverflow.message(),
        "used up cost budget during the parse"
    );
    assert_eq!(
        ParseErrors::CostBalanceExceeded(100, 150).message(),
        "used up cost budget during the parse: 100 balance, 150 used"
    );
    assert_eq!(
        ParseErrors::MemoryBalanceExceeded(100, 150).message(),
        "used up memory budget during the parse: 100 balance, 150 used"
    );
}

#[test]
fn budget_message_extreme_magnitudes() {
    assert_eq!(
        ParseErrors::CostBalanceExceeded(u64::MAX, 0).message(),
        "used up cost budget during the parse: 18446744073709551615 balance, 0 used"
    );
}

#[test]
fn size_limit_messages() {
    assert_eq!(ParseErrors::TooManyExpressions.message(), "too many expressions");
    assert_eq!(ParseErrors::ProgramTooLarge.message(), "program too large to parse");
    assert_eq!(
        ParseErrors::ExpressionStackDepthTooDeep.message(),
        "AST has too deep of an expression nesting. The maximum stack depth is 64"
    );
}

#[test]
fn lexical_messages() {
    assert_eq!(
        ParseErrors::FailedCapturingInput.message(),
        "failed to capture value from input"
    );
    assert_eq!(
        ParseErrors::UnknownQuotedValue("abc".to_string()).message(),
        "unknown 'quoted value 'abc'"
    );
    assert_eq!(
        ParseErrors::FailedParsingIntValue("12x".to_string()).message(),
        "failed to parse int literal '12x'"
    );
    assert_eq!(
        ParseErrors::FailedParsingBuffer("0b12".to_string()).message(),
        "invalid buffer literal: 0b12"
    );
    assert_eq!(
        ParseErrors::FailedParsingHexValue("0xZZ".to_string(), "bad digit".to_string()).message(),
        "invalid hex-string literal 0xZZ: bad digit"
    );
    assert_eq!(
        ParseErrors::FailedParsingPrincipal("SP000".to_string()).message(),
        "invalid principal literal: SP000"
    );
    assert_eq!(
        ParseErrors::FailedParsingField("f.g".to_string()).message(),
        "invalid field literal: f.g"
    );
    assert_eq!(
        ParseErrors::FailedParsingRemainder(")))".to_string()).message(),
        "failed to lex input remainder: ')))'"
    );
    assert_eq!(
        ParseErrors::InvalidCharactersDetected.message(),
        "invalid characters detected"
    );
    assert_eq!(
        ParseErrors::InvalidEscaping.message(),
        "invalid escaping detected in string"
    );
}

#[test]
fn structural_messages() {
    assert_eq!(
        ParseErrors::SeparatorExpected("x".to_string()).message(),
        "expected whitespace or a close parens. Found: 'x'"
    );
    assert_eq!(
        ParseErrors::SeparatorExpectedAfterColon("y".to_string()).message(),
        "whitespace expected after colon (:), Found: 'y'"
    );
    assert_eq!(
        ParseErrors::ClosingParenthesisUnexpected.message(),
        "tried to close list which isn't open"
    );
    assert_eq!(
        ParseErrors::ClosingParenthesisExpected.message(),
        "list expressions (..) left opened"
    );
    assert_eq!(
        ParseErrors::ClosingTupleLiteralUnexpected.message(),
        "tried to close tuple literal which isn't open"
    );
    assert_eq!(
        ParseErrors::ClosingTupleLiteralExpected.message(),
        "tuple literal {..} left opened"
    );
    assert_eq!(
        ParseErrors::TupleColonExpected(3).message(),
        "tuple literal construction expects a colon at index 3"
    );
    assert_eq!(
        ParseErrors::TupleCommaExpected(17).message(),
        "tuple literal construction expects a comma at index 17"
    );
    assert_eq!(
        ParseErrors::TupleItemExpected(0).message(),
        "tuple literal construction expects a key or value at index 0"
    );
    assert_eq!(ParseErrors::CommaSeparatorUnexpected.message(), "misplaced comma");
    assert_eq!(ParseErrors::ColonSeparatorUnexpected.message(), "misplaced colon");
}

#[test]
fn naming_messages() {
    assert_eq!(
        ParseErrors::IllegalVariableName("let".to_string()).message(),
        "illegal variable name: 'let'"
    );
    assert_eq!(
        ParseErrors::IllegalContractName("bad name".to_string()).message(),
        "illegal contract name: 'bad name'"
    );
    assert_eq!(
        ParseErrors::NameAlreadyUsed("dup".to_string()).message(),
        "defining 'dup' conflicts with previous value"
    );
}

#[test]
fn trait_messages() {
    assert_eq!(
        ParseErrors::ImportTraitBadSignature.message(),
        "(use-trait ...) expects a trait name and a trait identifier"
    );
    assert_eq!(
        ParseErrors::DefineTraitBadSignature.message(),
        "(define-trait ...) expects a trait name and a trait definition"
    );
    assert_eq!(
        ParseErrors::ImplTraitBadSignature.message(),
        "(impl-trait ...) expects a trait identifier"
    );
    assert_eq!(
        ParseErrors::TraitReferenceNotAllowed.message(),
        "trait references can not be stored"
    );
    assert_eq!(
        ParseErrors::TraitReferenceUnknown("tok".to_string()).message(),
        "use of undeclared trait <tok>"
    );
}

#[test]
fn circular_reference_message_joins_names() {
    assert_eq!(
        ParseErrors::CircularReference(vec!["f".to_string(), "g".to_string()]).message(),
        "detected interdependent functions (f, g)"
    );
    assert_eq!(
        ParseErrors::CircularReference(vec!["f".to_string()]).message(),
        "detected interdependent functions (f)"
    );
    assert_eq!(
        ParseErrors::CircularReference(vec![
            "a".to_string(),
            "b".to_string(),
            "c".to_string()
        ])
        .message(),
        "detected interdependent functions (a, b, c)"
    );
}

#[test]
fn no_kind_carries_a_suggestion() {
    assert_eq!(ParseErrors::CostOverflow.suggestion(), None);
    assert_eq!(ParseErrors::TooManyExpressions.suggestion(), None);
    assert_eq!(
        ParseErrors::FailedParsingIntValue("12x".to_string()).suggestion(),
        None
    );
    assert_eq!(
        ParseErrors::CircularReference(vec!["f".to_string()]).suggestion(),
        None
    );
}
