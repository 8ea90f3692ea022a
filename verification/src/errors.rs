//! The parse-failure taxonomy and its wrapper: every distinguishable
//! parse-time failure with exactly the payload its message needs, the
//! diagnostic kept in lock-step with the attached source nodes, and the
//! one-way bridge from budget-exhaustion signals into the taxonomy.

use crate::costs::CostErrors;
use crate::diagnostic::DiagnosableError;
use crate::diagnostic::Diagnostic;
use crate::diagnostic::Span;
use crate::text::dec_seq;
use crate::text::join_quoted;
use crate::text::join_seq;
use crate::text::join_strings;
use crate::text::quoted_views;
use crate::text::u64_to_dec;
use crate::text::usize_to_dec;
use crate::text::views_of;
use crate::representations::nodes_seq;
use crate::representations::render_nodes;
use crate::representations::PreSymbolicExpression;
use vstd::prelude::*;

verus! {

use vstd::string::StringExecFns;

/// Deepest expression nesting the parser accepts before it fails with
/// `ExpressionStackDepthTooDeep`.
pub const MAX_CALL_STACK_DEPTH: u64 = 64;

/// Closed taxonomy of parse-time failures. Each variant carries the minimal
/// payload needed to render a precise message: an offending token or name,
/// a position within a tuple literal, a pair of budget magnitudes, or the
/// names of interdependent functions.
#[derive(Debug, PartialEq)]
pub enum ParseErrors {
    CostOverflow,
    CostBalanceExceeded(u64, u64),
    MemoryBalanceExceeded(u64, u64),
    TooManyExpressions,
    ExpressionStackDepthTooDeep,
    FailedCapturingInput,
    SeparatorExpected(String),
    SeparatorExpectedAfterColon(String),
    ProgramTooLarge,
    IllegalVariableName(String),
    IllegalContractName(String),
    UnknownQuotedValue(String),
    FailedParsingIntValue(String),
    FailedParsingBuffer(String),
    FailedParsingHexValue(String, String),
    FailedParsingPrincipal(String),
    FailedParsingField(String),
    FailedParsingRemainder(String),
    ClosingParenthesisUnexpected,
    ClosingParenthesisExpected,
    ClosingTupleLiteralUnexpected,
    ClosingTupleLiteralExpected,
    CircularReference(Vec<String>),
    TupleColonExpected(usize),
    TupleCommaExpected(usize),
    TupleItemExpected(usize),
    NameAlreadyUsed(String),
    TraitReferenceNotAllowed,
    ImportTraitBadSignature,
    DefineTraitBadSignature,
    ImplTraitBadSignature,
    TraitReferenceUnknown(String),
    CommaSeparatorUnexpected,
    ColonSeparatorUnexpected,
    InvalidCharactersDetected,
    InvalidEscaping,
}

/// The characters of the human-readable message of each failure kind.
/// Payloads are embedded verbatim: tokens and names quoted as the message
/// calls for, indices in decimal, budget pairs as
/// `<balance> balance, <used> used`.
pub open spec fn message_seq(k: ParseErrors) -> Seq<char> {
    match k {
        ParseErrors::CostOverflow => "used up cost budget during the parse"@,
        ParseErrors::CostBalanceExceeded(bal, used) => "used up cost budget during the parse: "@
            + dec_seq(bal as nat) + " balance, "@ + dec_seq(used as nat) + " used"@,
        ParseErrors::MemoryBalanceExceeded(bal, used) => "used up memory budget during the parse: "@
            + dec_seq(bal as nat) + " balance, "@ + dec_seq(used as nat) + " used"@,
        ParseErrors::TooManyExpressions => "too many expressions"@,
        ParseErrors::ExpressionStackDepthTooDeep => "AST has too deep of an expression nesting. The maximum stack depth is "@
            + dec_seq(MAX_CALL_STACK_DEPTH as nat),
        ParseErrors::FailedCapturingInput => "failed to capture value from input"@,
        ParseErrors::SeparatorExpected(found) => "expected whitespace or a close parens. Found: '"@
            + found@ + "'"@,
        ParseErrors::SeparatorExpectedAfterColon(found) => "whitespace expected after colon (:), Found: '"@
            + found@ + "'"@,
        ParseErrors::ProgramTooLarge => "program too large to parse"@,
        ParseErrors::IllegalVariableName(var_name) => "illegal variable name: '"@ + var_name@
            + "'"@,
        ParseErrors::IllegalContractName(contract_name) => "illegal contract name: '"@
            + contract_name@ + "'"@,
        ParseErrors::UnknownQuotedValue(value) => "unknown 'quoted value '"@ + value@ + "'"@,
        ParseErrors::FailedParsingIntValue(value) => "failed to parse int literal '"@ + value@
            + "'"@,
        ParseErrors::FailedParsingBuffer(value) => "invalid buffer literal: "@ + value@,
        ParseErrors::FailedParsingHexValue(value, x) => "invalid hex-string literal "@ + value@
            + ": "@ + x@,
        ParseErrors::FailedParsingPrincipal(value) => "invalid principal literal: "@ + value@,
        ParseErrors::FailedParsingField(value) => "invalid field literal: "@ + value@,
        ParseErrors::FailedParsingRemainder(remainder) => "failed to lex input remainder: '"@
            + remainder@ + "'"@,
        ParseErrors::ClosingParenthesisUnexpected => "tried to close list which isn't open"@,
        ParseErrors::ClosingParenthesisExpected => "list expressions (..) left opened"@,
        ParseErrors::ClosingTupleLiteralUnexpected => "tried to close tuple literal which isn't open"@,
        ParseErrors::ClosingTupleLiteralExpected => "tuple literal {..} left opened"@,
        ParseErrors::CircularReference(function_names) => "detected interdependent functions ("@
            + join_seq(views_of(function_names@), ", "@) + ")"@,
        ParseErrors::TupleColonExpected(i) => "tuple literal construction expects a colon at index "@
            + dec_seq(i as nat),
        ParseErrors::TupleCommaExpected(i) => "tuple literal construction expects a comma at index "@
            + dec_seq(i as nat),
        ParseErrors::TupleItemExpected(i) => "tuple literal construction expects a key or value at index "@
            + dec_seq(i as nat),
        ParseErrors::NameAlreadyUsed(name) => "defining '"@ + name@
            + "' conflicts with previous value"@,
        ParseErrors::TraitReferenceNotAllowed => "trait references can not be stored"@,
        ParseErrors::ImportTraitBadSignature => "(use-trait ...) expects a trait name and a trait identifier"@,
        ParseErrors::DefineTraitBadSignature => "(define-trait ...) expects a trait name and a trait definition"@,
        ParseErrors::ImplTraitBadSignature => "(impl-trait ...) expects a trait identifier"@,
        ParseErrors::TraitReferenceUnknown(trait_name) => "use of undeclared trait <"@ + trait_name@
            + ">"@,
        ParseErrors::CommaSeparatorUnexpected => "misplaced comma"@,
        ParseErrors::ColonSeparatorUnexpected => "misplaced colon"@,
        ParseErrors::InvalidCharactersDetected => "invalid characters detected"@,
        ParseErrors::InvalidEscaping => "invalid escaping detected in string"@,
    }
}

/// The structural rendering of a failure kind: the variant's name, then its
/// payload, string payloads in double quotes, indices and magnitudes in
/// decimal, name lists between square brackets. This is the secondary, debug
/// form of a failure; `message_seq` is the primary human-readable surface.
pub open spec fn kind_seq(k: ParseErrors) -> Seq<char> {
    match k {
        ParseErrors::CostOverflow => "CostOverflow"@,
        ParseErrors::CostBalanceExceeded(bal, used) => "CostBalanceExceeded("@ + dec_seq(
            bal as nat,
        ) + ", "@ + dec_seq(used as nat) + ")"@,
        ParseErrors::MemoryBalanceExceeded(bal, used) => "MemoryBalanceExceeded("@ + dec_seq(
            bal as nat,
        ) + ", "@ + dec_seq(used as nat) + ")"@,
        ParseErrors::TooManyExpressions => "TooManyExpressions"@,
        ParseErrors::ExpressionStackDepthTooDeep => "ExpressionStackDepthTooDeep"@,
        ParseErrors::FailedCapturingInput => "FailedCapturingInput"@,
        ParseErrors::SeparatorExpected(found) => "SeparatorExpected(\""@ + found@ + "\")"@,
        ParseErrors::SeparatorExpectedAfterColon(found) => "SeparatorExpectedAfterColon(\""@
            + found@ + "\")"@,
        ParseErrors::ProgramTooLarge => "ProgramTooLarge"@,
        ParseErrors::IllegalVariableName(var_name) => "IllegalVariableName(\""@ + var_name@
            + "\")"@,
        ParseErrors::IllegalContractName(contract_name) => "IllegalContractName(\""@
            + contract_name@ + "\")"@,
        ParseErrors::UnknownQuotedValue(value) => "UnknownQuotedValue(\""@ + value@ + "\")"@,
        ParseErrors::FailedParsingIntValue(value) => "FailedParsingIntValue(\""@ + value@ + "\")"@,
        ParseErrors::FailedParsingBuffer(value) => "FailedParsingBuffer(\""@ + value@ + "\")"@,
        ParseErrors::FailedParsingHexValue(value, x) => "FailedParsingHexValue(\""@ + value@
            + "\", \""@ + x@ + "\")"@,
        ParseErrors::FailedParsingPrincipal(value) => "FailedParsingPrincipal(\""@ + value@
            + "\")"@,
        ParseErrors::FailedParsingField(value) => "FailedParsingField(\""@ + value@ + "\")"@,
        ParseErrors::FailedParsingRemainder(remainder) => "FailedParsingRemainder(\""@ + remainder@
            + "\")"@,
        ParseErrors::ClosingParenthesisUnexpected => "ClosingParenthesisUnexpected"@,
        ParseErrors::ClosingParenthesisExpected => "ClosingParenthesisExpected"@,
        ParseErrors::ClosingTupleLiteralUnexpected => "ClosingTupleLiteralUnexpected"@,
        ParseErrors::ClosingTupleLiteralExpected => "ClosingTupleLiteralExpected"@,
        ParseErrors::CircularReference(function_names) => "CircularReference(["@ + join_seq(
            quoted_views(function_names@),
            ", "@,
        ) + "])"@,
        ParseErrors::TupleColonExpected(i) => "TupleColonExpected("@ + dec_seq(i as nat) + ")"@,
        ParseErrors::TupleCommaExpected(i) => "TupleCommaExpected("@ + dec_seq(i as nat) + ")"@,
        ParseErrors::TupleItemExpected(i) => "TupleItemExpected("@ + dec_seq(i as nat) + ")"@,
        ParseErrors::NameAlreadyUsed(name) => "NameAlreadyUsed(\""@ + name@ + "\")"@,
        ParseErrors::TraitReferenceNotAllowed => "TraitReferenceNotAllowed"@,
        ParseErrors::ImportTraitBadSignature => "ImportTraitBadSignature"@,
        ParseErrors::DefineTraitBadSignature => "DefineTraitBadSignature"@,
        ParseErrors::ImplTraitBadSignature => "ImplTraitBadSignature"@,
        ParseErrors::TraitReferenceUnknown(trait_name) => "TraitReferenceUnknown(\""@ + trait_name@
            + "\")"@,
        ParseErrors::CommaSeparatorUnexpected => "CommaSeparatorUnexpected"@,
        ParseErrors::ColonSeparatorUnexpected => "ColonSeparatorUnexpected"@,
        ParseErrors::InvalidCharactersDetected => "InvalidCharactersDetected"@,
        ParseErrors::InvalidEscaping => "InvalidEscaping"@,
    }
}

impl ParseErrors {
    /// Renders the kind structurally: variant name plus payload.
    pub fn render(&self) -> (r: String)
        ensures
            r@ == kind_seq(*self),
    {
        match self {
            ParseErrors::CostOverflow => String::from_str("CostOverflow"),
            ParseErrors::CostBalanceExceeded(bal, used) => {
                let b = u64_to_dec(*bal);
                let u = u64_to_dec(*used);
                String::from_str("CostBalanceExceeded(").concat(b.as_str()).concat(", ").concat(
                    u.as_str(),
                ).concat(")")
            },
            ParseErrors::MemoryBalanceExceeded(bal, used) => {
                let b = u64_to_dec(*bal);
                let u = u64_to_dec(*used);
                String::from_str("MemoryBalanceExceeded(").concat(b.as_str()).concat(", ").concat(
                    u.as_str(),
                ).concat(")")
            },
            ParseErrors::TooManyExpressions => String::from_str("TooManyExpressions"),
            ParseErrors::ExpressionStackDepthTooDeep => String::from_str(
                "ExpressionStackDepthTooDeep",
            ),
            ParseErrors::FailedCapturingInput => String::from_str("FailedCapturingInput"),
            ParseErrors::SeparatorExpected(found) => String::from_str("SeparatorExpected(\"")
                .concat(found.as_str()).concat("\")"),
            ParseErrors::SeparatorExpectedAfterColon(found) => String::from_str(
                "SeparatorExpectedAfterColon(\"",
            ).concat(found.as_str()).concat("\")"),
            ParseErrors::ProgramTooLarge => String::from_str("ProgramTooLarge"),
            ParseErrors::IllegalVariableName(var_name) => String::from_str(
                "IllegalVariableName(\"",
            ).concat(var_name.as_str()).concat("\")"),
            ParseErrors::IllegalContractName(contract_name) => String::from_str(
                "IllegalContractName(\"",
            ).concat(contract_name.as_str()).concat("\")"),
            ParseErrors::UnknownQuotedValue(value) => String::from_str("UnknownQuotedValue(\"")
                .concat(value.as_str()).concat("\")"),
            ParseErrors::FailedParsingIntValue(value) => String::from_str(
                "FailedParsingIntValue(\"",
            ).concat(value.as_str()).concat("\")"),
            ParseErrors::FailedParsingBuffer(value) => String::from_str("FailedParsingBuffer(\"")
                .concat(value.as_str()).concat("\")"),
            ParseErrors::FailedParsingHexValue(value, x) => String::from_str(
                "FailedParsingHexValue(\"",
            ).concat(value.as_str()).concat("\", \"").concat(x.as_str()).concat("\")"),
            ParseErrors::FailedParsingPrincipal(value) => String::from_str(
                "FailedParsingPrincipal(\"",
            ).concat(value.as_str()).concat("\")"),
            ParseErrors::FailedParsingField(value) => String::from_str("FailedParsingField(\"")
                .concat(value.as_str()).concat("\")"),
            ParseErrors::FailedParsingRemainder(remainder) => String::from_str(
                "FailedParsingRemainder(\"",
            ).concat(remainder.as_str()).concat("\")"),
            ParseErrors::ClosingParenthesisUnexpected => String::from_str(
                "ClosingParenthesisUnexpected",
            ),
            ParseErrors::ClosingParenthesisExpected => String::from_str(
                "ClosingParenthesisExpected",
            ),
            ParseErrors::ClosingTupleLiteralUnexpected => String::from_str(
                "ClosingTupleLiteralUnexpected",
            ),
            ParseErrors::ClosingTupleLiteralExpected => String::from_str(
                "ClosingTupleLiteralExpected",
            ),
            ParseErrors::CircularReference(function_names) => {
                let joined = join_quoted(function_names, ", ");
                String::from_str("CircularReference([").concat(joined.as_str()).concat("])")
            },
            ParseErrors::TupleColonExpected(i) => {
                let d = usize_to_dec(*i);
                String::from_str("TupleColonExpected(").concat(d.as_str()).concat(")")
            },
            ParseErrors::TupleCommaExpected(i) => {
                let d = usize_to_dec(*i);
                String::from_str("TupleCommaExpected(").concat(d.as_str()).concat(")")
            },
            ParseErrors::TupleItemExpected(i) => {
                let d = usize_to_dec(*i);
                String::from_str("TupleItemExpected(").concat(d.as_str()).concat(")")
            },
            ParseErrors::NameAlreadyUsed(name) => String::from_str("NameAlreadyUsed(\"").concat(
                name.as_str(),
            ).concat("\")"),
            ParseErrors::TraitReferenceNotAllowed => String::from_str("TraitReferenceNotAllowed"),
            ParseErrors::ImportTraitBadSignature => String::from_str("ImportTraitBadSignature"),
            ParseErrors::DefineTraitBadSignature => String::from_str("DefineTraitBadSignature"),
            ParseErrors::ImplTraitBadSignature => String::from_str("ImplTraitBadSignature"),
            ParseErrors::TraitReferenceUnknown(trait_name) => String::from_str(
                "TraitReferenceUnknown(\"",
            ).concat(trait_name.as_str()).concat("\")"),
            ParseErrors::CommaSeparatorUnexpected => String::from_str("CommaSeparatorUnexpected"),
            ParseErrors::ColonSeparatorUnexpected => String::from_str("ColonSeparatorUnexpected"),
            ParseErrors::InvalidCharactersDetected => String::from_str("InvalidCharactersDetected"),
            ParseErrors::InvalidEscaping => String::from_str("InvalidEscaping"),
        }
    }
}

/// The remediation suggestion of each failure kind. No current kind carries
/// one; the shape leaves room for kinds that will.
pub open spec fn suggestion_seq(k: ParseErrors) -> Option<Seq<char>> {
    None
}

impl DiagnosableError for ParseErrors {
    open spec fn message_spec(&self) -> Seq<char> {
        message_seq(*self)
    }

    open spec fn suggestion_spec(&self) -> Option<Seq<char>> {
        suggestion_seq(*self)
    }

    fn message(&self) -> (r: String) {
        match self {
            ParseErrors::CostOverflow => String::from_str("used up cost budget during the parse"),
            ParseErrors::CostBalanceExceeded(bal, used) => {
                let b = u64_to_dec(*bal);
                let u = u64_to_dec(*used);
                String::from_str("used up cost budget during the parse: ").concat(b.as_str())
                    .concat(" balance, ").concat(u.as_str()).concat(" used")
            },
            ParseErrors::MemoryBalanceExceeded(bal, used) => {
                let b = u64_to_dec(*bal);
                let u = u64_to_dec(*used);
                String::from_str("used up memory budget during the parse: ").concat(b.as_str())
                    .concat(" balance, ").concat(u.as_str()).concat(" used")
            },
            ParseErrors::TooManyExpressions => String::from_str("too many expressions"),
            ParseErrors::ExpressionStackDepthTooDeep => {
                let d = u64_to_dec(MAX_CALL_STACK_DEPTH);
                String::from_str(
                    "AST has too deep of an expression nesting. The maximum stack depth is ",
                ).concat(d.as_str())
            },
            ParseErrors::FailedCapturingInput => String::from_str(
                "failed to capture value from input",
            ),
            ParseErrors::SeparatorExpected(found) => String::from_str(
                "expected whitespace or a close parens. Found: '",
            ).concat(found.as_str()).concat("'"),
            ParseErrors::SeparatorExpectedAfterColon(found) => String::from_str(
                "whitespace expected after colon (:), Found: '",
            ).concat(found.as_str()).concat("'"),
            ParseErrors::ProgramTooLarge => String::from_str("program too large to parse"),
            ParseErrors::IllegalVariableName(var_name) => String::from_str(
                "illegal variable name: '",
            ).concat(var_name.as_str()).concat("'"),
            ParseErrors::IllegalContractName(contract_name) => String::from_str(
                "illegal contract name: '",
            ).concat(contract_name.as_str()).concat("'"),
            ParseErrors::UnknownQuotedValue(value) => String::from_str(
                "unknown 'quoted value '",
            ).concat(value.as_str()).concat("'"),
            ParseErrors::FailedParsingIntValue(value) => String::from_str(
                "failed to parse int literal '",
            ).concat(value.as_str()).concat("'"),
            ParseErrors::FailedParsingBuffer(value) => String::from_str(
                "invalid buffer literal: ",
            ).concat(value.as_str()),
            ParseErrors::FailedParsingHexValue(value, x) => String::from_str(
                "invalid hex-string literal ",
            ).concat(value.as_str()).concat(": ").concat(x.as_str()),
            ParseErrors::FailedParsingPrincipal(value) => String::from_str(
                "invalid principal literal: ",
            ).concat(value.as_str()),
            ParseErrors::FailedParsingField(value) => String::from_str(
                "invalid field literal: ",
            ).concat(value.as_str()),
            ParseErrors::FailedParsingRemainder(remainder) => String::from_str(
                "failed to lex input remainder: '",
            ).concat(remainder.as_str()).concat("'"),
            ParseErrors::ClosingParenthesisUnexpected => String::from_str(
                "tried to close list which isn't open",
            ),
            ParseErrors::ClosingParenthesisExpected => String::from_str(
                "list expressions (..) left opened",
            ),
            ParseErrors::ClosingTupleLiteralUnexpected => String::from_str(
                "tried to close tuple literal which isn't open",
            ),
            ParseErrors::ClosingTupleLiteralExpected => String::from_str(
                "tuple literal {..} left opened",
            ),
            ParseErrors::CircularReference(function_names) => {
                let joined = join_strings(function_names, ", ");
                String::from_str("detected interdependent functions (").concat(joined.as_str())
                    .concat(")")
            },
            ParseErrors::TupleColonExpected(i) => {
                let d = usize_to_dec(*i);
                String::from_str("tuple literal construction expects a colon at index ").concat(
                    d.as_str(),
                )
            },
            ParseErrors::TupleCommaExpected(i) => {
                let d = usize_to_dec(*i);
                String::from_str("tuple literal construction expects a comma at index ").concat(
                    d.as_str(),
                )
            },
            ParseErrors::TupleItemExpected(i) => {
                let d = usize_to_dec(*i);
                String::from_str(
                    "tuple literal construction expects a key or value at index ",
                ).concat(d.as_str())
            },
            ParseErrors::NameAlreadyUsed(name) => String::from_str("defining '").concat(
                name.as_str(),
            ).concat("' conflicts with previous value"),
            ParseErrors::TraitReferenceNotAllowed => String::from_str(
                "trait references can not be stored",
            ),
            ParseErrors::ImportTraitBadSignature => String::from_str(
                "(use-trait ...) expects a trait name and a trait identifier",
            ),
            ParseErrors::DefineTraitBadSignature => String::from_str(
                "(define-trait ...) expects a trait name and a trait definition",
            ),
            ParseErrors::ImplTraitBadSignature => String::from_str(
                "(impl-trait ...) expects a trait identifier",
            ),
            ParseErrors::TraitReferenceUnknown(trait_name) => String::from_str(
                "use of undeclared trait <",
            ).concat(trait_name.as_str()).concat(">"),
            ParseErrors::CommaSeparatorUnexpected => String::from_str("misplaced comma"),
            ParseErrors::ColonSeparatorUnexpected => String::from_str("misplaced colon"),
            ParseErrors::InvalidCharactersDetected => String::from_str(
                "invalid characters detected",
            ),
            ParseErrors::InvalidEscaping => String::from_str("invalid escaping detected in string"),
        }
    }

    fn suggestion(&self) -> (r: Option<String>) {
        None
    }
}

/// Outcome of a parse step: a value, or the failure that ended the attempt.
pub type ParseResult<T> = Result<T, ParseError>;

/// Top-level failure value: the kind (immutable after construction), its
/// diagnostic, and the offending source nodes, absent until attached.
#[derive(Debug, PartialEq)]
pub struct ParseError {
    pub err: ParseErrors,
    pub pre_expressions: Option<Vec<PreSymbolicExpression>>,
    pub diagnostic: Diagnostic,
}

/// Mathematical model of a `ParseError`: the kind, the message and
/// suggestion characters, the attached nodes and the spans of the diagnostic.
#[verifier::ext_equal]
pub ghost struct ErrorModel {
    pub kind: ParseErrors,
    pub message: Seq<char>,
    pub suggestion: Option<Seq<char>>,
    pub nodes: Option<Seq<PreSymbolicExpression>>,
    pub spans: Seq<Span>,
}

impl View for ParseError {
    type V = ErrorModel;

    open spec fn view(&self) -> ErrorModel {
        ErrorModel {
            kind: self.err,
            message: self.diagnostic.message@,
            suggestion: match self.diagnostic.suggestion {
                Some(s) => Some(s@),
                None => None,
            },
            nodes: match self.pre_expressions {
                Some(v) => Some(v@),
                None => None,
            },
            spans: self.diagnostic.spans@,
        }
    }
}

/// The model of a failure fresh from construction: the kind's message and
/// suggestion, no nodes, no spans.
pub open spec fn new_model(k: ParseErrors) -> ErrorModel {
    ErrorModel {
        kind: k,
        message: message_seq(k),
        suggestion: suggestion_seq(k),
        nodes: None,
        spans: Seq::empty(),
    }
}

/// What either attachment operation leaves behind: the given nodes and their
/// spans replace whatever was attached before; an empty sequence counts as
/// nothing to attach and leaves the failure without nodes. Kind, message and
/// suggestion never change.
pub open spec fn attach_model(m: ErrorModel, nodes: Seq<PreSymbolicExpression>) -> ErrorModel {
    if nodes.len() == 0 {
        ErrorModel { nodes: None, spans: Seq::empty(), ..m }
    } else {
        ErrorModel {
            nodes: Some(nodes),
            spans: nodes.map_values(|p: PreSymbolicExpression| p.span),
            ..m
        }
    }
}

impl ParseError {
    /// The diagnostic carries exactly the kind's message and suggestion, and
    /// its spans mirror the attached nodes one to one; nodes, once attached,
    /// are never an empty sequence.
    pub open spec fn wf(self) -> bool {
        &&& self.diagnostic.message@ == message_seq(self.err)
        &&& match self.diagnostic.suggestion {
            Some(s) => suggestion_seq(self.err) matches Some(t) && s@ == t,
            None => suggestion_seq(self.err) is None,
        }
        &&& match self.pre_expressions {
            Some(v) => v@.len() > 0 && self.diagnostic.spans@ == v@.map_values(
                |p: PreSymbolicExpression| p.span,
            ),
            None => self.diagnostic.spans@ == Seq::<Span>::empty(),
        }
    }

    /// Builds the failure for `err`, its diagnostic derived fresh from the
    /// kind, with no source nodes attached.
    pub fn new(err: ParseErrors) -> (r: ParseError)
        ensures
            r.err == err,
            r.pre_expressions is None,
            r@ == new_model(err),
            r.wf(),
    {
        let diagnostic = Diagnostic::err(&err);
        let r = ParseError { err, pre_expressions: None, diagnostic };
        proof {
            assert(r@ =~= new_model(r.err));
        }
        r
    }

    /// True exactly when source nodes are attached.
    pub fn has_pre_expression(&self) -> (r: bool)
        ensures
            r == (self.pre_expressions is Some),
            r == (self@.nodes is Some),
    {
        self.pre_expressions.is_some()
    }

    /// Replaces the attached nodes with the single given node, and the
    /// diagnostic's spans with that node's span.
    pub fn set_pre_expression(&mut self, expr: &PreSymbolicExpression)
        ensures
            final(self)@ == attach_model(old(self)@, seq![*expr]),
            final(self).err == old(self).err,
            old(self).wf() ==> final(self).wf(),
    {
        let mut spans: Vec<Span> = Vec::new();
        spans.push(expr.span);
        let mut nodes: Vec<PreSymbolicExpression> = Vec::new();
        nodes.push(*expr);
        self.diagnostic.spans = spans;
        self.pre_expressions = Some(nodes);
        proof {
            assert(seq![*expr].map_values(|p: PreSymbolicExpression| p.span) =~= seq![expr.span]);
            assert(self@ =~= attach_model(old(self)@, seq![*expr]));
        }
    }

    /// Replaces the attached nodes with the given ordered sequence, and the
    /// diagnostic's spans with the corresponding spans in the same order. An
    /// empty sequence attaches nothing and leaves the failure without nodes.
    pub fn set_pre_expressions(&mut self, exprs: Vec<PreSymbolicExpression>)
        ensures
            final(self)@ == attach_model(old(self)@, exprs@),
            final(self).err == old(self).err,
            old(self).wf() ==> final(self).wf(),
    {
        if exprs.len() == 0 {
            self.diagnostic.spans = Vec::new();
            self.pre_expressions = None;
            proof {
                assert(self@ =~= attach_model(old(self)@, exprs@));
            }
        } else {
            let ghost f = |p: PreSymbolicExpression| p.span;
            let mut spans: Vec<Span> = Vec::new();
            let mut i: usize = 0;
            while i < exprs.len()
                invariant
                    i <= exprs.len(),
                    spans@ == exprs@.take(i as int).map_values(|p: PreSymbolicExpression| p.span),
                decreases exprs.len() - i,
            {
                spans.push(exprs[i].span);
                proof {
                    assert(exprs@.take(i as int + 1).map_values(
                        |p: PreSymbolicExpression| p.span,
                    ) =~= exprs@.take(i as int).map_values(
                        |p: PreSymbolicExpression| p.span,
                    ).push(exprs@[i as int].span));
                }
                i = i + 1;
            }
            proof {
                assert(exprs@.take(exprs@.len() as int) =~= exprs@);
            }
            self.diagnostic.spans = spans;
            self.pre_expressions = Some(exprs);
            proof {
                assert(self@ =~= attach_model(old(self)@, self.pre_expressions.unwrap()@));
            }
        }
    }

    /// Renders the failure: the kind's structural representation, and, only
    /// when source nodes are attached, the marker `"\nNear:\n"` followed by a
    /// structural rendering of the nodes. The kind's `message` stays the
    /// primary human-readable surface; this structural form is the secondary,
    /// log-friendly one.
    pub fn render(&self) -> (r: String)
        ensures
            r@ == render_seq(*self),
    {
        let mut r = self.err.render();
        match &self.pre_expressions {
            Some(v) => {
                r.append("\nNear:\n");
                let ns = render_nodes(v);
                r.append(ns.as_str());
            },
            None => {},
        }
        r
    }

    /// This taxonomy is always a root cause: there is never a nested,
    /// lower-level failure behind it.
    pub fn source(&self) -> (r: Option<&ParseError>)
        ensures
            r is None,
    {
        None
    }

    /// One-way bridge from a budget-exhaustion signal: the signal's shape and
    /// magnitudes carry over exactly, and no source nodes are attached.
    pub fn from_cost_error(err: CostErrors) -> (r: ParseError)
        ensures
            r.err == budget_kind(err),
            r@ == new_model(budget_kind(err)),
            r.wf(),
    {
        match err {
            CostErrors::CostOverflow => ParseError::new(ParseErrors::CostOverflow),
            CostErrors::CostBalanceExceeded(a, b) => ParseError::new(
                ParseErrors::CostBalanceExceeded(a, b),
            ),
            CostErrors::MemoryBalanceExceeded(a, b) => ParseError::new(
                ParseErrors::MemoryBalanceExceeded(a, b),
            ),
        }
    }
}

/// The characters `render` produces: the kind's structural representation,
/// then, exactly when source nodes are attached, the `"\nNear:\n"` marker and
/// the nodes' structural rendering.
pub open spec fn render_seq(e: ParseError) -> Seq<char> {
    match e.pre_expressions {
        None => kind_seq(e.err),
        Some(v) => kind_seq(e.err) + "\nNear:\n"@ + nodes_seq(v@),
    }
}

/// The failure kind a budget-exhaustion signal maps to: the same shape with
/// the same magnitudes.
pub open spec fn budget_kind(e: CostErrors) -> ParseErrors {
    match e {
        CostErrors::CostOverflow => ParseErrors::CostOverflow,
        CostErrors::CostBalanceExceeded(a, b) => ParseErrors::CostBalanceExceeded(a, b),
        CostErrors::MemoryBalanceExceeded(a, b) => ParseErrors::MemoryBalanceExceeded(a, b),
    }
}

} // verus!
