//! The properties the library promises across its operations, each proved
//! once and for all: messages are total and embed their payloads, attachment
//! replaces rather than accumulates, and the rendered form shows the
//! `"Near:"` marker exactly when source nodes are attached.

use crate::errors::attach_model;
use crate::errors::kind_seq;
use crate::errors::message_seq;
use crate::errors::new_model;
use crate::errors::render_seq;
use crate::errors::ErrorModel;
use crate::errors::ParseError;
use crate::errors::ParseErrors;
use crate::representations::nodes_seq;
use crate::representations::PreSymbolicExpression;
use crate::text::dec_seq;
use crate::text::join_seq;
use crate::text::lemma_contains_end;
use crate::text::lemma_contains_lift_left;
use crate::text::lemma_contains_lift_right;
use crate::text::lemma_contains_middle;
use crate::text::lemma_join_contains;
use crate::text::seq_contains;
use crate::text::views_of;
use vstd::prelude::*;

verus! {

/// Every failure kind has a non-empty message.
pub proof fn lemma_message_nonempty(k: ParseErrors)
    ensures
        message_seq(k).len() > 0,
{
    reveal_strlit("used up cost budget during the parse");
    reveal_strlit("used up cost budget during the parse: ");
    reveal_strlit("used up memory budget during the parse: ");
    reveal_strlit("too many expressions");
    reveal_strlit("AST has too deep of an expression nesting. The maximum stack depth is ");
    reveal_strlit("failed to capture value from input");
    reveal_strlit("expected whitespace or a close parens. Found: '");
    reveal_strlit("whitespace expected after colon (:), Found: '");
    reveal_strlit("program too large to parse");
    reveal_strlit("illegal variable name: '");
    reveal_strlit("illegal contract name: '");
    reveal_strlit("unknown 'quoted value '");
    reveal_strlit("failed to parse int literal '");
    reveal_strlit("invalid buffer literal: ");
    reveal_strlit("invalid hex-string literal ");
    reveal_strlit("invalid principal literal: ");
    reveal_strlit("invalid field literal: ");
    reveal_strlit("failed to lex input remainder: '");
    reveal_strlit("tried to close list which isn't open");
    reveal_strlit("list expressions (..) left opened");
    reveal_strlit("tried to close tuple literal which isn't open");
    reveal_strlit("tuple literal {..} left opened");
    reveal_strlit("detected interdependent functions (");
    reveal_strlit("tuple literal construction expects a colon at index ");
    reveal_strlit("tuple literal construction expects a comma at index ");
    reveal_strlit("tuple literal construction expects a key or value at index ");
    reveal_strlit("defining '");
    reveal_strlit("trait references can not be stored");
    reveal_strlit("(use-trait ...) expects a trait name and a trait identifier");
    reveal_strlit("(define-trait ...) expects a trait name and a trait definition");
    reveal_strlit("(impl-trait ...) expects a trait identifier");
    reveal_strlit("use of undeclared trait <");
    reveal_strlit("misplaced comma");
    reveal_strlit("misplaced colon");
    reveal_strlit("invalid characters detected");
    reveal_strlit("invalid escaping detected in string");
}

/// The message of a payload-bearing kind embeds a textual representation of
/// each payload field: tokens and names verbatim, indices and budget
/// magnitudes in decimal.
pub proof fn lemma_message_shows_payload(k: ParseErrors)
    ensures
        k matches ParseErrors::CostBalanceExceeded(bal, used) ==> seq_contains(
            message_seq(k),
            dec_seq(bal as nat),
        ) && seq_contains(message_seq(k), dec_seq(used as nat)),
        k matches ParseErrors::MemoryBalanceExceeded(bal, used) ==> seq_contains(
            message_seq(k),
            dec_seq(bal as nat),
        ) && seq_contains(message_seq(k), dec_seq(used as nat)),
        k matches ParseErrors::SeparatorExpected(found) ==> seq_contains(message_seq(k), found@),
        k matches ParseErrors::SeparatorExpectedAfterColon(found) ==> seq_contains(
            message_seq(k),
            found@,
        ),
        k matches ParseErrors::IllegalVariableName(name) ==> seq_contains(message_seq(k), name@),
        k matches ParseErrors::IllegalContractName(name) ==> seq_contains(message_seq(k), name@),
        k matches ParseErrors::UnknownQuotedValue(value) ==> seq_contains(message_seq(k), value@),
        k matches ParseErrors::FailedParsingIntValue(value) ==> seq_contains(
            message_seq(k),
            value@,
        ),
        k matches ParseErrors::FailedParsingBuffer(value) ==> seq_contains(message_seq(k), value@),
        k matches ParseErrors::FailedParsingHexValue(value, x) ==> seq_contains(
            message_seq(k),
            value@,
        ) && seq_contains(message_seq(k), x@),
        k matches ParseErrors::FailedParsingPrincipal(value) ==> seq_contains(
            message_seq(k),
            value@,
        ),
        k matches ParseErrors::FailedParsingField(value) ==> seq_contains(message_seq(k), value@),
        k matches ParseErrors::FailedParsingRemainder(rem) ==> seq_contains(message_seq(k), rem@),
        k matches ParseErrors::CircularReference(names) ==> forall|j: int|
            0 <= j < names@.len() ==> seq_contains(message_seq(k), #[trigger] names@[j]@),
        k matches ParseErrors::TupleColonExpected(i) ==> seq_contains(
            message_seq(k),
            dec_seq(i as nat),
        ),
        k matches ParseErrors::TupleCommaExpected(i) ==> seq_contains(
            message_seq(k),
            dec_seq(i as nat),
        ),
        k matches ParseErrors::TupleItemExpected(i) ==> seq_contains(
            message_seq(k),
            dec_seq(i as nat),
        ),
        k matches ParseErrors::NameAlreadyUsed(name) ==> seq_contains(message_seq(k), name@),
        k matches ParseErrors::TraitReferenceUnknown(name) ==> seq_contains(message_seq(k), name@),
{
    match k {
        ParseErrors::CostBalanceExceeded(bal, used) => {
            let a = "used up cost budget during the parse: "@;
            let db = dec_seq(bal as nat);
            let du = dec_seq(used as nat);
            lemma_contains_middle(a, db, " balance, "@);
            lemma_contains_lift_right(a + db + " balance, "@, du, db);
            lemma_contains_lift_right(a + db + " balance, "@ + du, " used"@, db);
            lemma_contains_middle(a + db + " balance, "@, du, " used"@);
        },
        ParseErrors::MemoryBalanceExceeded(bal, used) => {
            let a = "used up memory budget during the parse: "@;
            let db = dec_seq(bal as nat);
            let du = dec_seq(used as nat);
            lemma_contains_middle(a, db, " balance, "@);
            lemma_contains_lift_right(a + db + " balance, "@, du, db);
            lemma_contains_lift_right(a + db + " balance, "@ + du, " used"@, db);
            lemma_contains_middle(a + db + " balance, "@, du, " used"@);
        },
        ParseErrors::SeparatorExpected(found) => {
            lemma_contains_middle("expected whitespace or a close parens. Found: '"@, found@, "'"@);
        },
        ParseErrors::SeparatorExpectedAfterColon(found) => {
            lemma_contains_middle("whitespace expected after colon (:), Found: '"@, found@, "'"@);
        },
        ParseErrors::IllegalVariableName(name) => {
            lemma_contains_middle("illegal variable name: '"@, name@, "'"@);
        },
        ParseErrors::IllegalContractName(name) => {
            lemma_contains_middle("illegal contract name: '"@, name@, "'"@);
        },
        ParseErrors::UnknownQuotedValue(value) => {
            lemma_contains_middle("unknown 'quoted value '"@, value@, "'"@);
        },
        ParseErrors::FailedParsingIntValue(value) => {
            lemma_contains_middle("failed to parse int literal '"@, value@, "'"@);
        },
        ParseErrors::FailedParsingBuffer(value) => {
            lemma_contains_end("invalid buffer literal: "@, value@);
        },
        ParseErrors::FailedParsingHexValue(value, x) => {
            let a = "invalid hex-string literal "@;
            lemma_contains_middle(a, value@, ": "@);
            lemma_contains_lift_right(a + value@ + ": "@, x@, value@);
            lemma_contains_end(a + value@ + ": "@, x@);
        },
        ParseErrors::FailedParsingPrincipal(value) => {
            lemma_contains_end("invalid principal literal: "@, value@);
        },
        ParseErrors::FailedParsingField(value) => {
            lemma_contains_end("invalid field literal: "@, value@);
        },
        ParseErrors::FailedParsingRemainder(rem) => {
            lemma_contains_middle("failed to lex input remainder: '"@, rem@, "'"@);
        },
        ParseErrors::CircularReference(names) => {
            let a = "detected interdependent functions ("@;
            let joined = join_seq(views_of(names@), ", "@);
            assert forall|j: int| 0 <= j < names@.len() implies seq_contains(
                message_seq(k),
                #[trigger] names@[j]@,
            ) by {
                lemma_join_contains(views_of(names@), ", "@, j);
                assert(views_of(names@)[j] == names@[j]@);
                lemma_contains_lift_left(a, joined, names@[j]@);
                lemma_contains_lift_right(a + joined, ")"@, names@[j]@);
            }
        },
        ParseErrors::TupleColonExpected(i) => {
            lemma_contains_end(
                "tuple literal construction expects a colon at index "@,
                dec_seq(i as nat),
            );
        },
        ParseErrors::TupleCommaExpected(i) => {
            lemma_contains_end(
                "tuple literal construction expects a comma at index "@,
                dec_seq(i as nat),
            );
        },
        ParseErrors::TupleItemExpected(i) => {
            lemma_contains_end(
                "tuple literal construction expects a key or value at index "@,
                dec_seq(i as nat),
            );
        },
        ParseErrors::NameAlreadyUsed(name) => {
            lemma_contains_middle("defining '"@, name@, "' conflicts with previous value"@);
        },
        ParseErrors::TraitReferenceUnknown(name) => {
            lemma_contains_middle("use of undeclared trait <"@, name@, ">"@);
        },
        _ => {},
    }
}

/// Construction attaches nothing; attaching makes exactly the given nodes
/// and their spans observable; attaching again leaves only the contents of
/// the second call — replacement, never accumulation.
pub proof fn lemma_attachment_replaces(
    m: ErrorModel,
    first: Seq<PreSymbolicExpression>,
    second: Seq<PreSymbolicExpression>,
)
    ensures
        new_model(m.kind).nodes is None,
        first.len() > 0 ==> attach_model(m, first).nodes == Some(first),
        first.len() > 0 ==> attach_model(m, first).spans == first.map_values(
            |p: PreSymbolicExpression| p.span,
        ),
        attach_model(attach_model(m, first), second) == attach_model(m, second),
{
    assert(attach_model(attach_model(m, first), second) =~= attach_model(m, second));
}

/// The rendered form of a failure with source nodes attached shows the
/// `"Near:"` marker.
pub proof fn lemma_render_marker_present(e: ParseError)
    requires
        e.pre_expressions is Some,
    ensures
        seq_contains(render_seq(e), "Near:"@),
{
    let v = e.pre_expressions.unwrap();
    let kindpart = kind_seq(e.err);
    let marker = "\nNear:\n"@;
    let needle = "Near:"@;
    reveal_strlit("\nNear:\n");
    reveal_strlit("Near:");
    let i: int = 1;
    assert(marker.subrange(i, i + needle.len()) =~= needle);
    lemma_contains_lift_left(kindpart, marker, needle);
    lemma_contains_lift_right(kindpart + marker, nodes_seq(v@), needle);
}

/// The rendered form of a failure without source nodes is the kind's
/// structural representation alone: wherever that representation is free of
/// the `"Near:"` marker — every payload-free kind, and every payload that
/// does not spell the marker itself — the marker is absent.
pub proof fn lemma_render_marker_absent(e: ParseError)
    requires
        e.pre_expressions is None,
        !seq_contains(kind_seq(e.err), "Near:"@),
    ensures
        !seq_contains(render_seq(e), "Near:"@),
{
}

} // verus!
