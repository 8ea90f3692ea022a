//! Position and human-message carrier of a failure, independent of the
//! taxonomy's semantics: a source span, the diagnostic that couples a message
//! with zero or more spans, and the message/suggestion contract every failure
//! kind satisfies.

use crate::text::dec_seq;
use crate::text::u64_to_dec;
use vstd::prelude::*;

verus! {

use vstd::string::StringExecFns;

/// Positional reference into the original input: an inclusive range of
/// line/column coordinates. A span has no identity beyond its coordinates.
#[derive(Debug, Clone, Copy, PartialEq, Eq)]
pub struct Span {
    pub start_line: u32,
    pub start_column: u32,
    pub end_line: u32,
    pub end_column: u32,
}

/// The structural rendering of a span: `(start_line:start_column)-(end_line:end_column)`.
pub open spec fn span_seq(s: Span) -> Seq<char> {
    "("@ + dec_seq(s.start_line as nat) + ":"@ + dec_seq(s.start_column as nat) + ")-("@ + dec_seq(
        s.end_line as nat,
    ) + ":"@ + dec_seq(s.end_column as nat) + ")"@
}

impl Span {
    /// Renders the span structurally.
    pub fn render(&self) -> (r: String)
        ensures
            r@ == span_seq(*self),
    {
        let mut r = String::new();
        r.append("(");
        r.append(u64_to_dec(self.start_line as u64).as_str());
        r.append(":");
        r.append(u64_to_dec(self.start_column as u64).as_str());
        r.append(")-(");
        r.append(u64_to_dec(self.end_line as u64).as_str());
        r.append(":");
        r.append(u64_to_dec(self.end_column as u64).as_str());
        r.append(")");
        r
    }
}

/// The message/suggestion contract a failure kind satisfies: a total
/// human-readable message, and an optional remediation suggestion.
pub trait DiagnosableError {
    /// The characters of the human-readable message.
    spec fn message_spec(&self) -> Seq<char>;

    /// The characters of the remediation suggestion, where the kind has one.
    spec fn suggestion_spec(&self) -> Option<Seq<char>>;

    /// Produces the human-readable message.
    fn message(&self) -> (r: String)
        ensures
            r@ == self.message_spec(),
    ;

    /// Produces the remediation suggestion, where the kind has one.
    fn suggestion(&self) -> (r: Option<String>)
        ensures
            match r {
                Some(s) => self.suggestion_spec() matches Some(t) && s@ == t,
                None => self.suggestion_spec() is None,
            },
    ;
}

/// Message and positions of one failure. The spans are kept in lock-step with
/// the source nodes attached to the owning failure value: they are never
/// filled independently.
#[derive(Debug, PartialEq)]
pub struct Diagnostic {
    pub message: String,
    pub spans: Vec<Span>,
    pub suggestion: Option<String>,
}

impl Diagnostic {
    /// Builds the diagnostic of a fresh failure: the kind's message, no spans
    /// yet, and the kind's suggestion.
    pub fn err<E: DiagnosableError>(e: &E) -> (d: Diagnostic)
        ensures
            d.message@ == e.message_spec(),
            d.spans@ == Seq::<Span>::empty(),
            match d.suggestion {
                Some(s) => e.suggestion_spec() matches Some(t) && s@ == t,
                None => e.suggestion_spec() is None,
            },
    {
        Diagnostic { message: e.message(), spans: Vec::new(), suggestion: e.suggestion() }
    }
}

} // verus!
