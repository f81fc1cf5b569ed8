//! Source positions and diagnostics.
use vstd::prelude::*;
use vstd::string::*;

verus! {

/// An opaque identifier of a place in the source text.
#[derive(Clone, Copy, Debug, PartialEq, Eq, Structural)]
pub struct Span {
    pub id: u64,
}

impl Span {
    /// A span with the given identifier.
    pub fn new(id: u64) -> (r: Span)
        ensures
            r.id == id,
    {
        Span { id }
    }
}

/// An error with a message, attached to a place in the source.
#[derive(Clone, Debug, PartialEq)]
pub struct SourceDiagnostic {
    pub span: Span,
    pub message: String,
    /// Suggestions for fixing the error.
    pub hints: Vec<String>,
}

impl SourceDiagnostic {
    /// A diagnostic at `span` whose message is `message`.
    pub fn error(span: Span, message: &str) -> (r: SourceDiagnostic)
        ensures
            r.span == span,
            r.message@ == message@,
            r.hints@.len() == 0,
    {
        SourceDiagnostic { span, message: String::from_str(message), hints: Vec::new() }
    }

    /// A diagnostic at `span` whose message is `message`, without hints.
    pub fn with_message(span: Span, message: String) -> (r: SourceDiagnostic)
        ensures
            r.span == span,
            r.message == message,
            r.hints@.len() == 0,
    {
        SourceDiagnostic { span, message, hints: Vec::new() }
    }
}

} // verus!
