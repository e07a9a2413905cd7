//! Diagnostics: the taxonomy of warnings and errors the transform can
//! report, each carrying the span of the node it concerns. Diagnostics
//! are values handed back to the caller, never global state.
use vstd::prelude::*;
use crate::ast::Span;

verus! {

/// How serious a diagnostic is. Warnings mark nodes that are skipped;
/// errors mark malformed markers (which are still registered, with a
/// null default).
#[derive(Clone, Copy, PartialEq, Eq, Structural, Debug)]
pub enum Severity {
    Warning,
    Error,
}

/// What went wrong at a marker element.
#[derive(Clone, Copy, PartialEq, Eq, Structural, Debug)]
pub enum DiagKind {
    /// The marker has no `uri` attribute; it is skipped.
    MissingIdentifier,
    /// The `uri` attribute's value is not statically known; the marker
    /// is skipped.
    NonStaticIdentifier,
    /// The single meaningful child is neither text nor an expression
    /// container; the default value is dropped.
    MalformedChildShape,
    /// The marker has more than one meaningful child; the default value
    /// is dropped.
    TooManyChildren,
}

/// One reported problem.
#[derive(Clone, Copy, PartialEq, Eq, Structural, Debug)]
pub struct Diagnostic {
    pub kind: DiagKind,
    pub span: Span,
}

/// The severity of each kind.
pub open spec fn spec_severity(k: DiagKind) -> Severity {
    match k {
        DiagKind::MissingIdentifier => Severity::Warning,
        DiagKind::NonStaticIdentifier => Severity::Warning,
        DiagKind::MalformedChildShape => Severity::Error,
        DiagKind::TooManyChildren => Severity::Error,
    }
}

impl Diagnostic {
    /// The severity of this diagnostic.
    pub fn severity(&self) -> (r: Severity)
        ensures
            r == spec_severity(self.kind),
    {
        match self.kind {
            DiagKind::MissingIdentifier => Severity::Warning,
            DiagKind::NonStaticIdentifier => Severity::Warning,
            DiagKind::MalformedChildShape => Severity::Error,
            DiagKind::TooManyChildren => Severity::Error,
        }
    }

    /// The human-readable message of this diagnostic.
    pub fn message(&self) -> (r: String)
        ensures
            self.kind == DiagKind::MissingIdentifier ==> r@ == "not prefetched because no `uri` attribute was found"@,
            self.kind == DiagKind::NonStaticIdentifier ==> r@ == "`uri` attribute must be known at build time for the node to be prefetched"@,
            self.kind == DiagKind::MalformedChildShape ==> r@ == "<Node /> must have text or an expression as its child"@,
            self.kind == DiagKind::TooManyChildren ==> r@ == "<Node /> cannot have more than one child"@,
    {
        match self.kind {
            DiagKind::MissingIdentifier => "not prefetched because no `uri` attribute was found".to_string(),
            DiagKind::NonStaticIdentifier => "`uri` attribute must be known at build time for the node to be prefetched".to_string(),
            DiagKind::MalformedChildShape => "<Node /> must have text or an expression as its child".to_string(),
            DiagKind::TooManyChildren => "<Node /> cannot have more than one child".to_string(),
        }
    }
}

} // verus!
