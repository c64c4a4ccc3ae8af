//! Diagnostics: what went wrong, and where in the source it was found.

use vstd::prelude::*;
use vstd::string::StringExecFns;

verus! {

/// A half-open range of source positions.
#[derive(Clone, Copy, Debug, PartialEq, Eq, Structural)]
pub struct Span {
    pub lo: u64,
    pub hi: u64,
}

/// Every way in which one run of the generator can fail.
#[derive(Clone, Copy, Debug, PartialEq, Eq, Structural)]
pub enum ErrorKind {
    InvalidOption,
    ConflictingOption,
    MissingRequiredOption,
    UnnamedMember,
    UnsupportedFields,
    InvalidBuilderConfig,
    GenericsNormalizationFailure,
}

/// A failure together with the place it is pinned to.
#[derive(Clone, Copy, Debug, PartialEq, Eq, Structural)]
pub struct Diagnostic {
    pub kind: ErrorKind,
    pub span: Span,
}

/// The text shown to the user for each kind of failure.
pub open spec fn message_text(kind: ErrorKind) -> Seq<char> {
    match kind {
        ErrorKind::InvalidOption => "Unknown option"@,
        ErrorKind::ConflictingOption => "These options are mutually exclusive"@,
        ErrorKind::MissingRequiredOption => "This option requires another option that is absent"@,
        ErrorKind::UnnamedMember =>
            "Only structs with named fields are supported. Please name all fields of the struct"@,
        ErrorKind::UnsupportedFields => "Only structs with named fields are supported"@,
        ErrorKind::InvalidBuilderConfig => "Invalid builder configuration"@,
        ErrorKind::GenericsNormalizationFailure => "Cannot resolve the self type"@,
    }
}

/// The diagnostic of the given kind at the given place.
pub open spec fn fail(kind: ErrorKind, span: Span) -> Diagnostic {
    Diagnostic { kind, span }
}

impl Diagnostic {
    pub fn new(kind: ErrorKind, span: Span) -> (d: Diagnostic)
        ensures
            d.kind == kind,
            d.span == span,
    {
        Diagnostic { kind, span }
    }

    /// The human-readable message of this diagnostic.
    pub fn message(&self) -> (text: String)
        ensures
            text@ == message_text(self.kind),
    {
        match self.kind {
            ErrorKind::InvalidOption => String::from_str("Unknown option"),
            ErrorKind::ConflictingOption => String::from_str(
                "These options are mutually exclusive",
            ),
            ErrorKind::MissingRequiredOption => String::from_str(
                "This option requires another option that is absent",
            ),
            ErrorKind::UnnamedMember => String::from_str(
                "Only structs with named fields are supported. Please name all fields of the struct",
            ),
            ErrorKind::UnsupportedFields => String::from_str(
                "Only structs with named fields are supported",
            ),
            ErrorKind::InvalidBuilderConfig => String::from_str("Invalid builder configuration"),
            ErrorKind::GenericsNormalizationFailure => String::from_str(
                "Cannot resolve the self type",
            ),
        }
    }
}

} // verus!
