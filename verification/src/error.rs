//! Why a builder could not be planned.

use vstd::prelude::*;
use vstd::string::*;

verus! {

/// A definition that the library does not plan a builder for.
#[derive(Clone, Copy, Debug, PartialEq, Eq, Structural)]
pub enum Unsupported {
    /// One of the generic parameters is a lifetime.
    Lifetime,
    /// A struct whose fields have no names.
    UnnamedFields,
    /// An enum or a union.
    NotStruct,
}

/// A failure of planning. No declaration is produced beside it.
#[derive(Debug, PartialEq, Eq)]
pub enum Error {
    /// The attribute at position `attr` of field `field` is a `builder`
    /// directive that is not of the form `builder(each = "name")`.
    DirectiveSyntax { field: String, attr: usize },
    /// The definition is of a kind that is not supported.
    UnsupportedShape { reason: Unsupported },
}

/// Mathematical model of [`Error`].
pub enum ErrorView {
    DirectiveSyntax { field: Seq<char>, attr: int },
    UnsupportedShape { reason: Unsupported },
}

impl View for Error {
    type V = ErrorView;

    open spec fn view(&self) -> ErrorView {
        match self {
            Error::DirectiveSyntax { field, attr } => ErrorView::DirectiveSyntax {
                field: field@,
                attr: *attr as int,
            },
            Error::UnsupportedShape { reason } => ErrorView::UnsupportedShape { reason: *reason },
        }
    }
}

impl ErrorView {
    /// The text shown to the user.
    pub open spec fn message(self) -> Seq<char> {
        match self {
            ErrorView::DirectiveSyntax { .. } => "expected `builder(each = \"...\")`"@,
            ErrorView::UnsupportedShape { reason } => match reason {
                Unsupported::Lifetime => "lifetime parameters are not supported"@,
                Unsupported::UnnamedFields => "Only support named property"@,
                Unsupported::NotStruct => "support struct only"@,
            },
        }
    }
}

impl Error {
    /// The text shown to the user. For a directive it states the one form that
    /// is accepted.
    pub fn message(&self) -> (text: String)
        ensures
            text@ == self@.message(),
    {
        match self {
            Error::DirectiveSyntax { .. } => String::from_str("expected `builder(each = \"...\")`"),
            Error::UnsupportedShape { reason } => match reason {
                Unsupported::Lifetime => String::from_str("lifetime parameters are not supported"),
                Unsupported::UnnamedFields => String::from_str("Only support named property"),
                Unsupported::NotStruct => String::from_str("support struct only"),
            },
        }
    }
}

} // verus!
