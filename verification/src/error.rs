//! What the transformation rejects.
use crate::ast::token::Span;
use vstd::prelude::*;

verus! {

/// Why a declaration is rejected.
#[derive(Clone, Copy, Debug, PartialEq, Eq, Structural)]
pub enum ErrorKind {
    /// The declaration is neither a namespace, nor an implementation block,
    /// nor a record type.
    UnsupportedItem,
    /// The block implements a trait.
    TraitImpl,
    /// A function is marked with the keyword `async` itself.
    AsyncKeyword,
    /// A function carries a second mode marker.
    RepeatedModeMarker,
    /// A function carries no mode marker.
    MissingModeMarker,
    /// A statement carries a second scope marker.
    RepeatedScopeMarker,
    /// An import ends in `*`.
    GlobImport,
    /// The self type of an implementation block is not a plain name.
    SelfTypeName,
    /// The tag of an import is neither `if_async` nor `if_sync`.
    UnknownTag,
}

/// A rejection, with the place of what is rejected.
#[derive(Clone, Copy, Debug, PartialEq, Eq, Structural)]
pub struct ExpandError {
    pub kind: ErrorKind,
    pub span: Span,
}

impl ExpandError {
    /// What was expected, in words.
    pub fn message(&self) -> (r: &'static str)
        ensures
            r@ == self.kind.text(),
    {
        match self.kind {
            ErrorKind::UnsupportedItem => "expected one of: impl, mod, struct",
            ErrorKind::TraitImpl => "unsupported trait impl",
            ErrorKind::AsyncKeyword => "Instead of the async keyword, use the attribute #[always_async] on the function.",
            ErrorKind::RepeatedModeMarker => "Use one of the attributes #[always_async], #[always_sync], or #[maybe_async] on the function.",
            ErrorKind::MissingModeMarker => "Use only one of the attributes #[always_async], #[always_sync], or #[maybe_async] on the function.",
            ErrorKind::RepeatedScopeMarker => "expected only one of: `#[if_async]`, `#[if_sync]`",
            ErrorKind::GlobImport => "a glob import: `*` is not allowed",
            ErrorKind::SelfTypeName => "expected the name of a type",
            ErrorKind::UnknownTag => "expected none or one of: `if_async`, `if_sync`",
        }
    }
}

impl ErrorKind {
    pub open spec fn text(self) -> Seq<char> {
        match self {
            ErrorKind::UnsupportedItem => "expected one of: impl, mod, struct"@,
            ErrorKind::TraitImpl => "unsupported trait impl"@,
            ErrorKind::AsyncKeyword => "Instead of the async keyword, use the attribute #[always_async] on the function."@,
            ErrorKind::RepeatedModeMarker => "Use one of the attributes #[always_async], #[always_sync], or #[maybe_async] on the function."@,
            ErrorKind::MissingModeMarker => "Use only one of the attributes #[always_async], #[always_sync], or #[maybe_async] on the function."@,
            ErrorKind::RepeatedScopeMarker => "expected only one of: `#[if_async]`, `#[if_sync]`"@,
            ErrorKind::GlobImport => "a glob import: `*` is not allowed"@,
            ErrorKind::SelfTypeName => "expected the name of a type"@,
            ErrorKind::UnknownTag => "expected none or one of: `if_async`, `if_sync`"@,
        }
    }
}

} // verus!
