//! The errors of a decode.
use vstd::prelude::*;

verus! {

/// Everything that can stop a decode. The first error ends the decode and is
/// returned unchanged.
#[derive(Debug, Clone, PartialEq, Eq)]
pub enum ParseError {
    /// The input does not start with the eight bytes `JwwData.`.
    InvalidSignature,
    /// A version this decoder refuses (no version is refused at present).
    UnsupportedVersion(u32),
    /// A back-reference names a class identifier that no earlier record bound.
    UnknownClassPid(u32),
    /// A class definition names a class outside the known set.
    UnknownEntityClass(String),
    /// No entity list was found by the scan over the file.
    EntityListNotFound,
    /// The input ended before a read was complete.
    Io,
    /// Any other failure, with a message.
    Other(String),
}

/// The mathematical value of a [`ParseError`]: the same variants, with text as
/// sequences of characters.
pub enum ParseErrorView {
    InvalidSignature,
    UnsupportedVersion(u32),
    UnknownClassPid(u32),
    UnknownEntityClass(Seq<char>),
    EntityListNotFound,
    Io,
    Other(Seq<char>),
}

impl View for ParseError {
    type V = ParseErrorView;

    open spec fn view(&self) -> ParseErrorView {
        match self {
            ParseError::InvalidSignature => ParseErrorView::InvalidSignature,
            ParseError::UnsupportedVersion(v) => ParseErrorView::UnsupportedVersion(*v),
            ParseError::UnknownClassPid(p) => ParseErrorView::UnknownClassPid(*p),
            ParseError::UnknownEntityClass(s) => ParseErrorView::UnknownEntityClass(s@),
            ParseError::EntityListNotFound => ParseErrorView::EntityListNotFound,
            ParseError::Io => ParseErrorView::Io,
            ParseError::Other(s) => ParseErrorView::Other(s@),
        }
    }
}

} // verus!
