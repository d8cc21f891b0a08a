//! Terminal errors raised while building a schema from a parse tree.

use vstd::prelude::*;

verus! {

/// The source span and text of a parse-tree node that broke a structural
/// expectation. Offsets count UTF-8 bytes of the source text.
#[derive(Clone, Debug, Hash, PartialEq, Eq, PartialOrd, Ord)]
pub struct ErrorSpan {
    pub value: String,
    pub start: usize,
    pub end: usize,
}

/// Mathematical model of an [`ErrorSpan`].
pub struct ErrorSpanView {
    pub value: Seq<char>,
    pub start: int,
    pub end: int,
}

impl View for ErrorSpan {
    type V = ErrorSpanView;

    open spec fn view(&self) -> ErrorSpanView {
        ErrorSpanView { value: self.value@, start: self.start as int, end: self.end as int }
    }
}

/// A terminal parse error: an unrecognized referential-action keyword, a
/// premature end of a node's children, or a child of the wrong category.
#[derive(Clone, Debug, Hash, PartialEq, Eq, PartialOrd, Ord)]
pub enum Error {
    InvalidAction(String),
    UnexpectedEOS,
    UnexpectedPair(ErrorSpan),
}

/// Mathematical model of an [`Error`].
pub enum ErrorView {
    InvalidAction(Seq<char>),
    UnexpectedEOS,
    UnexpectedPair(ErrorSpanView),
}

impl View for Error {
    type V = ErrorView;

    open spec fn view(&self) -> ErrorView {
        match self {
            Error::InvalidAction(s) => ErrorView::InvalidAction(s@),
            Error::UnexpectedEOS => ErrorView::UnexpectedEOS,
            Error::UnexpectedPair(sp) => ErrorView::UnexpectedPair(sp@),
        }
    }
}

} // verus!
