//! Why a lookup failed.
use vstd::prelude::*;

use core::num::ParseIntError;

use crate::kind::QueryKind;

verus! {

/// The failures of a lookup.
#[derive(Debug, PartialEq)]
pub enum Error {
    /// A dictionary has no entry under this key.
    KeyNotExist(String),
    /// An array has no element at this position.
    IndexNotExist(usize),
    /// The tokenizer found no step while a container still expected one.
    EmptyPath(QueryKind),
    /// The value is a leaf; it cannot be descended by the rest of the path.
    UnknownType(String),
    /// A position step could not be read as an index.
    IndexError(IndexError),
    /// The path is not well formed.
    KeyError(KeyError),
    /// A step was applied to a value of another kind: the step, the kind
    /// expected, the kind found.
    TypeError(String, QueryKind, QueryKind),
}

/// Why a position step could not be read as an index.
#[derive(Debug, PartialEq)]
pub enum IndexError {
    /// std's integer parser rejected the number.
    IntError(ParseIntError),
    /// The step does not have the shape of a position step.
    ParseError(String),
    /// Reported by a tokenizer of the user's own.
    CustomError(String),
}

/// Why a path could not be split into a step and a remainder.
#[derive(Debug, PartialEq)]
pub enum KeyError {
    /// The path is not well formed: a step before the last holds whitespace,
    /// or the path lacks a required prefix.
    ParseError(String),
    /// The step is empty or whitespace only.
    EmptyKey,
    /// Reported by a tokenizer of the user's own.
    CustomError(String),
}

/// [Error] with each string seen as its characters.
pub enum ErrorView {
    KeyNotExist(Seq<char>),
    IndexNotExist(usize),
    EmptyPath(QueryKind),
    UnknownType(Seq<char>),
    IndexError(IndexErrorView),
    KeyError(KeyErrorView),
    TypeError(Seq<char>, QueryKind, QueryKind),
}

/// [IndexError] with each string seen as its characters.
pub enum IndexErrorView {
    IntError(ParseIntError),
    ParseError(Seq<char>),
    CustomError(Seq<char>),
}

/// [KeyError] with each string seen as its characters.
pub enum KeyErrorView {
    ParseError(Seq<char>),
    EmptyKey,
    CustomError(Seq<char>),
}

impl View for IndexError {
    type V = IndexErrorView;

    open spec fn view(&self) -> IndexErrorView {
        match self {
            IndexError::IntError(e) => IndexErrorView::IntError(*e),
            IndexError::ParseError(s) => IndexErrorView::ParseError(s@),
            IndexError::CustomError(s) => IndexErrorView::CustomError(s@),
        }
    }
}

impl View for KeyError {
    type V = KeyErrorView;

    open spec fn view(&self) -> KeyErrorView {
        match self {
            KeyError::ParseError(s) => KeyErrorView::ParseError(s@),
            KeyError::EmptyKey => KeyErrorView::EmptyKey,
            KeyError::CustomError(s) => KeyErrorView::CustomError(s@),
        }
    }
}

impl View for Error {
    type V = ErrorView;

    open spec fn view(&self) -> ErrorView {
        match self {
            Error::KeyNotExist(s) => ErrorView::KeyNotExist(s@),
            Error::IndexNotExist(i) => ErrorView::IndexNotExist(*i),
            Error::EmptyPath(k) => ErrorView::EmptyPath(*k),
            Error::UnknownType(s) => ErrorView::UnknownType(s@),
            Error::IndexError(e) => ErrorView::IndexError(e@),
            Error::KeyError(e) => ErrorView::KeyError(e@),
            Error::TypeError(s, expected, found) => ErrorView::TypeError(s@, *expected, *found),
        }
    }
}

impl From<KeyError> for Error {
    fn from(e: KeyError) -> (r: Error)
        ensures
            r == Error::KeyError(e),
    {
        Error::KeyError(e)
    }
}

impl vstd::std_specs::convert::FromSpecImpl<KeyError> for Error {
    open spec fn obeys_from_spec() -> bool {
        true
    }

    open spec fn from_spec(e: KeyError) -> Error {
        Error::KeyError(e)
    }
}

impl From<IndexError> for Error {
    fn from(e: IndexError) -> (r: Error)
        ensures
            r == Error::IndexError(e),
    {
        Error::IndexError(e)
    }
}

impl vstd::std_specs::convert::FromSpecImpl<IndexError> for Error {
    open spec fn obeys_from_spec() -> bool {
        true
    }

    open spec fn from_spec(e: IndexError) -> Error {
        Error::IndexError(e)
    }
}

} // verus!
