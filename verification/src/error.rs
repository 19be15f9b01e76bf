//! The errors of provisioning.

use crate::definition::IndexKind;
use vstd::prelude::*;
use vstd::string::*;

verus! {

/// An index that could not be created, with the error that the database
/// gave. `E` is the error type of the database driver; the error is carried
/// along as it came.
#[derive(Debug)]
pub enum Error<E> {
    /// The plain index on the field path `index`.
    IndexFailed { index: String, err: E },
    /// The unique index on the field path `index`.
    UniqueIndexFailed { index: String, err: E },
    /// The sparse index on the field path `index`.
    SparseIndexFailed { index: String, err: E },
    /// A plain index given as a document.
    DocIndexFailed { err: E },
    /// A unique index given as a document.
    UniqueDocIndexFailed { err: E },
    /// A sparse index given as a document.
    SparseDocIndexFailed { err: E },
}

/// The mathematical content of an [`Error`]: the kind of the index that
/// failed, its field path where it has one, and the database's error.
pub struct Failure<E> {
    pub kind: IndexKind,
    pub index: Option<Seq<char>>,
    pub err: E,
}

impl<E> View for Error<E> {
    type V = Failure<E>;

    open spec fn view(&self) -> Failure<E> {
        match *self {
            Error::IndexFailed { index, err } => Failure {
                kind: IndexKind::Plain,
                index: Some(index@),
                err,
            },
            Error::UniqueIndexFailed { index, err } => Failure {
                kind: IndexKind::Unique,
                index: Some(index@),
                err,
            },
            Error::SparseIndexFailed { index, err } => Failure {
                kind: IndexKind::Sparse,
                index: Some(index@),
                err,
            },
            Error::DocIndexFailed { err } => Failure { kind: IndexKind::Plain, index: None, err },
            Error::UniqueDocIndexFailed { err } => Failure {
                kind: IndexKind::Unique,
                index: None,
                err,
            },
            Error::SparseDocIndexFailed { err } => Failure {
                kind: IndexKind::Sparse,
                index: None,
                err,
            },
        }
    }
}


impl<E> Error<E> {
    /// The kind of the index that could not be created.
    pub fn kind(&self) -> (kind: IndexKind)
        ensures
            kind == self@.kind,
    {
        match self {
            Error::IndexFailed { .. } | Error::DocIndexFailed { .. } => IndexKind::Plain,
            Error::UniqueIndexFailed { .. } | Error::UniqueDocIndexFailed { .. } => IndexKind::Unique,
            Error::SparseIndexFailed { .. } | Error::SparseDocIndexFailed { .. } => IndexKind::Sparse,
        }
    }

    /// The field path of the index that could not be created; `None` for an
    /// index given as a document.
    pub fn index(&self) -> (index: Option<&str>)
        ensures
            match index {
                Some(path) => self@.index == Some(path@),
                None => self@.index is None,
            },
    {
        match self {
            Error::IndexFailed { index, .. } => Some(index.as_str()),
            Error::UniqueIndexFailed { index, .. } => Some(index.as_str()),
            Error::SparseIndexFailed { index, .. } => Some(index.as_str()),
            Error::DocIndexFailed { .. } => None,
            Error::UniqueDocIndexFailed { .. } => None,
            Error::SparseDocIndexFailed { .. } => None,
        }
    }

    /// The error that the database gave.
    pub fn source(&self) -> (err: &E)
        ensures
            *err == self@.err,
    {
        match self {
            Error::IndexFailed { err, .. } => err,
            Error::UniqueIndexFailed { err, .. } => err,
            Error::SparseIndexFailed { err, .. } => err,
            Error::DocIndexFailed { err } => err,
            Error::UniqueDocIndexFailed { err } => err,
            Error::SparseDocIndexFailed { err } => err,
        }
    }
}

} // verus!
