//! What can go wrong on the satellite.

use vstd::prelude::*;
use crate::satellite::sliceable::Sliceable;
use crate::satellite::sliceable::SliceableView;

verus! {

/// Errors of the satellite manager. `NoMessage` and `AwaitingMessage` are
/// control signals that pause a tick; every other error ends the run.
#[derive(Debug)]
pub enum Error {
    Load(String),
    KernelNotFound,
    InvalidPointer(usize),
    Unexpected(String),
    NoMessage,
    AwaitingMessage,
    SubkernelIoError,
    KernelException(Sliceable),
}

/// The mathematical content of an [`Error`].
pub enum ErrorView {
    Load(Seq<char>),
    KernelNotFound,
    InvalidPointer(usize),
    Unexpected(Seq<char>),
    NoMessage,
    AwaitingMessage,
    SubkernelIoError,
    KernelException(SliceableView),
}

impl View for Error {
    type V = ErrorView;

    open spec fn view(&self) -> ErrorView {
        match *self {
            Error::Load(message) => ErrorView::Load(message@),
            Error::KernelNotFound => ErrorView::KernelNotFound,
            Error::InvalidPointer(address) => ErrorView::InvalidPointer(address),
            Error::Unexpected(message) => ErrorView::Unexpected(message@),
            Error::NoMessage => ErrorView::NoMessage,
            Error::AwaitingMessage => ErrorView::AwaitingMessage,
            Error::SubkernelIoError => ErrorView::SubkernelIoError,
            Error::KernelException(exception) => ErrorView::KernelException(exception@),
        }
    }
}

/// A result with its error by its view.
pub open spec fn result_view<T>(r: Result<T, Error>) -> Result<T, ErrorView> {
    match r {
        Ok(value) => Ok(value),
        Err(e) => Err(e@),
    }
}

/// An `Unexpected` error with the given text.
pub fn unexpected(text: &str) -> (e: Error)
    ensures
        e@ == ErrorView::Unexpected(text@),
{
    Error::Unexpected(String::from_str(text))
}

} // verus!
