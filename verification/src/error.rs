//! The failures of the binding.

use vstd::prelude::*;

verus! {

/// What can go wrong when talking to the toolkit.
#[derive(Debug, PartialEq, Eq)]
pub enum MlxError {
    /// Opening the connection gave a null handle.
    Init,
    /// Creating a window gave a null handle.
    Window,
    /// Any other failure, with a description.
    Any(String),
}

/// An error as a plain value: the variant, and the text it carries.
pub enum ErrorModel {
    Init,
    Window,
    Any(Seq<char>),
}

impl View for MlxError {
    type V = ErrorModel;

    open spec fn view(&self) -> ErrorModel {
        match self {
            MlxError::Init => ErrorModel::Init,
            MlxError::Window => ErrorModel::Window,
            MlxError::Any(text) => ErrorModel::Any(text@),
        }
    }
}

/// A result with its error as a plain value.
pub open spec fn modelled<T>(r: Result<T, MlxError>) -> Result<T, ErrorModel> {
    match r {
        Ok(value) => Ok(value),
        Err(e) => Err(e@),
    }
}

} // verus!
