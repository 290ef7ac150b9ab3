//! The error that block-import parameters can cause.

use vstd::prelude::*;

verus! {

/// Why a set of parameters was rejected.
#[derive(Debug, PartialEq, Eq)]
pub enum Error {
    /// The operator's input is invalid; the text tells the operator why.
    Input(String),
}

impl Clone for Error {
    fn clone(&self) -> (e: Error)
        ensures
            e == *self,
    {
        match self {
            Error::Input(text) => Error::Input(text.clone()),
        }
    }
}

impl Error {
    /// The text of this error.
    pub open spec fn text(&self) -> Seq<char> {
        match self {
            Error::Input(text) => text@,
        }
    }

    /// An input error that carries `text`.
    pub fn input(text: &str) -> (e: Error)
        ensures
            e.text() == text@,
    {
        Error::Input(text.to_owned())
    }

    /// The text of this error.
    pub fn message(&self) -> (text: String)
        ensures
            text@ == self.text(),
    {
        match self {
            Error::Input(text) => text.clone(),
        }
    }
}

} // verus!
