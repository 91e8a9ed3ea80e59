//! The errors that building or rendering a model can produce.
use vstd::prelude::*;

verus! {

/// An error raised while building or rendering a model.
#[derive(Debug)]
pub enum Error {
    /// An identifier was constructed from empty text; holds the rejected text.
    InvalidIdentifierValue(String),
    /// A renderer was asked for a kind of model element it does not support; holds the
    /// name of that kind.
    UnsupportedElementKind(String),
}

} // verus!
