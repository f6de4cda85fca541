//! What can go wrong with a secret.

use vstd::prelude::*;

verus! {

/// Why a secret could not be read, written or deleted.
#[derive(Debug, PartialEq, Eq)]
pub enum SecretError {
    /// There is no secret under the key.
    NotFound,
    /// Any other failure, described in words.
    Other(String),
}

/// What a [`SecretError`] holds.
pub enum SecretErrorView {
    NotFound,
    Other(Seq<char>),
}

impl View for SecretError {
    type V = SecretErrorView;

    open spec fn view(&self) -> SecretErrorView {
        match self {
            SecretError::NotFound => SecretErrorView::NotFound,
            SecretError::Other(message) => SecretErrorView::Other(message@),
        }
    }
}

/// The kinds of input/output error that the secret store tells apart.
#[derive(Debug, Clone, Copy, PartialEq, Eq, Structural)]
pub enum IoErrorKind {
    NotFound,
    AlreadyExists,
    Other,
}

/// An input/output error: its kind and its text.
#[derive(Debug, PartialEq, Eq)]
pub struct IoFailure {
    pub kind: IoErrorKind,
    pub message: String,
}

/// What a result of the secret store holds, for a value that is seen through
/// its view.
pub open spec fn result_view<T: View>(r: Result<T, SecretError>) -> Result<T::V, SecretErrorView> {
    match r {
        Ok(value) => Ok(value@),
        Err(error) => Err(error@),
    }
}

/// A result is seen as what it is: a value by its view, a missing secret as one,
/// and any other failure by its words.
pub proof fn law_results_are_seen_whole<T: View>(r: Result<T, SecretError>)
    ensures
        r matches Ok(value) ==> result_view(r) == Ok::<T::V, SecretErrorView>(value@),
        r matches Err(SecretError::NotFound) ==> result_view(r) == Err::<T::V, SecretErrorView>(
            SecretErrorView::NotFound,
        ),
        r matches Err(SecretError::Other(message)) ==> result_view(r) == Err::<
            T::V,
            SecretErrorView,
        >(SecretErrorView::Other(message@)),
{
}

} // verus!
