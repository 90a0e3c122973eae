//! What can go wrong while a sealed reference is resolved.

use vstd::prelude::*;

verus! {

/// What the outside world reported when an operation failed: the status or
/// error number it gave, if any, and its message.
#[derive(Debug, Clone, PartialEq, Eq)]
pub struct Failure {
    pub code: Option<i32>,
    pub message: String,
}

/// A resolution error.
#[derive(Debug, Clone, PartialEq, Eq)]
pub enum CdhError {
    /// The reference does not begin with the marker.
    PrefixMismatch,
    /// The remote call failed or ran out of time.
    Remote(Failure),
    /// Bytes that had to be UTF-8 text were not.
    Decode,
    /// A file-system operation failed.
    Io(Failure),
    /// A staged entry could not be resolved to its canonical path.
    Canonicalization(Failure),
}

/// The model of a [`Failure`].
pub struct FailureView {
    pub code: Option<i32>,
    pub message: Seq<char>,
}

/// The model of a [`CdhError`].
pub enum CdhErrorView {
    PrefixMismatch,
    Remote(FailureView),
    Decode,
    Io(FailureView),
    Canonicalization(FailureView),
}

impl View for Failure {
    type V = FailureView;

    open spec fn view(&self) -> FailureView {
        FailureView { code: self.code, message: self.message@ }
    }
}

impl View for CdhError {
    type V = CdhErrorView;

    open spec fn view(&self) -> CdhErrorView {
        match *self {
            CdhError::PrefixMismatch => CdhErrorView::PrefixMismatch,
            CdhError::Remote(f) => CdhErrorView::Remote(f@),
            CdhError::Decode => CdhErrorView::Decode,
            CdhError::Io(f) => CdhErrorView::Io(f@),
            CdhError::Canonicalization(f) => CdhErrorView::Canonicalization(f@),
        }
    }
}

/// The model of a result: the model of what it holds, on either side.
pub open spec fn outcome<T: View, E: View>(r: Result<T, E>) -> Result<T::V, E::V> {
    match r {
        Ok(t) => Ok(t@),
        Err(e) => Err(e@),
    }
}

} // verus!
