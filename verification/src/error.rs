//! Error types surfaced by the form-object view. Every failure is reported as
//! an explicit result value; no operation in this crate panics.

use vstd::prelude::*;

verus! {

/// A fault reported by the native library itself: a call returned an
/// unexpected null handle or failure code despite valid preconditions.
/// The native library gives no transient/permanent distinction, so the
/// fault is surfaced to the caller rather than retried.
#[derive(Clone, Copy, Debug, PartialEq, Eq, Structural)]
pub enum PdfiumInternalError {
    Unknown,
}

/// The errors a caller of the form-object view can receive.
#[derive(Clone, Copy, Debug, PartialEq, Eq, Structural)]
pub enum PdfiumError {
    /// The requested child index is at or beyond the current child count.
    /// Recoverable: the caller should re-check bounds.
    PageObjectIndexOutOfBounds,
    /// `first()` or `last()` was called on an empty collection. Recoverable.
    NoPageObjectsInCollection,
    /// An insertion was attempted, or a removal while the native library
    /// version in use does not support removal. The child collection can
    /// only shrink, never grow, through this view.
    PageObjectsCollectionIsImmutable,
    /// A copy of the form object into another document was attempted.
    /// Form objects share content streams, which makes a shallow copy
    /// unsafe, so they are not copyable by policy.
    PageObjectNotCopyable,
    /// The native library failed despite valid preconditions.
    PdfiumLibraryInternalError(PdfiumInternalError),
}

} // verus!
