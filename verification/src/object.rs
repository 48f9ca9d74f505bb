//! The ownership tag shared by every page-object wrapper, and the generic
//! page-object wrapper that the form-object view hands out for each child.

use vstd::prelude::*;

verus! {

/// A native-library handle to a page object. Handles are opaque references
/// into memory owned by the native engine; the value `NULL_OBJECT_HANDLE`
/// stands for the engine's null handle and never identifies a live object.
pub type PageObjectHandle = u64;

/// The native engine's null handle: no live page object has this value.
pub const NULL_OBJECT_HANDLE: PageObjectHandle = 0;

/// A native-library handle to a document. Used only to identify the target
/// of an (always refused) copy request.
pub type DocumentHandle = u64;

/// Describes which part of the document model currently manages a page
/// object's lifetime. Children yielded by a form-object view inherit the
/// view's tag unmodified; a child detached by removal becomes `Unowned`.
#[derive(Clone, Copy, Debug, PartialEq, Eq, Structural)]
pub enum PdfPageObjectOwnership {
    /// Owned by the page with the given handle.
    Page(u64),
    /// Owned by an object group with the given handle.
    Group(u64),
    /// Detached: no part of the document model manages this object.
    Unowned,
}

/// A generic page-object wrapper: the value the form-object view yields for
/// each child. It pairs the child's native handle with the ownership tag it
/// inherited; the native engine, not this wrapper, owns the referent.
#[derive(Clone, Copy, Debug)]
pub struct PdfPageObject {
    object_handle: PageObjectHandle,
    ownership: PdfPageObjectOwnership,
}

impl PdfPageObject {
    /// The native handle this wrapper refers to.
    pub closed spec fn spec_object_handle(&self) -> PageObjectHandle {
        self.object_handle
    }

    /// The ownership tag this wrapper carries.
    pub closed spec fn spec_ownership(&self) -> PdfPageObjectOwnership {
        self.ownership
    }

    /// A live wrapper never holds the null handle.
    pub open spec fn wf(&self) -> bool {
        self.spec_object_handle() != NULL_OBJECT_HANDLE
    }

    /// Internal constructor: wraps a handle the caller has already validated
    /// against the native engine, together with the ownership tag the new
    /// wrapper is to carry.
    pub fn from_pdfium(object_handle: PageObjectHandle, ownership: PdfPageObjectOwnership) -> (r:
        Self)
        requires
            object_handle != NULL_OBJECT_HANDLE,
        ensures
            r.spec_object_handle() == object_handle,
            r.spec_ownership() == ownership,
            r.wf(),
    {
        PdfPageObject { object_handle, ownership }
    }

    /// Returns the native handle of this page object.
    pub fn object_handle(&self) -> (r: PageObjectHandle)
        ensures
            r == self.spec_object_handle(),
    {
        self.object_handle
    }

    /// Returns the ownership tag of this page object.
    pub fn ownership(&self) -> (r: &PdfPageObjectOwnership)
        ensures
            *r == self.spec_ownership(),
    {
        &self.ownership
    }

    /// Replaces the ownership tag, leaving the handle untouched.
    pub fn set_ownership(&mut self, ownership: PdfPageObjectOwnership)
        ensures
            final(self).spec_ownership() == ownership,
            final(self).spec_object_handle() == old(self).spec_object_handle(),
    {
        self.ownership = ownership;
    }
}

} // verus!
