//! The form-object view: a safe, indexable, iterable interface over the
//! child-object collection of a native "form" page object, together with its
//! capability-gated removal operation and its not-copyable policy.

use vstd::prelude::*;

use crate::error::{PdfiumError, PdfiumInternalError};
use crate::object::{
    DocumentHandle, PageObjectHandle, PdfPageObject, PdfPageObjectOwnership, NULL_OBJECT_HANDLE,
};
use std::ops::Range;
use std::ops::RangeInclusive;

verus! {

/// The index of a child page object inside its parent collection.
pub type PdfPageObjectIndex = usize;

/// The position of the first occurrence of `h` in `s`, or -1 when `s` does
/// not contain `h`.
pub open spec fn first_index_of(s: Seq<PageObjectHandle>, h: PageObjectHandle) -> int
    decreases s.len(),
{
    if s.len() == 0 {
        -1
    } else if s[0] == h {
        0
    } else {
        let rest = first_index_of(s.subrange(1, s.len() as int), h);
        if rest < 0 {
            -1
        } else {
            rest + 1
        }
    }
}

/// `first_index_of` finds the position whose earlier entries all differ from
/// the needle.
proof fn lemma_first_index_of_found(s: Seq<PageObjectHandle>, h: PageObjectHandle, i: int)
    requires
        0 <= i < s.len(),
        s[i] == h,
        forall|j: int| 0 <= j < i ==> s[j] != h,
    ensures
        first_index_of(s, h) == i,
    decreases i,
{
    if i == 0 {
        assert(first_index_of(s, h) == 0);
    } else {
        let rest = s.subrange(1, s.len() as int);
        assert(s[0] != h);
        assert(rest[i - 1] == s[i]);
        assert forall|j: int| 0 <= j < i - 1 implies rest[j] != h by {
            assert(rest[j] == s[j + 1]);
        }
        lemma_first_index_of_found(rest, h, i - 1);
    }
}

/// `first_index_of` reports -1 exactly when no entry equals the needle.
proof fn lemma_first_index_of_absent(s: Seq<PageObjectHandle>, h: PageObjectHandle)
    requires
        forall|j: int| 0 <= j < s.len() ==> s[j] != h,
    ensures
        first_index_of(s, h) == -1,
    decreases s.len(),
{
    if s.len() > 0 {
        let rest = s.subrange(1, s.len() as int);
        assert forall|j: int| 0 <= j < rest.len() implies rest[j] != h by {
            assert(rest[j] == s[j + 1]);
        }
        lemma_first_index_of_absent(rest, h);
    }
}

/// A view over one native form page object. The native engine owns the
/// underlying object graph; the view holds the slice of engine state it
/// reads — the ordered handles of the form object's child content stream and
/// whether the engine version in use supports child removal — together with
/// the ownership tag it clones into every child it yields.
///
/// The child collection is read-only through this view except for
/// capability-gated single-object removal: it can only shrink, never grow.
pub struct PdfPageXObjectFormObject {
    object_handle: PageObjectHandle,
    ownership: PdfPageObjectOwnership,
    child_handles: Vec<PageObjectHandle>,
    supports_object_removal: bool,
}

impl PdfPageXObjectFormObject {
    /// The native handle of the form object itself.
    pub closed spec fn spec_object_handle(&self) -> PageObjectHandle {
        self.object_handle
    }

    /// The ownership tag of the form object, inherited by every child it
    /// yields.
    pub closed spec fn spec_ownership(&self) -> PdfPageObjectOwnership {
        self.ownership
    }

    /// The ordered handles of the form object's children, as the native
    /// engine currently holds them.
    pub closed spec fn spec_children(&self) -> Seq<PageObjectHandle> {
        self.child_handles@
    }

    /// Whether the native library version in use supports child removal.
    pub closed spec fn spec_supports_object_removal(&self) -> bool {
        self.supports_object_removal
    }

    /// A live view never holds the null handle for its own form object.
    pub open spec fn wf(&self) -> bool {
        self.spec_object_handle() != NULL_OBJECT_HANDLE
    }

    /// What a traversal yields at step `k`: the child handle at index `k`,
    /// or nothing once `k` reaches the child count or when the engine holds
    /// a null handle there.
    pub open spec fn spec_yield_at(&self, k: int) -> Option<PageObjectHandle> {
        if 0 <= k < self.spec_children().len() && self.spec_children()[k] != NULL_OBJECT_HANDLE {
            Some(self.spec_children()[k])
        } else {
            None
        }
    }

    /// Internal constructor: a parent objects-collection or group object
    /// that has already validated the native handle builds the view, handing
    /// it the engine state the view reads.
    pub fn from_pdfium(
        object_handle: PageObjectHandle,
        ownership: PdfPageObjectOwnership,
        child_handles: Vec<PageObjectHandle>,
        supports_object_removal: bool,
    ) -> (r: Self)
        requires
            object_handle != NULL_OBJECT_HANDLE,
        ensures
            r.spec_object_handle() == object_handle,
            r.spec_ownership() == ownership,
            r.spec_children() == child_handles@,
            r.spec_supports_object_removal() == supports_object_removal,
            r.wf(),
    {
        PdfPageXObjectFormObject { object_handle, ownership, child_handles, supports_object_removal }
    }

    /// Returns the total number of child page objects in this form object,
    /// re-read from the engine state on every call.
    pub fn len(&self) -> (r: PdfPageObjectIndex)
        ensures
            r == self.spec_children().len(),
    {
        self.child_handles.len()
    }

    /// Returns `true` if this page objects collection is empty.
    pub fn is_empty(&self) -> (r: bool)
        ensures
            r == (self.spec_children().len() == 0),
    {
        self.len() == 0
    }

    /// Returns a half-open range `0..len()` over the child indices.
    pub fn as_range(&self) -> (r: Range<PdfPageObjectIndex>)
        ensures
            r.start == 0,
            r.end == self.spec_children().len(),
    {
        0..self.len()
    }

    /// Returns the inclusive range `0..=(len() - 1)` over the child indices
    /// when the collection is non-empty, and the degenerate range `0..=0`
    /// when it is empty — a sentinel signaling emptiness, not an error.
    pub fn as_range_inclusive(&self) -> (r: RangeInclusive<PdfPageObjectIndex>)
        ensures
            r@.start == 0,
            !r@.exhausted,
            self.spec_children().len() == 0 ==> r@.end == 0,
            self.spec_children().len() > 0 ==> r@.end == self.spec_children().len() - 1,
    {
        if self.is_empty() {
            RangeInclusive::new(0, 0)
        } else {
            RangeInclusive::new(0, self.len() - 1)
        }
    }

    /// Returns the child page object at `index`.
    ///
    /// Fails with `PageObjectIndexOutOfBounds` exactly when `index` is at or
    /// beyond the current child count, and with an internal-library error
    /// exactly when the engine holds a null handle at an in-bounds index.
    /// On success the child inherits this view's ownership tag unmodified.
    pub fn get(&self, index: PdfPageObjectIndex) -> (r: Result<PdfPageObject, PdfiumError>)
        ensures
            index >= self.spec_children().len() ==> (r matches Err(e) && e
                == PdfiumError::PageObjectIndexOutOfBounds),
            index < self.spec_children().len() && self.spec_children()[index as int]
                == NULL_OBJECT_HANDLE ==> (r matches Err(e) && e
                == PdfiumError::PdfiumLibraryInternalError(PdfiumInternalError::Unknown)),
            index < self.spec_children().len() && self.spec_children()[index as int]
                != NULL_OBJECT_HANDLE ==> (r matches Ok(o) && o.spec_object_handle()
                == self.spec_children()[index as int] && o.spec_ownership()
                == self.spec_ownership() && o.wf()),
    {
        // The native lookup returns the null handle for an out-of-bounds
        // index; an in-bounds null signals an engine fault.
        let object_handle: PageObjectHandle = if index < self.child_handles.len() {
            self.child_handles[index]
        } else {
            NULL_OBJECT_HANDLE
        };
        if object_handle == NULL_OBJECT_HANDLE {
            if index >= self.len() {
                Err(PdfiumError::PageObjectIndexOutOfBounds)
            } else {
                Err(PdfiumError::PdfiumLibraryInternalError(PdfiumInternalError::Unknown))
            }
        } else {
            Ok(PdfPageObject::from_pdfium(object_handle, self.ownership))
        }
    }

    /// Returns the first child page object, or `NoPageObjectsInCollection`
    /// when the collection is empty.
    pub fn first(&self) -> (r: Result<PdfPageObject, PdfiumError>)
        ensures
            self.spec_children().len() == 0 ==> (r matches Err(e) && e
                == PdfiumError::NoPageObjectsInCollection),
            self.spec_children().len() > 0 && self.spec_children()[0] == NULL_OBJECT_HANDLE
                ==> (r matches Err(e) && e == PdfiumError::PdfiumLibraryInternalError(
                PdfiumInternalError::Unknown,
            )),
            self.spec_children().len() > 0 && self.spec_children()[0] != NULL_OBJECT_HANDLE
                ==> (r matches Ok(o) && o.spec_object_handle() == self.spec_children()[0]
                && o.spec_ownership() == self.spec_ownership() && o.wf()),
    {
        if !self.is_empty() {
            self.get(0)
        } else {
            Err(PdfiumError::NoPageObjectsInCollection)
        }
    }

    /// Returns the last child page object, or `NoPageObjectsInCollection`
    /// when the collection is empty.
    pub fn last(&self) -> (r: Result<PdfPageObject, PdfiumError>)
        ensures
            self.spec_children().len() == 0 ==> (r matches Err(e) && e
                == PdfiumError::NoPageObjectsInCollection),
            self.spec_children().len() > 0 && self.spec_children().last() == NULL_OBJECT_HANDLE
                ==> (r matches Err(e) && e == PdfiumError::PdfiumLibraryInternalError(
                PdfiumInternalError::Unknown,
            )),
            self.spec_children().len() > 0 && self.spec_children().last() != NULL_OBJECT_HANDLE
                ==> (r matches Ok(o) && o.spec_object_handle() == self.spec_children().last()
                && o.spec_ownership() == self.spec_ownership() && o.wf()),
    {
        if !self.is_empty() {
            self.get(self.len() - 1)
        } else {
            Err(PdfiumError::NoPageObjectsInCollection)
        }
    }

    /// Returns an iterator over the child page objects, starting a fresh
    /// traversal at index 0 and driven by repeated bounds-checked lookups
    /// against the live engine state.
    pub fn iter<'a>(&'a self) -> (r: PdfPageObjectsIterator<'a>)
        ensures
            r.spec_objects() == *self,
            r.spec_index() == 0,
    {
        PdfPageObjectsIterator { objects: self, index: 0 }
    }

    /// The full yield sequence of a fresh traversal: one entry per child
    /// index, in index order.
    pub open spec fn spec_yield_seq(&self) -> Seq<Option<PageObjectHandle>> {
        Seq::new(self.spec_children().len(), |k: int| self.spec_yield_at(k))
    }

    /// Iteration is restartable and deterministic: what a traversal yields
    /// at step `k` is a function of the collection state and `k` alone, so
    /// two fresh traversals of an unmutated collection yield the same
    /// sequence. A full traversal makes exactly `len()` yielding steps, and
    /// step `k` yields the child at index `k` whenever the engine holds a
    /// live handle there.
    pub proof fn lemma_iteration_deterministic(&self)
        ensures
            self.spec_yield_seq().len() == self.spec_children().len(),
            forall|k: int|
                0 <= k < self.spec_children().len() && self.spec_children()[k]
                    != NULL_OBJECT_HANDLE ==> #[trigger] self.spec_yield_seq()[k] == Some(
                    self.spec_children()[k],
                ),
    {
    }

    /// Returns the native handle of this form object.
    pub fn object_handle(&self) -> (r: PageObjectHandle)
        ensures
            r == self.spec_object_handle(),
    {
        self.object_handle
    }

    /// Returns the ownership tag of this form object.
    pub fn ownership(&self) -> (r: &PdfPageObjectOwnership)
        ensures
            *r == self.spec_ownership(),
    {
        &self.ownership
    }

    /// Replaces the ownership tag, leaving everything else untouched.
    pub fn set_ownership(&mut self, ownership: PdfPageObjectOwnership)
        ensures
            final(self).spec_ownership() == ownership,
            final(self).spec_object_handle() == old(self).spec_object_handle(),
            final(self).spec_children() == old(self).spec_children(),
            final(self).spec_supports_object_removal() == old(self).spec_supports_object_removal(),
    {
        self.ownership = ownership;
    }

    /// Whether the native library version in use supports child removal.
    pub fn supports_object_removal(&self) -> (r: bool)
        ensures
            r == self.spec_supports_object_removal(),
    {
        self.supports_object_removal
    }

    /// Form objects share content streams, which makes a shallow copy
    /// unsafe, so they declare themselves not copyable.
    pub fn is_copyable(&self) -> (r: bool)
        ensures
            r == false,
    {
        false
    }

    /// Attempts to copy this form object into the given target document.
    /// Refused by policy on every input: always fails with
    /// `PageObjectNotCopyable`.
    pub fn try_copy(&self, _destination: DocumentHandle) -> (r: Result<
        PdfPageObject,
        PdfiumError,
    >)
        ensures
            (r matches Err(e) && e == PdfiumError::PageObjectNotCopyable),
    {
        Err(PdfiumError::PageObjectNotCopyable)
    }

    /// The child collection never supports insertion through this view:
    /// every attempt, whatever the object handed in, fails with
    /// `PageObjectsCollectionIsImmutable` and leaves the view unchanged.
    pub fn add_object(&mut self, _object: PdfPageObject) -> (r: Result<
        PdfPageObject,
        PdfiumError,
    >)
        ensures
            (r matches Err(e) && e == PdfiumError::PageObjectsCollectionIsImmutable),
            *final(self) == *old(self),
    {
        Err(PdfiumError::PageObjectsCollectionIsImmutable)
    }

    /// Detaches `object` from this form object's child collection.
    ///
    /// When the native library version in use does not support removal,
    /// every call fails with `PageObjectsCollectionIsImmutable` and changes
    /// nothing, exactly as `add_object` does. Otherwise the engine detaches
    /// the first child whose handle matches `object`; on success the removed
    /// object is returned with its ownership tag reset to `Unowned`, and
    /// when no child matches the engine reports a fault, surfaced as an
    /// internal-library error with nothing changed.
    pub fn remove_object(&mut self, object: PdfPageObject) -> (r: Result<
        PdfPageObject,
        PdfiumError,
    >)
        ensures
            !old(self).spec_supports_object_removal() ==> (r matches Err(e) && e
                == PdfiumError::PageObjectsCollectionIsImmutable && *final(self) == *old(self)),
            old(self).spec_supports_object_removal() && first_index_of(
                old(self).spec_children(),
                object.spec_object_handle(),
            ) < 0 ==> (r matches Err(e) && e == PdfiumError::PdfiumLibraryInternalError(
                PdfiumInternalError::Unknown,
            ) && *final(self) == *old(self)),
            old(self).spec_supports_object_removal() && first_index_of(
                old(self).spec_children(),
                object.spec_object_handle(),
            ) >= 0 ==> (r matches Ok(o) && o.spec_object_handle() == object.spec_object_handle()
                && o.spec_ownership() == PdfPageObjectOwnership::Unowned && final(self).spec_children() == old(self).spec_children().remove(
                first_index_of(old(self).spec_children(), object.spec_object_handle()),
            ) && final(self).spec_ownership() == old(self).spec_ownership() && final(self).spec_object_handle() == old(self).spec_object_handle() && final(self).spec_supports_object_removal() == old(self).spec_supports_object_removal()),
    {
        if self.supports_object_removal {
            if self.detach_child(object.object_handle()) {
                let mut object = object;
                object.set_ownership(PdfPageObjectOwnership::Unowned);
                Ok(object)
            } else {
                Err(PdfiumError::PdfiumLibraryInternalError(PdfiumInternalError::Unknown))
            }
        } else {
            Err(PdfiumError::PageObjectsCollectionIsImmutable)
        }
    }

    /// The engine-side detach: removes the first child whose handle equals
    /// `handle`, reporting whether any child was detached.
    fn detach_child(&mut self, handle: PageObjectHandle) -> (found: bool)
        ensures
            found <==> first_index_of(old(self).spec_children(), handle) >= 0,
            found ==> final(self).spec_children() == old(self).spec_children().remove(
                first_index_of(old(self).spec_children(), handle),
            ),
            !found ==> *final(self) == *old(self),
            final(self).spec_ownership() == old(self).spec_ownership(),
            final(self).spec_object_handle() == old(self).spec_object_handle(),
            final(self).spec_supports_object_removal() == old(self).spec_supports_object_removal(),
    {
        let mut i: usize = 0;
        while i < self.child_handles.len()
            invariant
                i <= self.child_handles@.len(),
                *self == *old(self),
                forall|j: int| 0 <= j < i ==> self.child_handles@[j] != handle,
            decreases self.child_handles@.len() - i,
        {
            if self.child_handles[i] == handle {
                proof {
                    lemma_first_index_of_found(self.child_handles@, handle, i as int);
                }
                self.child_handles.remove(i);
                return true;
            }
            i = i + 1;
        }
        proof {
            lemma_first_index_of_absent(self.child_handles@, handle);
        }
        false
    }
}

/// An iterator over the child objects of one form-object view: a cursor
/// holding the view and the index of the next child to yield.
pub struct PdfPageObjectsIterator<'a> {
    objects: &'a PdfPageXObjectFormObject,
    index: PdfPageObjectIndex,
}

impl<'a> PdfPageObjectsIterator<'a> {
    /// The view this iterator traverses.
    pub closed spec fn spec_objects(&self) -> PdfPageXObjectFormObject {
        *self.objects
    }

    /// The index of the next child to yield.
    pub closed spec fn spec_index(&self) -> int {
        self.index as int
    }

    /// Yields the child at the current index and advances, or nothing once
    /// the live child count is reached or when the engine reports a fault
    /// for the current index.
    pub fn next(&mut self) -> (r: Option<PdfPageObject>)
        ensures
            final(self).spec_objects() == old(self).spec_objects(),
            old(self).spec_index() < old(self).spec_objects().spec_children().len()
                ==> final(self).spec_index() == old(self).spec_index() + 1,
            old(self).spec_index() >= old(self).spec_objects().spec_children().len()
                ==> final(self).spec_index() == old(self).spec_index() && r is None,
            r is Some <==> old(self).spec_objects().spec_yield_at(old(self).spec_index())
                is Some,
            r matches Some(o) ==> (Some(o.spec_object_handle()) == old(self).spec_objects()
                .spec_yield_at(old(self).spec_index()) && o.spec_ownership() == old(self)
                .spec_objects().spec_ownership()),
    {
        if self.index < self.objects.len() {
            let r = self.objects.get(self.index);
            self.index = self.index + 1;
            match r {
                Ok(object) => Some(object),
                Err(_) => None,
            }
        } else {
            None
        }
    }
}

} // verus!
