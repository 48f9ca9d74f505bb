//! Behavioral tests for the form-object view: the collection contract,
//! the capability-gated removal, the copy policy, and the error surface.

use pdfium_render::error::{PdfiumError, PdfiumInternalError};
use pdfium_render::object::{PdfPageObject, PdfPageObjectOwnership};
use pdfium_render::x_object_form::PdfPageXObjectFormObject;

fn form_with(children: Vec<u64>, removal: bool) -> PdfPageXObjectFormObject {
    PdfPageXObjectFormObject::from_pdfium(
        77,
        PdfPageObjectOwnership::Page(5),
        children,
        removal,
    )
}

#[test]
fn empty_collection_reports_empty() {
    let form = form_with(vec![], false);
    assert_eq!(form.len(), 0);
    assert!(form.is_empty());
    assert_eq!(form.first().unwrap_err(), PdfiumError::NoPageObjectsInCollection);
    assert_eq!(form.last().unwrap_err(), PdfiumError::NoPageObjectsInCollection);
}

#[test]
fn empty_collection_degenerate_inclusive_range() {
    let form = form_with(vec![], false);
    assert_eq!(form.as_range(), 0..0);
    assert_eq!(form.as_range_inclusive(), 0..=0);
}

#[test]
fn ranges_cover_child_indices() {
    let form = form_with(vec![10, 20, 30], false);
    assert_eq!(form.as_range(), 0..3);
    assert_eq!(form.as_range_inclusive(), 0..=2);
    assert!(form.as_range().contains(&2));
    assert!(!form.as_range().contains(&3));
}

#[test]
fn get_succeeds_in_bounds_and_fails_out_of_bounds() {
    let form = form_with(vec![10, 20, 30], false);
    assert_eq!(form.get(0).unwrap().object_handle(), 10);
    assert_eq!(form.get(1).unwrap().object_handle(), 20);
    assert_eq!(form.get(2).unwrap().object_handle(), 30);
    assert_eq!(form.get(3).unwrap_err(), PdfiumError::PageObjectIndexOutOfBounds);
    assert_eq!(form.get(100).unwrap_err(), PdfiumError::PageObjectIndexOutOfBounds);
}

#[test]
fn in_bounds_get_never_reports_out_of_bounds() {
    let form = form_with(vec![10, 0, 30], true);
    for i in 0..form.len() {
        let r = form.get(i);
        assert!(!matches!(r, Err(PdfiumError::PageObjectIndexOutOfBounds)));
    }
}

#[test]
fn null_handle_in_bounds_is_an_internal_error() {
    let form = form_with(vec![10, 0, 30], false);
    assert_eq!(
        form.get(1).unwrap_err(),
        PdfiumError::PdfiumLibraryInternalError(PdfiumInternalError::Unknown)
    );
}

#[test]
fn first_and_last_forward_to_get() {
    let form = form_with(vec![10, 20, 30], false);
    assert_eq!(form.first().unwrap().object_handle(), 10);
    assert_eq!(
        form.last().unwrap().object_handle(),
        form.get(2).unwrap().object_handle()
    );
}

#[test]
fn children_inherit_the_view_ownership() {
    let form = form_with(vec![10, 20], false);
    assert_eq!(*form.ownership(), PdfPageObjectOwnership::Page(5));
    assert_eq!(*form.get(0).unwrap().ownership(), PdfPageObjectOwnership::Page(5));
    assert_eq!(*form.get(1).unwrap().ownership(), PdfPageObjectOwnership::Page(5));
}

#[test]
fn iteration_is_restartable_and_in_order() {
    let form = form_with(vec![10, 20, 30], false);
    let mut first_pass: Vec<u64> = Vec::new();
    let mut it = form.iter();
    while let Some(object) = it.next() {
        first_pass.push(object.object_handle());
    }
    let mut second_pass: Vec<u64> = Vec::new();
    let mut it = form.iter();
    while let Some(object) = it.next() {
        second_pass.push(object.object_handle());
    }
    assert_eq!(first_pass.len(), form.len());
    assert_eq!(second_pass.len(), form.len());
    assert_eq!(first_pass, vec![10, 20, 30]);
    assert_eq!(first_pass, second_pass);
}

#[test]
fn iteration_of_empty_collection_yields_nothing() {
    let form = form_with(vec![], false);
    let mut it = form.iter();
    assert!(it.next().is_none());
    assert!(it.next().is_none());
}

#[test]
fn add_always_fails_with_collection_immutable() {
    let mut form = form_with(vec![10, 20, 30], false);
    let valid = PdfPageObject::from_pdfium(20, PdfPageObjectOwnership::Page(5));
    assert_eq!(
        form.add_object(valid).unwrap_err(),
        PdfiumError::PageObjectsCollectionIsImmutable
    );
    let foreign = PdfPageObject::from_pdfium(999, PdfPageObjectOwnership::Unowned);
    assert_eq!(
        form.add_object(foreign).unwrap_err(),
        PdfiumError::PageObjectsCollectionIsImmutable
    );
    assert_eq!(form.len(), 3);

    let mut extended = form_with(vec![], true);
    let object = PdfPageObject::from_pdfium(1, PdfPageObjectOwnership::Group(2));
    assert_eq!(
        extended.add_object(object).unwrap_err(),
        PdfiumError::PageObjectsCollectionIsImmutable
    );
    assert_eq!(extended.len(), 0);
}

#[test]
fn copy_always_fails_with_not_copyable() {
    let form = form_with(vec![10, 20], false);
    assert!(!form.is_copyable());
    assert_eq!(form.try_copy(1).unwrap_err(), PdfiumError::PageObjectNotCopyable);
    assert_eq!(form.try_copy(42).unwrap_err(), PdfiumError::PageObjectNotCopyable);
}

#[test]
fn removal_with_capability_detaches_the_child() {
    let mut form = form_with(vec![10, 20, 30], true);
    let object = form.get(1).unwrap();
    let removed = form.remove_object(object).unwrap();
    assert_eq!(removed.object_handle(), 20);
    assert_eq!(*removed.ownership(), PdfPageObjectOwnership::Unowned);
    assert_eq!(form.len(), 2);
    assert_eq!(form.get(0).unwrap().object_handle(), 10);
    assert_eq!(form.get(1).unwrap().object_handle(), 30);
}

#[test]
fn removal_without_capability_fails_with_collection_immutable() {
    let mut form = form_with(vec![10, 20, 30], false);
    let object = form.get(1).unwrap();
    assert_eq!(
        form.remove_object(object).unwrap_err(),
        PdfiumError::PageObjectsCollectionIsImmutable
    );
    assert_eq!(form.len(), 3);
}

#[test]
fn removal_of_an_unknown_child_is_an_internal_error() {
    let mut form = form_with(vec![10, 20, 30], true);
    let foreign = PdfPageObject::from_pdfium(999, PdfPageObjectOwnership::Unowned);
    assert_eq!(
        form.remove_object(foreign).unwrap_err(),
        PdfiumError::PdfiumLibraryInternalError(PdfiumInternalError::Unknown)
    );
    assert_eq!(form.len(), 3);
}

#[test]
fn removal_detaches_only_the_first_matching_child() {
    let mut form = form_with(vec![10, 20, 10], true);
    let object = form.get(0).unwrap();
    let removed = form.remove_object(object).unwrap();
    assert_eq!(removed.object_handle(), 10);
    assert_eq!(form.len(), 2);
    assert_eq!(form.get(0).unwrap().object_handle(), 20);
    assert_eq!(form.get(1).unwrap().object_handle(), 10);
}

#[test]
fn view_accessors_report_construction_values() {
    let mut form = form_with(vec![10], true);
    assert_eq!(form.object_handle(), 77);
    assert!(form.supports_object_removal());
    form.set_ownership(PdfPageObjectOwnership::Unowned);
    assert_eq!(*form.ownership(), PdfPageObjectOwnership::Unowned);
    assert_eq!(form.len(), 1);
}

#[test]
fn page_object_ownership_can_be_replaced() {
    let mut object = PdfPageObject::from_pdfium(10, PdfPageObjectOwnership::Group(3));
    assert_eq!(object.object_handle(), 10);
    assert_eq!(*object.ownership(), PdfPageObjectOwnership::Group(3));
    object.set_ownership(PdfPageObjectOwnership::Unowned);
    assert_eq!(*object.ownership(), PdfPageObjectOwnership::Unowned);
    assert_eq!(object.object_handle(), 10);
}
