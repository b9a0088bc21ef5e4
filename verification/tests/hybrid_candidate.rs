use tjxy_db::hybrid_candidate::{
    check_page, ensure_background_library, pin_after_update, pin_before_update, total_count, unpin_result,
    HybridCandidateError, HybridCandidateMutation, HybridCandidatePage, HybridCandidateRecord,
};

#[test]
fn pages_counts_and_libraries() {
    assert_eq!(check_page(1), Ok(()));
    assert_eq!(check_page(100), Ok(()));
    assert_eq!(check_page(0), Err(HybridCandidateError::InvalidPage));
    assert_eq!(check_page(101), Err(HybridCandidateError::InvalidPage));
    assert_eq!(total_count(3), Ok(3));
    assert_eq!(total_count(-3), Err(HybridCandidateError::DatabaseInvariant));
    assert_eq!(ensure_background_library(Some((true, "background"))), Ok(()));
    assert_eq!(ensure_background_library(Some((false, "background"))), Err(HybridCandidateError::LibraryNotBackground));
    assert_eq!(ensure_background_library(Some((true, "on_demand"))), Err(HybridCandidateError::LibraryNotBackground));
    assert_eq!(ensure_background_library(None), Err(HybridCandidateError::LibraryUnavailable));
}

#[test]
fn pinning_and_unpinning() {
    assert_eq!(pin_before_update(None), Err(HybridCandidateError::ItemUnavailable));
    assert_eq!(pin_before_update(Some(Some(10))), Ok(Some(HybridCandidateMutation::from_parts(false))));
    assert_eq!(pin_before_update(Some(None)), Ok(None));
    assert!(pin_after_update(1, None).unwrap().changed());
    assert!(!pin_after_update(0, Some(Some(5))).unwrap().changed());
    assert_eq!(pin_after_update(0, Some(None)), Err(HybridCandidateError::ItemUnavailable));
    assert_eq!(pin_after_update(0, None), Err(HybridCandidateError::ItemUnavailable));
    assert!(unpin_result(1).changed());
    assert!(!unpin_result(0).changed());
    let record = HybridCandidateRecord::from_parts(4, "Show".to_string(), Some(2001), "Expanded".to_string(), 77);
    assert_eq!((record.catalog_item_id(), record.name(), record.production_year(), record.structure_state(), record.selected_at()), (4, "Show", Some(2001), "Expanded", 77));
    let page = HybridCandidatePage::from_parts(vec![record], 5, 0);
    assert_eq!((page.items().len(), page.total_record_count(), page.start_index()), (1, 5, 0));
}
