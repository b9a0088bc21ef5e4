use tjxy_db::catalog_storage_scope::{group_pairs_by_root, is_file_object, single_scope, CatalogStorageScope, CatalogStorageScopeError};

fn scope(is_file: bool, parent: Option<u128>, indexed: bool, children: i64, reconciled: i64) -> CatalogStorageScope {
    CatalogStorageScope {
        storage_root_id: 1,
        storage_object_id: 10,
        parent_storage_object_id: parent,
        children_indexed: indexed,
        children_revision: children,
        reconciled_revision: reconciled,
        is_file,
    }
}

#[test]
fn sidecars_belong_to_the_directory_of_a_file() {
    assert_eq!(scope(true, Some(5), false, 0, 0).sidecar_parent_object_id(), 5);
    assert_eq!(scope(true, None, false, 0, 0).sidecar_parent_object_id(), 10);
    assert_eq!(scope(false, Some(5), false, 0, 0).sidecar_parent_object_id(), 10);
    assert!(is_file_object("File"));
    assert!(!is_file_object("Directory"));
    assert!(!is_file_object("file"));
}

#[test]
fn metadata_input_revisions_are_accepted_only_while_current() {
    let indexed = scope(false, None, true, 4, 6);
    assert_eq!(indexed.metadata_input_revision(), 4);
    assert!(indexed.accepts_metadata_input(4));
    assert!(!indexed.accepts_metadata_input(3));
    let unindexed = scope(false, None, false, 9, 6);
    assert_eq!(unindexed.metadata_input_revision(), 6);
    assert!(unindexed.accepts_metadata_input(6));
    assert!(unindexed.accepts_metadata_input(2));
    assert!(!unindexed.accepts_metadata_input(7));
    assert!(indexed.has_same_inventory(scope(false, None, true, 4, 99)));
    assert!(!indexed.has_same_inventory(scope(false, None, true, 5, 6)));
}

#[test]
fn an_item_has_at_most_one_scope() {
    let a = scope(false, None, true, 1, 1);
    let b = scope(true, Some(2), false, 1, 1);
    assert_eq!(single_scope(&[]), Ok(None));
    assert_eq!(single_scope(&[a]), Ok(Some(a)));
    assert_eq!(single_scope(&[a, b]), Err(CatalogStorageScopeError::Ambiguous));
}

#[test]
fn pairs_are_grouped_by_root_without_repeats() {
    let groups = group_pairs_by_root(&[(1, 10), (2, 20), (1, 11), (1, 10), (2, 20), (3, 30)]);
    let mut normalized: Vec<(u128, Vec<u128>)> = groups
        .into_iter()
        .map(|(root, mut objects)| {
            objects.sort();
            (root, objects)
        })
        .collect();
    normalized.sort();
    assert_eq!(normalized, vec![(1, vec![10, 11]), (2, vec![20]), (3, vec![30])]);
    assert!(group_pairs_by_root(&[]).is_empty());
}
