use tjxy_db::catalog_query::{
    search_pattern, attach_image_tags, ImageTagRow,
    active_publication, image_priority, latest_item_types, plan_item_query, record_count, requested_item_types,
    resolve_parent, AssetRecord, BrowseParent, CacheRevisions, CatalogCreditRecord, CatalogFilterFacets,
    CatalogItemType, CatalogItemsQuery, CatalogItemsScope, CatalogNamedCodeRecord, CatalogPage, CatalogPageRequest,
    CatalogQueryError, CatalogSort, CatalogSortField, CatalogSortOrder, ItemQueryPlan, ItemSource,
    LazyCatalogWorkTarget, LazyStorageScope, LibraryViewRecord,
};

const ALL_TYPES: [CatalogItemType; 6] = [
    CatalogItemType::Movie,
    CatalogItemType::Audio,
    CatalogItemType::Series,
    CatalogItemType::Season,
    CatalogItemType::Episode,
    CatalogItemType::Folder,
];

fn page() -> CatalogPageRequest {
    CatalogPageRequest::new(0, 20).unwrap()
}

#[test]
fn item_types_round_trip_through_stored_names() {
    for t in ALL_TYPES {
        assert_eq!(CatalogItemType::from_database_value(t.as_database_value()), Ok(t));
        assert_eq!(t.cache_name(), t.as_database_value());
    }
    assert_eq!(CatalogItemType::Episode.as_database_value(), "Episode");
    assert_eq!(CatalogItemType::from_database_value("movie"), Err(CatalogQueryError::InvalidItemType));
}

#[test]
fn pages_and_requested_types() {
    assert_eq!(CatalogPageRequest::new(0, 0).map(|_| ()), Err(CatalogQueryError::InvalidPage));
    assert_eq!(CatalogPageRequest::new(0, 201).map(|_| ()), Err(CatalogQueryError::InvalidPage));
    let p = CatalogPageRequest::new(40, 200).unwrap();
    assert_eq!((p.start_index(), p.limit(), p.has_item_type_filter()), (40, 200, false));
    assert_eq!(requested_item_types(&p), ALL_TYPES.to_vec());
    let p = p.with_item_types(vec![CatalogItemType::Season, CatalogItemType::Movie]);
    assert!(p.has_item_type_filter());
    assert_eq!(requested_item_types(&p), vec![CatalogItemType::Season, CatalogItemType::Movie]);
    assert_eq!(
        latest_item_types(&[], 10),
        Ok(vec![CatalogItemType::Movie, CatalogItemType::Audio, CatalogItemType::Series, CatalogItemType::Episode])
    );
    assert_eq!(latest_item_types(&[CatalogItemType::Folder], 10), Ok(vec![CatalogItemType::Folder]));
    assert_eq!(latest_item_types(&[], 0), Err(CatalogQueryError::InvalidPage));
}

#[test]
fn listing_plans() {
    let all = CatalogItemsQuery::new(CatalogItemsScope::AllVisible, page());
    assert_eq!(plan_item_query(&all, Some(3)), ItemQueryPlan::AllVisible);
    let library = CatalogItemsQuery::new(CatalogItemsScope::Parent(BrowseParent::Library(7)), page());
    assert_eq!(
        plan_item_query(&library, None),
        ItemQueryPlan::Children {
            parent: BrowseParent::Library(7),
            source: ItemSource::Catalog,
            natural_index_order: false,
            recursive: false,
        }
    );
    let library_tree = library.with_recursive_for_library(true);
    assert_eq!(plan_item_query(&library_tree, None), ItemQueryPlan::LibraryTree(7));
    let item = CatalogItemsQuery::new(CatalogItemsScope::Parent(BrowseParent::Item(9)), page());
    assert_eq!(
        plan_item_query(&item, None),
        ItemQueryPlan::Children {
            parent: BrowseParent::Item(9),
            source: ItemSource::Catalog,
            natural_index_order: true,
            recursive: false,
        }
    );
    let item_published = item.with_recursive_for_library(true);
    assert_eq!(
        plan_item_query(&item_published, Some(4)),
        ItemQueryPlan::Children {
            parent: BrowseParent::Item(9),
            source: ItemSource::Publication(4),
            natural_index_order: false,
            recursive: false,
        }
    );
    let item_recursive = item_published.with_recursive(true);
    assert_eq!(
        plan_item_query(&item_recursive, Some(4)),
        ItemQueryPlan::Children {
            parent: BrowseParent::Item(9),
            source: ItemSource::Publication(4),
            natural_index_order: false,
            recursive: true,
        }
    );
}

#[test]
fn query_builders_keep_their_values() {
    let sort = CatalogSort::new(CatalogSortField::ProductionYear, CatalogSortOrder::Descending);
    let q = CatalogItemsQuery::new(CatalogItemsScope::AllVisible, page())
        .with_search_term(Some("alien".to_string()))
        .with_sorts(vec![sort])
        .with_genre(Some("Drama".to_string()))
        .with_production_year(Some(1979))
        .with_scope(CatalogItemsScope::Parent(BrowseParent::Item(2)));
    assert_eq!(q.search_term(), Some("alien"));
    assert_eq!(q.sorts(), &[sort]);
    assert_eq!((sort.field(), sort.order()), (CatalogSortField::ProductionYear, CatalogSortOrder::Descending));
    assert_eq!(q.genre(), Some("Drama"));
    assert_eq!(q.production_year(), Some(1979));
    assert_eq!(q.scope(), CatalogItemsScope::Parent(BrowseParent::Item(2)));
    assert!(!q.recursive() && !q.recursive_for_library());
    assert_eq!(q.page().limit(), 20);
}

#[test]
fn parents_publications_and_counts() {
    assert_eq!(resolve_parent(5, true, false), Ok(Some(BrowseParent::Library(5))));
    assert_eq!(resolve_parent(5, false, true), Ok(Some(BrowseParent::Item(5))));
    assert_eq!(resolve_parent(5, false, false), Ok(None));
    assert_eq!(resolve_parent(5, true, true), Err(CatalogQueryError::AmbiguousParent(5)));
    assert_eq!(active_publication(5, &[]), Ok(None));
    assert_eq!(active_publication(5, &[8]), Ok(Some(8)));
    assert_eq!(active_publication(5, &[8, 9]), Err(CatalogQueryError::AmbiguousStructurePublication(5)));
    assert_eq!(record_count(12), Ok(12));
    assert_eq!(record_count(-1), Err(CatalogQueryError::InvalidCount));
    assert_eq!(image_priority(7), Ok(7));
    assert_eq!(image_priority(i32::MAX as u32), Ok(i32::MAX));
    assert_eq!(image_priority(i32::MAX as u32 + 1), Err(CatalogQueryError::InvalidPriority));
}

#[test]
fn stored_records() {
    let asset = AssetRecord::from_stored("ab".to_string(), "image/png".to_string(), Some(10), None, 99, "a/b.png".to_string()).unwrap();
    assert_eq!((asset.sha256(), asset.mime_type(), asset.width(), asset.height()), ("ab", "image/png", Some(10), None));
    assert_eq!((asset.byte_size(), asset.local_relative_path()), (99, "a/b.png"));
    assert_eq!(
        AssetRecord::from_stored(String::new(), String::new(), None, None, -1, String::new()).map(|_| ()),
        Err(CatalogQueryError::InvalidAssetSize)
    );
    let facets = CatalogFilterFacets::from_parts(vec!["Drama".to_string()], vec![1999, 2001]);
    assert_eq!((facets.genres().len(), facets.production_years()), (1, &[1999, 2001][..]));
    let revisions = CacheRevisions::from_parts(3, 4);
    assert_eq!((revisions.catalog_generation(), revisions.user_revision()), (3, 4));
    let library = LibraryViewRecord::from_parts(1, "Movies".to_string(), "movies".to_string());
    assert_eq!((library.id(), library.name(), library.collection_type()), (1, "Movies", "movies"));
    let code = CatalogNamedCodeRecord::from_parts("fr".to_string(), "French".to_string());
    assert_eq!((code.code(), code.name()), ("fr", "French"));
    let credit = CatalogCreditRecord::from_parts(2, "Ann".to_string(), "Lead".to_string(), Some("Actor".to_string()), 1);
    assert_eq!((credit.person_id(), credit.person_name(), credit.role(), credit.credit_type(), credit.sort_order()), (2, "Ann", "Lead", Some("Actor"), 1));
    let page = CatalogPage::new(vec![1, 2], 10, 4);
    assert_eq!((page.items(), page.total_record_count(), page.start_index()), (&[1, 2][..], 10, 4));
}

#[test]
fn storage_scope_readiness() {
    let ready = LazyStorageScope::from_parts(1, 2, true, 5, 5, true);
    assert!(ready.is_ready() && ready.is_ready_for_direct_source());
    assert_eq!(ready.metadata_input_revision(), 5);
    let lagging = LazyStorageScope::from_parts(1, 2, true, 6, 5, true);
    assert!(!lagging.is_ready() && !lagging.is_ready_for_direct_source());
    let unindexed = LazyStorageScope::from_parts(1, 2, false, 9, 5, true);
    assert_eq!(unindexed.metadata_input_revision(), 5);
    assert!(!unindexed.is_ready() && unindexed.is_ready_for_direct_source());
    let unreconciled = LazyStorageScope::from_parts(1, 2, true, 5, 5, false);
    assert!(!unreconciled.is_ready() && !unreconciled.is_ready_for_direct_source());
    assert_eq!((ready.storage_root_id(), ready.storage_object_id(), ready.children_revision(), ready.reconciled_revision()), (1, 2, 5, 5));
}

#[test]
fn lazy_work_targets() {
    let target = LazyCatalogWorkTarget::from_stored("Series", 4, 4, Some(1), 2, 3, true, false).unwrap();
    assert!(target.includes_direct_children());
    assert!(!target.needs_metadata_resolution(1));
    assert!(!target.needs_metadata_resolution(0));
    assert!(target.needs_metadata_resolution(2));
    let stale = LazyCatalogWorkTarget::from_stored("Audio", 5, 4, Some(2), 0, 0, false, false).unwrap();
    assert!(!stale.includes_direct_children());
    assert!(stale.needs_metadata_resolution(0));
    let never = LazyCatalogWorkTarget::from_stored("Movie", 1, 1, None, 0, 0, false, false).unwrap();
    assert!(never.needs_metadata_resolution(0));
    assert_eq!(
        LazyCatalogWorkTarget::from_stored("Book", 1, 1, None, 0, 0, false, false).map(|_| ()),
        Err(CatalogQueryError::InvalidItemType)
    );
    let scope = LazyStorageScope::from_parts(1, 2, true, 5, 5, true);
    let scoped = target.with_storage_scope(Some(scope));
    assert_eq!(scoped.storage_scope(), Some(scope));
    assert_eq!(
        (scoped.item_type(), scoped.metadata_revision(), scoped.structure_revision(), scoped.source_revision()),
        (CatalogItemType::Series, 4, 2, 3)
    );
    assert!(scoped.has_current_structure() && !scoped.has_current_sources());
}

#[test]
fn search_terms_become_escaped_like_patterns() {
    assert_eq!(search_pattern("Alien"), "%alien%");
    assert_eq!(search_pattern("100%_a\\b"), "%100\\%\\_a\\\\b%");
    assert_eq!(search_pattern(""), "%%");
    assert_eq!(search_pattern("ÉCOLE"), "%école%");
    assert_eq!(search_pattern("İ"), format!("%{}%", "İ".to_lowercase()));
}

fn image_row(item_id: u128, image_type: &str, sha256: &str, priority: i32, width: Option<i32>, height: Option<i32>) -> ImageTagRow {
    ImageTagRow {
        item_id,
        image_type: image_type.to_string(),
        sha256: sha256.to_string(),
        priority,
        width,
        height,
    }
}

#[test]
fn image_tags_keep_first_priority_images_and_every_backdrop() {
    let rows = vec![
        image_row(1, "Backdrop", "b0", 0, None, None),
        image_row(1, "Backdrop", "b1", 1, None, None),
        image_row(1, "Primary", "p0", 0, Some(200), Some(300)),
        image_row(1, "Primary", "p1", 1, Some(10), Some(10)),
        image_row(2, "Primary", "q0", 0, Some(0), Some(300)),
        image_row(2, "Thumb", "t0", 0, None, None),
    ];
    let tags = attach_image_tags(&rows, &[1, 2, 3]);
    assert_eq!(tags.len(), 3);

    let mut first = tags[0].image_tags.clone();
    first.sort();
    assert_eq!(
        first,
        vec![("Backdrop".to_string(), "b0".to_string()), ("Primary".to_string(), "p0".to_string())]
    );
    assert_eq!(tags[0].backdrop_image_tags, vec!["b0".to_string(), "b1".to_string()]);
    assert_eq!(tags[0].primary_dimensions, Some((200, 300)));

    let mut second = tags[1].image_tags.clone();
    second.sort();
    assert_eq!(
        second,
        vec![("Primary".to_string(), "q0".to_string()), ("Thumb".to_string(), "t0".to_string())]
    );
    assert!(tags[1].backdrop_image_tags.is_empty());
    assert_eq!(tags[1].primary_dimensions, None);

    assert!(tags[2].image_tags.is_empty());
    assert!(tags[2].backdrop_image_tags.is_empty());
    assert_eq!(tags[2].primary_dimensions, None);
}

#[test]
fn later_first_priority_image_of_a_type_replaces_the_earlier() {
    let rows = vec![
        image_row(7, "Logo", "old", 0, None, None),
        image_row(7, "Logo", "new", 0, None, None),
    ];
    let tags = attach_image_tags(&rows, &[7]);
    assert_eq!(tags[0].image_tags, vec![("Logo".to_string(), "new".to_string())]);
}
