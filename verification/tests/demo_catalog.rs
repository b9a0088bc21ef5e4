use tjxy_db::demo_catalog::{
    value_hash, publication_report,
    validate_publication, DemoSeason, DemoSeries,
    catalog_item_columns, catalog_item_update_columns, check_asset_count, check_publication_shape,
    check_unique_identities, demo_catalog_item_id, item_kind, stable_id, stored_counts, structure_state,
    validate_item, DemoCatalogPublicationError, DemoCatalogPublicationReport, DemoItem, MetadataItemKind,
    DEMO_NAMESPACE, MOVIE_LIBRARY_KEY,
};
use tjxy_db::identity::{hyphenated_text, NAMESPACE_OID};
use uuid::Uuid;

fn v5(name: &str) -> u128 {
    Uuid::new_v5(&Uuid::from_u128(DEMO_NAMESPACE), name.as_bytes()).as_u128()
}

#[test]
fn demo_ids_are_name_based_uuids() {
    assert_eq!(demo_catalog_item_id(MetadataItemKind::Movie, 603), v5("item:Movie:603"));
    assert_eq!(demo_catalog_item_id(MetadataItemKind::Episode, 0), v5("item:Episode:0"));
    assert_eq!(demo_catalog_item_id(MetadataItemKind::Season, u64::MAX), v5(&format!("item:Season:{}", u64::MAX)));
    assert_ne!(demo_catalog_item_id(MetadataItemKind::Movie, 1), demo_catalog_item_id(MetadataItemKind::Series, 1));
    assert_eq!(stable_id(MOVIE_LIBRARY_KEY), v5("library:movies"));
    assert_eq!(
        Uuid::from_u128(DEMO_NAMESPACE).to_string(),
        "8fd6fbd6-d3e4-4cf5-9488-49ce058597aa"
    );
}

#[test]
fn ids_render_hyphenated() {
    assert_eq!(hyphenated_text(NAMESPACE_OID), "6ba7b812-9dad-11d1-80b4-00c04fd430c8");
    assert_eq!(hyphenated_text(0), "00000000-0000-0000-0000-000000000000");
    let id = demo_catalog_item_id(MetadataItemKind::Movie, 603);
    assert_eq!(hyphenated_text(id), Uuid::from_u128(id).to_string());
}

#[test]
fn kinds_name_their_items_and_structure() {
    assert_eq!(item_kind(MetadataItemKind::Series), "Series");
    assert_eq!(structure_state(MetadataItemKind::Series), "Expanded");
    assert_eq!(structure_state(MetadataItemKind::Season), "Expanded");
    assert_eq!(structure_state(MetadataItemKind::Movie), "NotApplicable");
    assert_eq!(structure_state(MetadataItemKind::Episode), "NotApplicable");
}

#[test]
fn publications_are_bounded_and_unique() {
    let item = DemoItem { kind: MetadataItemKind::Movie, provider_id: 603, title: "The Matrix".to_string() };
    assert_eq!(validate_item(&item, MetadataItemKind::Movie), Ok(()));
    let invalid = Err(DemoCatalogPublicationError::InvalidPublication);
    assert_eq!(validate_item(&item, MetadataItemKind::Series), invalid);
    assert_eq!(validate_item(&DemoItem { kind: MetadataItemKind::Movie, provider_id: 0, title: "x".to_string() }, MetadataItemKind::Movie), invalid);
    assert_eq!(validate_item(&DemoItem { kind: MetadataItemKind::Movie, provider_id: 1, title: String::new() }, MetadataItemKind::Movie), invalid);
    assert_eq!(validate_item(&DemoItem { kind: MetadataItemKind::Movie, provider_id: 1, title: "t".repeat(513) }, MetadataItemKind::Movie), invalid);
    assert_eq!(check_publication_shape(1, 0, "en-US"), Ok(()));
    assert_eq!(check_publication_shape(0, 0, "en-US"), invalid);
    assert_eq!(check_publication_shape(1, 1, ""), invalid);
    assert_eq!(check_publication_shape(1, 1, &"l".repeat(33)), invalid);
    assert_eq!(check_publication_shape(101, 1, "en"), invalid);
    assert_eq!(check_publication_shape(100, 100, "en"), Ok(()));
    assert_eq!(check_unique_identities(&[(MetadataItemKind::Movie, 1), (MetadataItemKind::Series, 1)]), Ok(()));
    assert_eq!(check_unique_identities(&[(MetadataItemKind::Movie, 1), (MetadataItemKind::Movie, 1)]), invalid);
    assert_eq!(check_asset_count(1_000), Ok(()));
    assert_eq!(check_asset_count(1_001), invalid);
    assert_eq!(stored_counts(Some(10), Some(3)), Ok((Some(10), Some(3))));
    assert_eq!(stored_counts(None, None), Ok((None, None)));
    assert_eq!(stored_counts(Some(u64::MAX), None), Err(DemoCatalogPublicationError::InvalidPublication));
    assert_eq!(stored_counts(None, Some(u32::MAX)), Err(DemoCatalogPublicationError::InvalidPublication));
}

#[test]
fn catalog_columns() {
    let columns = catalog_item_columns();
    assert_eq!(columns.len(), 33);
    assert_eq!(columns[0], "id");
    assert_eq!(columns[32], "index_number");
    let update = catalog_item_update_columns();
    assert_eq!(update, columns[1..].to_vec());
    let report = DemoCatalogPublicationReport::new(2, 1, 3, 12);
    assert_eq!((report.movies(), report.series(), report.seasons(), report.episodes()), (2, 1, 3, 12));
}

fn item(kind: MetadataItemKind, provider_id: u64) -> DemoItem {
    DemoItem { kind, provider_id, title: format!("Item {provider_id}") }
}

fn show(id: u64, seasons: Vec<(u64, Vec<u64>)>) -> DemoSeries {
    DemoSeries {
        item: item(MetadataItemKind::Series, id),
        seasons: seasons
            .into_iter()
            .map(|(s, episodes)| DemoSeason {
                item: item(MetadataItemKind::Season, s),
                episodes: episodes.into_iter().map(|e| item(MetadataItemKind::Episode, e)).collect(),
            })
            .collect(),
    }
}

#[test]
fn whole_publications_are_checked() {
    let movies = vec![item(MetadataItemKind::Movie, 603), item(MetadataItemKind::Movie, 604)];
    let series = vec![show(1399, vec![(1, vec![1, 2]), (2, vec![3])]), show(1400, vec![])];
    assert_eq!(validate_publication(&movies, &series, "en-US"), Ok(()));
    assert_eq!(validate_publication(&movies, &[], "en-US"), Ok(()));
    let invalid = Err(DemoCatalogPublicationError::InvalidPublication);
    assert_eq!(validate_publication(&[], &[], "en-US"), invalid);
    assert_eq!(validate_publication(&movies, &series, ""), invalid);
    // The same identity twice, within and across kinds' trees.
    assert_eq!(validate_publication(&[item(MetadataItemKind::Movie, 1), item(MetadataItemKind::Movie, 1)], &[], "en"), invalid);
    assert_eq!(validate_publication(&[], &[show(5, vec![(1, vec![7]), (2, vec![7])])], "en"), invalid);
    // The same provider id under different kinds is allowed.
    assert_eq!(validate_publication(&[item(MetadataItemKind::Movie, 5)], &[show(5, vec![(5, vec![5])])], "en"), Ok(()));
    // A wrong kind in any place.
    assert_eq!(validate_publication(&[item(MetadataItemKind::Series, 1)], &[], "en"), invalid);
    let mut wrong = show(9, vec![(1, vec![2])]);
    wrong.seasons[0].episodes[0].kind = MetadataItemKind::Season;
    assert_eq!(validate_publication(&[], &[wrong], "en"), invalid);
    let mut untitled = show(9, vec![(1, vec![2])]);
    untitled.seasons[0].item.title = String::new();
    assert_eq!(validate_publication(&[], &[untitled], "en"), invalid);
}

#[test]
fn stored_values_are_hashed_by_their_json_text() {
    let mut object = serde_json::Map::new();
    object.insert("id".to_string(), serde_json::Value::from(603));
    let value = serde_json::Value::Object(object);
    assert_eq!(value_hash(&value), tjxy_db::hashing::text_sha256("{\"id\":603}"));
}

#[test]
fn publication_report_counts_every_level() {
    let movies = vec![item(MetadataItemKind::Movie, 1), item(MetadataItemKind::Movie, 2)];
    let series = vec![show(10, vec![(11, vec![12, 13]), (14, vec![15])]), show(20, vec![]), show(30, vec![(31, vec![])])];
    let report = publication_report(&movies, &series);
    assert_eq!((report.movies(), report.series(), report.seasons(), report.episodes()), (2, 3, 3, 3));
    let empty = publication_report(&[], &[]);
    assert_eq!((empty.movies(), empty.series(), empty.seasons(), empty.episodes()), (0, 0, 0, 0));
}

#[test]
fn value_hash_is_the_digest_of_the_compact_json_text() {
    let value: serde_json::Value = serde_json::from_str("{ \"a\" : [1, true] }").unwrap();
    assert_eq!(value_hash(&value), tjxy_db::hashing::text_sha256("{\"a\":[1,true]}"));
    assert_ne!(value_hash(&value), value_hash(&serde_json::Value::Null));
}
