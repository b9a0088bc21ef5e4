use sha2::{Digest, Sha256};
use tjxy_db::catalog_publication::{
    check_batch_size, check_loaded_publication, check_owner_revision, check_structure_identity, episode_ids,
    is_rooted_projection, manifest_hash, seal_outcome, switch_outcome, valid_text, validate_projection,
    validate_publication_row, CatalogPublicationError, StoredProjectionRow, StoredPublicationRow,
    StructurePublicationManifest, StructurePublicationRow,
};

fn hash_text(hasher: &mut Sha256, value: &str) {
    hasher.update((value.len() as u64).to_be_bytes());
    hasher.update(value.as_bytes());
}

fn expected_row_hash(
    ids: [u128; 4],
    item_type: &str,
    name: &str,
    sort_name: &str,
    year: Option<i32>,
    overview: Option<&str>,
) -> String {
    let mut hasher = Sha256::new();
    for id in ids {
        hasher.update(id.to_be_bytes());
    }
    hash_text(&mut hasher, item_type);
    hash_text(&mut hasher, name);
    hash_text(&mut hasher, sort_name);
    match year {
        Some(y) => {
            hasher.update([1u8]);
            hasher.update(y.to_be_bytes());
        }
        None => hasher.update([0u8]),
    }
    match overview {
        Some(o) => {
            hasher.update([1u8]);
            hash_text(&mut hasher, o);
        }
        None => hasher.update([0u8]),
    }
    format!("{:x}", hasher.finalize())
}

fn expected_manifest(entries: &[(u128, &str)]) -> String {
    let mut sorted = entries.to_vec();
    sorted.sort_by_key(|e| e.0);
    let mut hasher = Sha256::new();
    for (id, h) in sorted {
        hasher.update(id.to_be_bytes());
        hasher.update(h.as_bytes());
    }
    format!("{:x}", hasher.finalize())
}

fn row(id: u128, parent: u128, item_type: &str, name: &str) -> StructurePublicationRow {
    StructurePublicationRow::new(id, parent, 7, 8, item_type.to_string(), name.to_string(), name.to_string(), None, None)
        .unwrap()
}

fn stored(item_id: u128, parent_id: u128, row_sha256: &str) -> StoredProjectionRow {
    StoredProjectionRow {
        item_id,
        parent_id,
        item_type: "Season".to_string(),
        row_sha256: row_sha256.to_string(),
    }
}

#[test]
fn row_digest_is_sha256_of_the_row_message() {
    let r = StructurePublicationRow::new(
        11,
        10,
        3,
        4,
        "Episode".to_string(),
        "Pilot".to_string(),
        "pilot".to_string(),
        Some(2024),
        Some("First episode".to_string()),
    )
    .unwrap();
    assert_eq!(r.id(), 11);
    assert_eq!(r.parent_id(), 10);
    assert_eq!(
        r.row_sha256(),
        expected_row_hash([11, 10, 3, 4], "Episode", "Pilot", "pilot", Some(2024), Some("First episode"))
    );
    let bare = row(12, 10, "Folder", "Extras");
    assert_eq!(
        bare.row_sha256(),
        expected_row_hash([12, 10, 7, 8], "Folder", "Extras", "Extras", None, None)
    );
    let negative_year = StructurePublicationRow::new(
        13, 10, 7, 8, "Season".to_string(), "S".to_string(), "S".to_string(), Some(-5), None,
    )
    .unwrap();
    assert_eq!(
        negative_year.row_sha256(),
        expected_row_hash([13, 10, 7, 8], "Season", "S", "S", Some(-5), None)
    );
}

#[test]
fn invalid_structure_rows_are_refused() {
    let new = |item_type: &str, name: &str, sort_name: &str, overview: Option<String>| {
        StructurePublicationRow::new(1, 2, 3, 4, item_type.to_string(), name.to_string(), sort_name.to_string(), None, overview)
    };
    let refused = Err(CatalogPublicationError::InvalidStructureRow);
    assert_eq!(new("Movie", "a", "a", None).map(|_| ()), refused);
    assert_eq!(new("season", "a", "a", None).map(|_| ()), refused);
    assert_eq!(new("Season", "   ", "a", None).map(|_| ()), refused);
    assert_eq!(new("Season", "a", "", None).map(|_| ()), refused);
    assert_eq!(new("Season", "a\u{7}b", "a", None).map(|_| ()), refused);
    assert_eq!(new("Season", "a", "a", Some("line\nbreak".to_string())).map(|_| ()), refused);
    assert_eq!(new("Season", "a", "a", Some("x".repeat(32_769))).map(|_| ()), refused);
    assert!(new("Season", "a", "a", Some("x".repeat(32_768))).is_ok());
    assert!(new("Season", "a", "a", Some(String::new())).is_ok());
    assert!(new("Folder", &"n".repeat(512), "a", None).is_ok());
    assert_eq!(new("Folder", &"n".repeat(513), "a", None).map(|_| ()), refused);
    assert!(new("Episode", &"é".repeat(512), "a", None).is_ok());
}

#[test]
fn valid_text_bounds_characters_not_bytes() {
    assert!(valid_text(" x ", 3));
    assert!(!valid_text("abcd", 3));
    assert!(valid_text("ééé", 3));
    assert!(!valid_text("\t", 10));
    assert!(!valid_text("a\u{0}", 10));
}

#[test]
fn manifest_is_independent_of_row_order() {
    let a = row(5, 1, "Season", "A");
    let b = row(3, 1, "Season", "B");
    let c = row(9, 3, "Episode", "C");
    let m1 = StructurePublicationManifest::from_rows(&[a.clone(), b.clone(), c.clone()]).unwrap();
    let m2 = StructurePublicationManifest::from_rows(&[c.clone(), a.clone(), b.clone()]).unwrap();
    assert_eq!(m1.sha256(), m2.sha256());
    assert_eq!(m1.expected_row_count(), 3);
    let expected = expected_manifest(&[(5, a.row_sha256()), (3, b.row_sha256()), (9, c.row_sha256())]);
    assert_eq!(m1.sha256(), expected);
}

#[test]
fn manifest_refuses_repeated_item_ids() {
    let a = row(5, 1, "Season", "A");
    let a2 = row(5, 1, "Season", "Another");
    assert_eq!(
        StructurePublicationManifest::from_rows(&[a, a2]).map(|_| ()),
        Err(CatalogPublicationError::InvalidManifest)
    );
    assert_eq!(
        manifest_hash(&[(1, "x".to_string()), (2, "y".to_string()), (1, "z".to_string())]),
        Err(CatalogPublicationError::InvalidManifest)
    );
}

#[test]
fn manifest_hash_of_known_entries() {
    assert_eq!(
        manifest_hash(&[]).unwrap(),
        "e3b0c44298fc1c149afbf4c8996fb92427ae41e4649b934ca495991b7852b855"
    );
    let got = manifest_hash(&[(2, "bb".to_string()), (1, "aa".to_string())]).unwrap();
    assert_eq!(got, expected_manifest(&[(1, "aa"), (2, "bb")]));
    assert_eq!(got.len(), 64);
    let empty_manifest = StructurePublicationManifest::from_rows(&[]).unwrap();
    assert_eq!(empty_manifest.expected_row_count(), 0);
}

#[test]
fn rooted_projection_topologies() {
    assert!(is_rooted_projection(1, &[]));
    assert!(is_rooted_projection(1, &[(2, 1), (3, 2), (4, 3)]));
    assert!(is_rooted_projection(1, &[(4, 3), (3, 2), (2, 1)]));
    assert!(!is_rooted_projection(1, &[(2, 3), (3, 2)]));
    assert!(!is_rooted_projection(1, &[(2, 2)]));
    assert!(!is_rooted_projection(1, &[(2, 9)]));
    assert!(!is_rooted_projection(1, &[(1, 5), (2, 1)]));
    assert!(!is_rooted_projection(1, &[(2, 1), (3, 4), (4, 3)]));
}

#[test]
fn staged_projection_is_checked_before_sealing() {
    let entries = [(2u128, "h2"), (3u128, "h3")];
    let digest = expected_manifest(&entries);
    let rows = vec![stored(2, 1, "h2"), stored(3, 2, "h3")];
    assert_eq!(validate_projection(1, 2, &digest, &rows), Ok(()));
    assert_eq!(
        validate_projection(1, 3, &digest, &rows),
        Err(CatalogPublicationError::ManifestMismatch)
    );
    assert_eq!(
        validate_projection(1, -1, &digest, &rows),
        Err(CatalogPublicationError::ManifestMismatch)
    );
    assert_eq!(
        validate_projection(1, 2, "0000", &rows),
        Err(CatalogPublicationError::ManifestMismatch)
    );
    let duplicated = vec![stored(2, 1, "h2"), stored(2, 1, "h3")];
    assert_eq!(
        validate_projection(1, 2, &digest, &duplicated),
        Err(CatalogPublicationError::InvalidManifest)
    );
    let orphan = vec![stored(2, 9, "h2"), stored(3, 2, "h3")];
    assert_eq!(
        validate_projection(1, 2, &digest, &orphan),
        Err(CatalogPublicationError::InvalidStructure)
    );
}

fn publication_row(manifest: &StructurePublicationManifest) -> StoredPublicationRow {
    StoredPublicationRow {
        id: 70,
        job_id: 5,
        owner_catalog_item_id: 1,
        publication_kind: "Structure".to_string(),
        expected_revision: 3,
        input_sync_revision: Some(9),
        state: "Building".to_string(),
        manifest_sha256: manifest.sha256().to_string(),
        expected_row_count: manifest.expected_row_count(),
        source_manifest_sha256: None,
        expected_source_row_count: None,
    }
}

#[test]
fn publication_rows_must_match_the_claimed_job_and_manifest() {
    let manifest = StructurePublicationManifest::from_rows(&[row(2, 1, "Season", "S1")]).unwrap();
    let good = publication_row(&manifest);
    assert_eq!(validate_publication_row(&good, 5, 1, 3, Some(9), &manifest), Ok(70));
    let mut ready = publication_row(&manifest);
    ready.state = "Ready".to_string();
    assert_eq!(validate_publication_row(&ready, 5, 1, 3, Some(9), &manifest), Ok(70));
    let invalid = Err(CatalogPublicationError::InvalidPublication);
    assert_eq!(validate_publication_row(&good, 6, 1, 3, Some(9), &manifest), invalid);
    assert_eq!(validate_publication_row(&good, 5, 2, 3, Some(9), &manifest), invalid);
    assert_eq!(validate_publication_row(&good, 5, 1, 4, Some(9), &manifest), invalid);
    assert_eq!(validate_publication_row(&good, 5, 1, 3, None, &manifest), invalid);
    let mut active = publication_row(&manifest);
    active.state = "Active".to_string();
    assert_eq!(validate_publication_row(&active, 5, 1, 3, Some(9), &manifest), invalid);
    let mut sourced = publication_row(&manifest);
    sourced.source_manifest_sha256 = Some("abc".to_string());
    assert_eq!(validate_publication_row(&sourced, 5, 1, 3, Some(9), &manifest), invalid);
    let other = StructurePublicationManifest::from_rows(&[]).unwrap();
    assert_eq!(validate_publication_row(&good, 5, 1, 3, Some(9), &other), invalid);
    assert_eq!(check_loaded_publication(&good, 5, "Building"), Ok(()));
    assert_eq!(check_loaded_publication(&good, 5, "Ready"), Err(CatalogPublicationError::InvalidPublication));
    assert_eq!(check_loaded_publication(&good, 4, "Building"), Err(CatalogPublicationError::InvalidPublication));
}

#[test]
fn staging_sealing_and_publishing_checks() {
    assert_eq!(check_batch_size(5_000), Ok(()));
    assert_eq!(check_batch_size(5_001), Err(CatalogPublicationError::InvalidStructureRow));
    let conflict = Err(CatalogPublicationError::StableIdentityConflict);
    assert_eq!(check_structure_identity(Some(("Season", Some(1))), "Season", 1), Ok(()));
    assert_eq!(check_structure_identity(Some(("Episode", Some(1))), "Season", 1), conflict);
    assert_eq!(check_structure_identity(Some(("Season", Some(2))), "Season", 1), conflict);
    assert_eq!(check_structure_identity(Some(("Season", None)), "Season", 1), conflict);
    assert_eq!(check_structure_identity(None, "Season", 1), conflict);
    assert_eq!(check_owner_revision(Some(3), 3), Ok(()));
    assert_eq!(check_owner_revision(Some(4), 3), Err(CatalogPublicationError::StaleExpectedRevision));
    assert_eq!(check_owner_revision(None, 3), Err(CatalogPublicationError::StaleExpectedRevision));
    assert_eq!(switch_outcome(1), Ok(()));
    assert_eq!(switch_outcome(0), Err(CatalogPublicationError::StaleExpectedRevision));
    assert_eq!(seal_outcome(1), Ok(()));
    assert_eq!(seal_outcome(2), Err(CatalogPublicationError::InvalidPublication));
}

#[test]
fn episodes_of_a_projection_are_listed_once() {
    let episode = |id: u128| StoredProjectionRow { item_id: id, parent_id: 2, item_type: "Episode".to_string(), row_sha256: String::new() };
    let rows = vec![stored(2, 1, "h"), episode(3), episode(4), episode(3)];
    let mut ids = episode_ids(&rows);
    ids.sort();
    assert_eq!(ids, vec![3, 4]);
    assert!(episode_ids(&[stored(2, 1, "h")]).is_empty());
}

#[test]
fn a_projection_staged_from_its_manifest_seals_when_rooted() {
    let rows = vec![row(2, 1, "Season", "S1"), row(3, 2, "Episode", "E1"), row(4, 2, "Episode", "E2")];
    let manifest = StructurePublicationManifest::from_rows(&rows).unwrap();
    let staged: Vec<StoredProjectionRow> = [2usize, 0, 1]
        .iter()
        .map(|&i| stored(rows[i].id(), rows[i].parent_id(), rows[i].row_sha256()))
        .collect();
    assert_eq!(validate_projection(1, manifest.expected_row_count(), manifest.sha256(), &staged), Ok(()));
    assert_eq!(
        validate_projection(9, manifest.expected_row_count(), manifest.sha256(), &staged),
        Err(CatalogPublicationError::InvalidStructure)
    );
}
