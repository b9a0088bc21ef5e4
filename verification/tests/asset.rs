use tjxy_db::asset::{check_blob, publication_report, reference_changed, valid_text, AssetPublication, AssetRepositoryError};

const DIGEST: &str = "0123456789abcdef0123456789abcdef0123456789abcdef0123456789abcdef";

fn publication(sha256: &str, width: u32, byte_size: u64, reference: Option<&str>) -> Result<AssetPublication, AssetRepositoryError> {
    AssetPublication::new(
        1,
        "Primary".to_string(),
        0,
        sha256.to_string(),
        "image/jpeg".to_string(),
        width,
        300,
        byte_size,
        "ab/cd.jpg".to_string(),
        "tmdb".to_string(),
        reference.map(str::to_string),
    )
}

#[test]
fn publications_are_checked() {
    let p = publication(DIGEST, 200, 5_000, Some("/poster.jpg")).unwrap();
    assert_eq!((p.item_id(), p.image_type(), p.priority(), p.sha256()), (1, "Primary", 0, DIGEST));
    assert_eq!((p.width(), p.height(), p.byte_size(), p.mime_type()), (200, 300, 5_000, "image/jpeg"));
    assert_eq!((p.local_relative_path(), p.source_provider(), p.source_reference()), ("ab/cd.jpg", "tmdb", Some("/poster.jpg")));
    let invalid = Err(AssetRepositoryError::InvalidPublication);
    assert_eq!(publication(&DIGEST.to_uppercase(), 200, 5_000, None).map(|_| ()), invalid);
    assert_eq!(publication(&DIGEST[..63], 200, 5_000, None).map(|_| ()), invalid);
    assert_eq!(publication(DIGEST, 0, 5_000, None).map(|_| ()), invalid);
    assert_eq!(publication(DIGEST, i32::MAX as u32 + 1, 5_000, None).map(|_| ()), invalid);
    assert_eq!(publication(DIGEST, 200, 0, None).map(|_| ()), invalid);
    assert_eq!(publication(DIGEST, 200, i64::MAX as u64 + 1, None).map(|_| ()), invalid);
    assert_eq!(publication(DIGEST, 200, 5_000, Some(" ")).map(|_| ()), invalid);
    assert!(publication(DIGEST, i32::MAX as u32, i64::MAX as u64, None).is_ok());
    let high_priority = AssetPublication::new(1, "Primary".to_string(), i32::MAX as u32 + 1, DIGEST.to_string(), "m".to_string(), 1, 1, 1, "p".to_string(), "s".to_string(), None);
    assert_eq!(high_priority.map(|_| ()), invalid);
    assert!(valid_text("image/png"));
    assert!(!valid_text(&"x".repeat(2049)));
}

#[test]
fn stored_blobs_must_agree() {
    let p = publication(DIGEST, 200, 5_000, None).unwrap();
    assert_eq!(check_blob(&p, true, "image/jpeg", Some(200), Some(300), 5_000, "ab/cd.jpg"), Ok(true));
    assert_eq!(check_blob(&p, false, "image/jpeg", Some(200), Some(300), 5_000, "ab/cd.jpg"), Ok(false));
    let conflict = Err(AssetRepositoryError::StoredBlobConflict);
    assert_eq!(check_blob(&p, true, "image/png", Some(200), Some(300), 5_000, "ab/cd.jpg"), conflict);
    assert_eq!(check_blob(&p, true, "image/jpeg", None, Some(300), 5_000, "ab/cd.jpg"), conflict);
    assert_eq!(check_blob(&p, true, "image/jpeg", Some(200), Some(300), 5_001, "ab/cd.jpg"), conflict);
    assert_eq!(check_blob(&p, true, "image/jpeg", Some(200), Some(300), 5_000, "other.jpg"), conflict);
}

#[test]
fn republishing_the_same_image_changes_no_reference() {
    let p = publication(DIGEST, 200, 5_000, Some("/poster.jpg")).unwrap();
    assert!(reference_changed(None, 4, &p));
    assert!(!reference_changed(Some((4, "tmdb", Some("/poster.jpg"))), 4, &p));
    assert!(reference_changed(Some((5, "tmdb", Some("/poster.jpg"))), 4, &p));
    assert!(reference_changed(Some((4, "local", Some("/poster.jpg"))), 4, &p));
    assert!(reference_changed(Some((4, "tmdb", None)), 4, &p));
    let unreferenced = publication(DIGEST, 200, 5_000, None).unwrap();
    assert!(!reference_changed(Some((4, "tmdb", None)), 4, &unreferenced));
    let report = publication_report(true, false);
    assert!(report.reused_blob() && !report.reference_changed());
}
