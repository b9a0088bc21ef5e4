use tjxy_db::discover::MetadataRequirement;
use tjxy_db::full_scan::{binding_scan_policy, check_binding_revision, dependency_job_id, candidate_from_key, check_candidate_limit, FullScanPolicy, FullScanRepositoryError, FullScanRoot};
use uuid::Uuid;

fn policy(profile: &str, metadata: &str) -> FullScanPolicy {
    FullScanPolicy::from_parts(
        profile.to_string(),
        "title_layer".to_string(),
        metadata.to_string(),
        "automatic_scrape".to_string(),
        "import".to_string(),
        "background".to_string(),
        "eager".to_string(),
    )
}

#[test]
fn scan_policies() {
    assert_eq!(policy("Full", "full").metadata_requirement(), Ok(Some(MetadataRequirement::Full)));
    assert_eq!(policy("Full", "basic").metadata_requirement(), Ok(Some(MetadataRequirement::Basic)));
    assert_eq!(policy("Full", "none").metadata_requirement(), Ok(None));
    assert_eq!(policy("Lazy", "full").metadata_requirement(), Ok(None));
    assert_eq!(policy("Lazy", "deep").metadata_requirement(), Err(FullScanRepositoryError::InvalidStoredPolicy));
    let p = policy("Full", "full");
    assert!(p.selects_title_layer() && !p.selects_all_synced_objects());
    assert!(p.resolves_metadata() && !policy("Full", "none").resolves_metadata());
    assert!(p.expands_in_background() && !p.expands_eagerly() && p.probes_eagerly());
    assert_eq!((p.scan_profile(), p.metadata_source_mode(), p.local_metadata_access_mode()), ("Full", "automatic_scrape", "import"));
}

#[test]
fn roots_need_inventory_before_discovery() {
    let unindexed = FullScanRoot::from_parts(1, 2, 3, 4, 5, 5, 0, false, 0);
    assert!(unindexed.needs_inventory() && !unindexed.needs_discovery());
    let behind = FullScanRoot::from_parts(1, 2, 3, 4, 5, 5, 4, true, 5);
    assert!(!behind.needs_inventory() && behind.needs_discovery());
    let current = FullScanRoot::from_parts(1, 2, 3, 4, 5, 5, 5, true, 5);
    assert!(!current.needs_inventory() && !current.needs_discovery());
    assert_eq!((current.binding_id(), current.library_id(), current.root_id(), current.root_object_id()), (1, 2, 3, 4));
    assert_eq!((current.sync_revision(), current.reconciled_revision(), current.discovered_revision(), current.children_revision()), (5, 5, 5, 5));
}

#[test]
fn candidate_limits_and_keys() {
    assert_eq!(check_candidate_limit(1), Ok(()));
    assert_eq!(check_candidate_limit(64), Ok(()));
    assert_eq!(check_candidate_limit(0), Err(FullScanRepositoryError::InvalidCandidateLimit));
    assert_eq!(check_candidate_limit(65), Err(FullScanRepositoryError::InvalidCandidateLimit));
    let id = Uuid::from_u128(0x1234_5678_9abc_def0_1234_5678_9abc_def0);
    assert_eq!(candidate_from_key(&format!("candidate:{id}")), Ok(id.as_u128()));
    assert_eq!(candidate_from_key(&format!("a:{}", id.simple())), Ok(id.as_u128()));
    let corrupt = Err(FullScanRepositoryError::CorruptHybridCandidateBatch);
    assert_eq!(candidate_from_key(&id.to_string()), corrupt);
    assert_eq!(candidate_from_key("candidate:not-a-uuid"), corrupt);
    assert_eq!(candidate_from_key(&format!("a:b:{id}")), corrupt);
    assert_eq!(candidate_from_key(""), corrupt);
}

#[test]
fn root_binding_scans() {
    let p = binding_scan_policy("manual".to_string(), "read_only".to_string());
    assert_eq!(p.scan_profile(), "Full");
    assert!(p.selects_all_synced_objects() && p.expands_eagerly() && p.probes_eagerly());
    assert_eq!(p.metadata_requirement(), Ok(Some(MetadataRequirement::Full)));
    assert_eq!((p.metadata_source_mode(), p.local_metadata_access_mode()), ("manual", "read_only"));
    assert_eq!(check_binding_revision(3, 3), Ok(()));
    assert_eq!(check_binding_revision(3, 4), Err(FullScanRepositoryError::StaleLibrary));
    let id = Uuid::from_u128(77);
    assert_eq!(dependency_job_id(Some(&id.to_string())), Ok(77));
    assert_eq!(dependency_job_id(Some("x")), Err(FullScanRepositoryError::CorruptRootDependency));
    assert_eq!(dependency_job_id(None), Err(FullScanRepositoryError::CorruptRootDependency));
}
