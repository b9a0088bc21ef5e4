use tjxy_db::announcement::{
    check_receipt, acknowledged_receipt, offered_as_popup,
    check_acknowledgement, check_expected_revision, count_from_aggregate, fenced_write_outcome, plan_transition,
    plan_update, validate_input, validate_page, AnnouncementChange, AnnouncementDraftInput, AnnouncementKind,
    AnnouncementList, AnnouncementRecord, AnnouncementRepositoryError, AnnouncementStatus, AnnouncementView,
};

fn record(status: &str, content_version: i64, revision: i64) -> AnnouncementRecord {
    AnnouncementRecord::from_stored(
        9,
        "Maintenance".to_string(),
        "Tonight".to_string(),
        "standard",
        status,
        content_version,
        revision,
        None,
        100,
        200,
    )
    .unwrap()
}

fn draft(title: &str, body: &str, kind: AnnouncementKind) -> AnnouncementDraftInput {
    AnnouncementDraftInput::new(title.to_string(), body.to_string(), kind)
}

#[test]
fn kinds_and_statuses_round_trip_through_their_texts() {
    for kind in [AnnouncementKind::Popup, AnnouncementKind::Standard] {
        assert_eq!(AnnouncementKind::parse(kind.as_str()), Ok(kind));
    }
    for status in [AnnouncementStatus::Draft, AnnouncementStatus::Published, AnnouncementStatus::Archived] {
        assert_eq!(AnnouncementStatus::parse(status.as_str()), Ok(status));
    }
    assert_eq!(AnnouncementKind::Popup.as_str(), "popup");
    assert_eq!(AnnouncementStatus::Archived.as_str(), "archived");
    assert_eq!(AnnouncementKind::parse("Popup"), Err(AnnouncementRepositoryError::InvalidStoredValue));
    assert_eq!(AnnouncementStatus::parse(""), Err(AnnouncementRepositoryError::InvalidStoredValue));
}

#[test]
fn stored_rows_are_checked() {
    let a = record("published", 2, 5);
    assert_eq!(a.id(), 9);
    assert_eq!(a.kind(), AnnouncementKind::Standard);
    assert_eq!(a.status(), AnnouncementStatus::Published);
    assert_eq!((a.content_version(), a.revision(), a.created_at(), a.updated_at()), (2, 5, 100, 200));
    let bad = |kind: &str, status: &str, cv: i64, rev: i64| {
        AnnouncementRecord::from_stored(1, "t".to_string(), "b".to_string(), kind, status, cv, rev, None, 0, 0)
            .map(|_| ())
    };
    let invalid = Err(AnnouncementRepositoryError::InvalidStoredValue);
    assert_eq!(bad("standard", "draft", -1, 1), invalid);
    assert_eq!(bad("standard", "draft", 0, 0), invalid);
    assert_eq!(bad("banner", "draft", 0, 1), invalid);
    assert_eq!(bad("popup", "deleted", 0, 1), invalid);
    assert_eq!(bad("popup", "draft", 0, 1), Ok(()));
}

#[test]
fn content_rules() {
    assert_eq!(validate_input(&draft("Title", "Body\nwith\tbreaks\r", AnnouncementKind::Popup)), Ok(()));
    let invalid = Err(AnnouncementRepositoryError::InvalidInput);
    assert_eq!(validate_input(&draft(" ", "Body", AnnouncementKind::Popup)), invalid);
    assert_eq!(validate_input(&draft("Ti\ntle", "Body", AnnouncementKind::Popup)), invalid);
    assert_eq!(validate_input(&draft(&"t".repeat(201), "Body", AnnouncementKind::Popup)), invalid);
    assert_eq!(validate_input(&draft(&"t".repeat(200), "Body", AnnouncementKind::Popup)), Ok(()));
    assert_eq!(validate_input(&draft("T", " \n\t", AnnouncementKind::Popup)), invalid);
    assert_eq!(validate_input(&draft("T", "a\u{1b}b", AnnouncementKind::Popup)), invalid);
    assert_eq!(validate_input(&draft("T", &"b".repeat(32_001), AnnouncementKind::Popup)), invalid);
    assert_eq!(validate_input(&draft("T", &"b".repeat(32_000), AnnouncementKind::Popup)), Ok(()));
    // 30000 three-byte characters: within the character limit, over the byte limit.
    assert_eq!(validate_input(&draft("T", &"€".repeat(30_000), AnnouncementKind::Popup)), invalid);
    assert_eq!(validate_input(&draft("T", &"€".repeat(21_845), AnnouncementKind::Popup)), Ok(()));
}

#[test]
fn pages_revisions_and_counts() {
    assert_eq!(validate_page(0, 1), Ok(()));
    assert_eq!(validate_page(100_000, 100), Ok(()));
    assert_eq!(validate_page(0, 0), Err(AnnouncementRepositoryError::InvalidInput));
    assert_eq!(validate_page(0, 101), Err(AnnouncementRepositoryError::InvalidInput));
    assert_eq!(validate_page(100_001, 10), Err(AnnouncementRepositoryError::InvalidInput));
    assert_eq!(check_expected_revision(1), Ok(()));
    assert_eq!(check_expected_revision(0), Err(AnnouncementRepositoryError::InvalidRevision));
    assert_eq!(count_from_aggregate(7), Ok(7));
    assert_eq!(count_from_aggregate(-1), Err(AnnouncementRepositoryError::InvalidStoredValue));
    assert_eq!(fenced_write_outcome(1), Ok(()));
    assert_eq!(fenced_write_outcome(0), Err(AnnouncementRepositoryError::RevisionConflict));
    assert_eq!(fenced_write_outcome(2), Err(AnnouncementRepositoryError::RevisionConflict));
}

#[test]
fn editing_published_content_republishes_a_new_version() {
    let current = record("published", 2, 5);
    let change = plan_update(&current, &draft("Maintenance", "Tomorrow", AnnouncementKind::Standard), 5).unwrap();
    assert_eq!(
        change,
        AnnouncementChange {
            status: AnnouncementStatus::Published,
            content_version: 3,
            revision: 6,
            publish_now: true,
            clear_published_at: false,
        }
    );
    let view = AnnouncementView::new(record("published", change.content_version, change.revision), Some(2));
    assert!(!view.is_read());
    let same = plan_update(&current, &draft("Maintenance", "Tonight", AnnouncementKind::Standard), 5).unwrap();
    assert_eq!((same.content_version, same.revision, same.publish_now), (2, 6, false));
    let kind_only = plan_update(&current, &draft("Maintenance", "Tonight", AnnouncementKind::Popup), 5).unwrap();
    assert_eq!(kind_only.content_version, 3);
    let draft_edit = plan_update(&record("draft", 0, 1), &draft("New", "Text", AnnouncementKind::Popup), 1).unwrap();
    assert_eq!((draft_edit.content_version, draft_edit.revision, draft_edit.publish_now), (0, 2, false));
}

#[test]
fn stale_or_invalid_revisions_are_refused() {
    let current = record("published", 2, 5);
    let input = draft("Maintenance", "Tomorrow", AnnouncementKind::Standard);
    assert_eq!(plan_update(&current, &input, 4), Err(AnnouncementRepositoryError::RevisionConflict));
    assert_eq!(plan_update(&current, &input, 0), Err(AnnouncementRepositoryError::InvalidRevision));
    let at_max = record("draft", 0, i64::MAX);
    assert_eq!(plan_update(&at_max, &input, i64::MAX), Err(AnnouncementRepositoryError::InvalidRevision));
    let version_max = record("published", i64::MAX, 3);
    assert_eq!(plan_update(&version_max, &input, 3), Err(AnnouncementRepositoryError::InvalidRevision));
    // A second change at the same expected revision conflicts once the first was applied.
    let first = plan_update(&current, &input, 5).unwrap();
    let after = record("published", first.content_version, first.revision);
    assert_eq!(plan_update(&after, &input, 5), Err(AnnouncementRepositoryError::RevisionConflict));
}

#[test]
fn publishing_and_archiving_transitions() {
    let publish = plan_transition(&record("draft", 0, 1), 1, AnnouncementStatus::Published).unwrap();
    assert_eq!(
        publish,
        AnnouncementChange {
            status: AnnouncementStatus::Published,
            content_version: 1,
            revision: 2,
            publish_now: true,
            clear_published_at: false,
        }
    );
    let archive = plan_transition(&record("published", 1, 2), 2, AnnouncementStatus::Archived).unwrap();
    assert_eq!(
        archive,
        AnnouncementChange {
            status: AnnouncementStatus::Archived,
            content_version: 1,
            revision: 3,
            publish_now: false,
            clear_published_at: true,
        }
    );
    let republish = plan_transition(&record("archived", 1, 3), 3, AnnouncementStatus::Published).unwrap();
    assert_eq!((republish.content_version, republish.revision), (2, 4));
    assert_eq!(
        plan_transition(&record("published", 1, 2), 2, AnnouncementStatus::Published),
        Err(AnnouncementRepositoryError::InvalidTransition)
    );
    assert_eq!(
        plan_transition(&record("archived", 1, 2), 2, AnnouncementStatus::Archived),
        Err(AnnouncementRepositoryError::InvalidTransition)
    );
    assert_eq!(
        plan_transition(&record("draft", 0, 2), 1, AnnouncementStatus::Published),
        Err(AnnouncementRepositoryError::RevisionConflict)
    );
}

#[test]
fn receipts_only_for_the_current_published_version() {
    assert_eq!(check_acknowledgement(&record("published", 3, 4), 3), Ok(()));
    assert_eq!(check_acknowledgement(&record("published", 3, 4), 2), Err(AnnouncementRepositoryError::StaleVersion));
    assert_eq!(check_acknowledgement(&record("draft", 0, 4), 0), Err(AnnouncementRepositoryError::StaleVersion));
    assert_eq!(check_acknowledgement(&record("archived", 3, 4), 3), Err(AnnouncementRepositoryError::StaleVersion));
}

#[test]
fn read_state_follows_the_acknowledged_version() {
    assert!(AnnouncementView::new(record("published", 3, 4), Some(3)).is_read());
    assert!(AnnouncementView::new(record("published", 3, 4), Some(4)).is_read());
    assert!(!AnnouncementView::new(record("published", 3, 4), Some(2)).is_read());
    let view = AnnouncementView::new(record("published", 3, 4), None);
    assert!(!view.is_read());
    assert_eq!(view.id(), 9);
    let list = AnnouncementList::new(vec![view], 10, 4);
    assert_eq!((list.items().len(), list.total(), list.unread_count()), (1, 10, 4));
}

#[test]
fn receipts_check_the_version_before_the_lookup() {
    let current = record("published", 3, 4);
    assert_eq!(check_receipt(None, 0), Err(AnnouncementRepositoryError::StaleVersion));
    assert_eq!(check_receipt(None, 3), Err(AnnouncementRepositoryError::NotFound));
    assert_eq!(check_receipt(Some(&current), 3), Ok(()));
    assert_eq!(check_receipt(Some(&current), 2), Err(AnnouncementRepositoryError::StaleVersion));
}

#[test]
fn unchanged_content_keeps_read_state() {
    let current = record("published", 3, 4);
    let same = plan_update(&current, &draft("Maintenance", "Tonight", AnnouncementKind::Standard), 4).unwrap();
    let after = record("published", same.content_version, same.revision);
    assert!(AnnouncementView::new(after, Some(3)).is_read());
    let draft_record = record("draft", 0, 1);
    let edited = plan_update(&draft_record, &draft("New", "Body", AnnouncementKind::Popup), 1).unwrap();
    assert_eq!(edited.content_version, draft_record.content_version());
}

fn popup(status: &str, content_version: i64, published_at: Option<i64>) -> AnnouncementRecord {
    AnnouncementRecord::from_stored(
        4,
        "New".to_string(),
        "Look".to_string(),
        "popup",
        status,
        content_version,
        1,
        published_at,
        100,
        200,
    )
    .unwrap()
}

#[test]
fn acknowledging_a_popup_stops_offering_it() {
    let shown = popup("published", 3, Some(150));
    assert!(offered_as_popup(&shown, None));
    assert!(offered_as_popup(&shown, Some(2)));
    let stored = acknowledged_receipt(Some(&shown), 3);
    assert_eq!(stored, Ok(3));
    assert!(!offered_as_popup(&shown, Some(3)));
    assert!(AnnouncementView::new(popup("published", 3, Some(150)), Some(3)).is_read());
    assert!(!offered_as_popup(&popup("draft", 3, None), None));
    assert!(!offered_as_popup(&popup("published", 3, None), None));
    assert!(!offered_as_popup(&record("published", 3, 1), None));
}

#[test]
fn receipts_are_refused_as_their_checks_say() {
    let shown = popup("published", 3, Some(150));
    assert_eq!(acknowledged_receipt(Some(&shown), 2), Err(AnnouncementRepositoryError::StaleVersion));
    assert_eq!(acknowledged_receipt(Some(&shown), 0), Err(AnnouncementRepositoryError::StaleVersion));
    assert_eq!(acknowledged_receipt(None, 3), Err(AnnouncementRepositoryError::NotFound));
    assert_eq!(acknowledged_receipt(None, -1), Err(AnnouncementRepositoryError::StaleVersion));
}
