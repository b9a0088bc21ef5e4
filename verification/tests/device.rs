use tjxy_db::auth::{string_array as session_string_array, AuthRepositoryError};
use tjxy_db::device::{string_array, DeviceOptionsRecord, DeviceRecord, DeviceRepositoryError, StoredStringList};

#[test]
fn stored_capabilities_must_be_string_lists() {
    assert_eq!(string_array(StoredStringList::Missing), Ok(vec![]));
    assert_eq!(
        string_array(StoredStringList::Array(vec![Some("Video".to_string()), Some("Audio".to_string())])),
        Ok(vec!["Video".to_string(), "Audio".to_string()])
    );
    assert_eq!(
        string_array(StoredStringList::Array(vec![Some("Video".to_string()), None])),
        Err(DeviceRepositoryError::InvalidStoredCapabilities)
    );
    assert_eq!(string_array(StoredStringList::Other), Err(DeviceRepositoryError::InvalidStoredCapabilities));
    assert_eq!(string_array(StoredStringList::Array(vec![])), Ok(vec![]));
    assert_eq!(
        session_string_array(StoredStringList::Array(vec![None])),
        Err(AuthRepositoryError::InvalidStoredSessionCapabilities)
    );
    assert_eq!(session_string_array(StoredStringList::Array(vec![Some("Play".to_string())])), Ok(vec!["Play".to_string()]));
}

#[test]
fn devices_report_their_latest_activity() {
    let device = DeviceRecord::from_session(
        "dev".to_string(),
        "TV".to_string(),
        Some("Living room".to_string()),
        3,
        "ann".to_string(),
        "Client".to_string(),
        "2.0".to_string(),
        100,
        None,
        vec!["Video".to_string()],
        vec![],
        true,
        false,
        Some("{\"MaxBitrate\":1}".to_string()),
        None,
        Some("https://icon".to_string()),
    );
    assert_eq!(device.last_activity_at(), 100);
    assert_eq!((device.device_id(), device.device_name(), device.custom_name()), ("dev", "TV", Some("Living room")));
    assert_eq!((device.user_id(), device.user_name(), device.client_name(), device.client_version()), (3, "ann", "Client", "2.0"));
    assert_eq!((device.playable_media_types().len(), device.supported_commands().len()), (1, 0));
    assert!(device.supports_media_control() && !device.supports_persistent_identifier());
    assert_eq!((device.device_profile(), device.app_store_url(), device.icon_url()), (Some("{\"MaxBitrate\":1}"), None, Some("https://icon")));
    let seen = DeviceRecord::from_session(
        "dev".to_string(), "TV".to_string(), None, 3, "ann".to_string(), "C".to_string(), "1".to_string(),
        100, Some(250), vec![], vec![], false, false, None, None, None,
    );
    assert_eq!(seen.last_activity_at(), 250);
    let options = DeviceOptionsRecord::from_parts(7, "dev".to_string(), None);
    assert_eq!((options.id(), options.device_id(), options.custom_name()), (7, "dev", None));
}
