use tjxy_db::asset_storage::{AssetRootState, AssetRootTable, AssetStorageRoot};

fn states(table: &AssetRootTable) -> Vec<(&str, AssetRootState)> {
    table.roots.iter().map(|(p, s)| (p.as_str(), *s)).collect()
}

#[test]
fn activation_keeps_exactly_one_current_root() {
    let mut table = AssetRootTable { roots: vec![] };
    table.activate("/assets/a");
    assert_eq!(states(&table), vec![("/assets/a", AssetRootState::Current)]);
    table.activate("/assets/b");
    assert_eq!(states(&table), vec![("/assets/a", AssetRootState::History), ("/assets/b", AssetRootState::Current)]);
    table.activate("/assets/a");
    assert_eq!(states(&table), vec![("/assets/a", AssetRootState::Current), ("/assets/b", AssetRootState::History)]);
    table.activate("/assets/a");
    assert_eq!(states(&table), vec![("/assets/a", AssetRootState::Current), ("/assets/b", AssetRootState::History)]);
}

#[test]
fn history_is_registered_once() {
    let mut table = AssetRootTable { roots: vec![("/assets/a".to_string(), AssetRootState::Current)] };
    table.register_history("/assets/a");
    assert_eq!(states(&table), vec![("/assets/a", AssetRootState::Current)]);
    table.register_history("/old");
    table.register_history("/old");
    assert_eq!(states(&table), vec![("/assets/a", AssetRootState::Current), ("/old", AssetRootState::History)]);
}

#[test]
fn at_most_one_root_is_pending() {
    let mut table = AssetRootTable {
        roots: vec![("/a".to_string(), AssetRootState::Current), ("/p".to_string(), AssetRootState::Pending)],
    };
    table.set_pending("/q");
    assert_eq!(states(&table), vec![("/a", AssetRootState::Current), ("/q", AssetRootState::Pending)]);
    table.set_pending("/a");
    assert_eq!(states(&table), vec![("/a", AssetRootState::Current)]);
    let mut table = AssetRootTable {
        roots: vec![("/a".to_string(), AssetRootState::Current), ("/h".to_string(), AssetRootState::History)],
    };
    table.set_pending("/h");
    assert_eq!(states(&table), vec![("/a", AssetRootState::Current), ("/h", AssetRootState::Pending)]);
    table.activate("/h");
    assert_eq!(states(&table), vec![("/a", AssetRootState::History), ("/h", AssetRootState::Current)]);
}

#[test]
fn root_records_and_state_names() {
    assert_eq!(AssetRootState::Current.as_str(), "Current");
    assert_eq!(AssetRootState::History.as_str(), "History");
    assert_eq!(AssetRootState::Pending.as_str(), "Pending");
    let root = AssetStorageRoot::from_parts(3, "/a".to_string(), "Current".to_string());
    assert_eq!((root.id(), root.canonical_path(), root.state()), (3, "/a", "Current"));
}

#[test]
fn pending_keeps_every_other_root_and_activation_keeps_history() {
    let mut table = AssetRootTable {
        roots: vec![
            ("/old".to_string(), AssetRootState::History),
            ("/a".to_string(), AssetRootState::Current),
            ("/p".to_string(), AssetRootState::Pending),
        ],
    };
    table.set_pending("/n");
    assert_eq!(
        states(&table),
        vec![("/old", AssetRootState::History), ("/a", AssetRootState::Current), ("/n", AssetRootState::Pending)]
    );
    table.activate("/n");
    assert_eq!(
        states(&table),
        vec![("/old", AssetRootState::History), ("/a", AssetRootState::History), ("/n", AssetRootState::Current)]
    );
}

#[test]
fn root_states_parse_and_tables_validate() {
    for state in [AssetRootState::Current, AssetRootState::History, AssetRootState::Pending] {
        assert_eq!(AssetRootState::parse(state.as_str()), Some(state));
    }
    assert_eq!(AssetRootState::parse("current"), None);
    let valid = AssetRootTable {
        roots: vec![("/a".to_string(), AssetRootState::Current), ("/b".to_string(), AssetRootState::Pending)],
    };
    assert!(valid.is_valid());
    let repeated = AssetRootTable {
        roots: vec![("/a".to_string(), AssetRootState::History), ("/a".to_string(), AssetRootState::Pending)],
    };
    assert!(!repeated.is_valid());
    let two_current = AssetRootTable {
        roots: vec![("/a".to_string(), AssetRootState::Current), ("/b".to_string(), AssetRootState::Current)],
    };
    assert!(!two_current.is_valid());
    let two_pending = AssetRootTable {
        roots: vec![("/a".to_string(), AssetRootState::Pending), ("/b".to_string(), AssetRootState::Pending)],
    };
    assert!(!two_pending.is_valid());
}
