use tjxy_db::filesystem_path::{build_path, check_path_row, parse_object_name, FilesystemPathError, NameComponent, PathRow};

fn path_row(object_id: u128, parent_id: Option<u128>, name: &str, depth: usize) -> PathRow {
    PathRow {
        root_id: 42,
        object_id,
        parent_id,
        name: name.to_string(),
        depth,
        reconciled_revision: 3,
    }
}

fn single(name: &str) -> Option<String> {
    match parse_object_name(name) {
        NameComponent::Single(component) => Some(component),
        _ => None,
    }
}

#[test]
fn object_names_read_as_one_normal_component() {
    assert_eq!(single("episode.mkv").as_deref(), Some("episode.mkv"));
    assert_eq!(single(".hidden").as_deref(), Some(".hidden"));
    assert_eq!(single("..a").as_deref(), Some("..a"));
    assert_eq!(single("dir/").as_deref(), Some("dir"));
    assert_eq!(single("dir/.").as_deref(), Some("dir"));
    assert_eq!(single("dir/./").as_deref(), Some("dir"));
    for invalid in ["", "/abs", ".", "./a", "..", "../x"] {
        assert!(matches!(parse_object_name(invalid), NameComponent::Invalid), "{invalid}");
    }
    for multiple in ["a/b", "a//b", "a/./b", "a/.."] {
        assert!(matches!(parse_object_name(multiple), NameComponent::Multiple), "{multiple}");
    }
}

#[test]
fn relation_rows_must_be_present_and_reconciled() {
    assert_eq!(check_path_row("Present", 2, 2, 5), Ok(5));
    assert_eq!(check_path_row("Present", 1, 2, 0), Ok(0));
    assert_eq!(check_path_row("Missing", 1, 2, 0), Err(FilesystemPathError::NotReconciled));
    assert_eq!(check_path_row("Present", 3, 2, 0), Err(FilesystemPathError::NotReconciled));
    assert_eq!(check_path_row("Present", 2, 2, -1), Err(FilesystemPathError::InvalidDepth));
}

#[test]
fn path_is_rebuilt_from_the_deepest_ancestor_down() {
    let rows = vec![
        path_row(3, Some(2), "episode.mkv", 0),
        path_row(1, None, "", 2),
        path_row(2, Some(1), "Season 1", 1),
    ];
    let path = build_path(rows).unwrap();
    assert_eq!(path.relative_path(), "Season 1/episode.mkv");
    assert_eq!(path.root_id(), 42);
    assert_eq!(path.object_id(), 3);
    assert_eq!(path.reconciled_revision(), 3);
}

#[test]
fn the_root_itself_has_an_empty_path() {
    let path = build_path(vec![path_row(1, None, "", 0)]).unwrap();
    assert_eq!(path.relative_path(), "");
    assert_eq!(path.object_id(), 1);
}

#[test]
fn broken_ancestor_chains_are_refused() {
    let mut other_root = path_row(2, Some(1), "a", 1);
    other_root.root_id = 7;
    assert_eq!(
        build_path(vec![path_row(3, Some(2), "b", 0), other_root]).map(|_| ()),
        Err(FilesystemPathError::AmbiguousPathIndex)
    );
    let mut other_revision = path_row(1, None, "", 1);
    other_revision.reconciled_revision = 4;
    assert_eq!(
        build_path(vec![path_row(3, Some(1), "b", 0), other_revision]).map(|_| ()),
        Err(FilesystemPathError::AmbiguousPathIndex)
    );
    assert_eq!(
        build_path(vec![path_row(3, Some(1), "b", 0), path_row(3, Some(1), "b", 1)]).map(|_| ()),
        Err(FilesystemPathError::Cycle)
    );
    assert_eq!(
        build_path(vec![path_row(3, Some(1), "b", 0), path_row(1, None, "", 4096)]).map(|_| ()),
        Err(FilesystemPathError::DepthLimitExceeded)
    );
    assert_eq!(
        build_path(vec![path_row(3, None, "", 0), path_row(1, None, "", 1)]).map(|_| ()),
        Err(FilesystemPathError::MultipleRoots)
    );
    assert_eq!(
        build_path(vec![path_row(3, Some(1), "..", 0), path_row(1, None, "", 1)]).map(|_| ()),
        Err(FilesystemPathError::InvalidObjectName)
    );
    assert_eq!(
        build_path(vec![path_row(3, Some(1), "a/b", 0), path_row(1, None, "", 1)]).map(|_| ()),
        Err(FilesystemPathError::MultiComponentObjectName)
    );
    assert_eq!(
        build_path(vec![path_row(3, Some(2), "b", 0), path_row(2, Some(1), "a", 1)]).map(|_| ()),
        Err(FilesystemPathError::RootNotReached)
    );
}
