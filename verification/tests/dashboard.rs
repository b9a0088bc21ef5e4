use tjxy_db::dashboard::{catalog_counts, count_from_row, DashboardError, DashboardPage};

fn row(t: &str, c: i64) -> (String, i64) {
    (t.to_string(), c)
}

#[test]
fn counts_decode_and_total_by_type() {
    assert_eq!(count_from_row(5), Ok(5));
    assert_eq!(count_from_row(-5), Err(DashboardError::InvalidCount));
    assert_eq!(catalog_counts(&[]), Ok((0, 0, 0, 0)));
    assert_eq!(
        catalog_counts(&[row("Movie", 3), row("Series", 2), row("Episode", 20), row("Season", 7)]),
        Ok((25, 3, 2, 20))
    );
    assert_eq!(catalog_counts(&[row("Movie", 3), row("Movie", 4)]), Ok((4, 4, 0, 0)));
    assert_eq!(catalog_counts(&[row("Movie", 3), row("Folder", -1)]), Err(DashboardError::InvalidCount));
    let page = DashboardPage { items: vec!["a"], total_record_count: 9, start_index: 0 };
    assert_eq!((page.items.len(), page.total_record_count, page.start_index), (1, 9, 0));
}
