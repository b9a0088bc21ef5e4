//! Administrator dashboard: count decoding, the catalog totals by item type, and pages.
use vstd::prelude::*;

verus! {

#[derive(Clone, Copy, Debug, PartialEq, Eq, Structural)]
pub enum DashboardError {
    /// A stored count is negative.
    InvalidCount,
}

/// A stored count must not be negative.
pub fn count_from_row(count: i64) -> (r: Result<u64, DashboardError>)
    ensures
        match r {
            Ok(n) => count >= 0 && n == count,
            Err(e) => count < 0 && e == DashboardError::InvalidCount,
        },
{
    if count < 0 {
        Err(DashboardError::InvalidCount)
    } else {
        Ok(count as u64)
    }
}

/// The counts of movies, series and episodes among per-type count rows: a later row of a
/// type replaces an earlier one, other types are ignored.
pub open spec fn type_tally(rows: Seq<(String, i64)>) -> (i64, i64, i64)
    decreases rows.len(),
{
    if rows.len() == 0 {
        (0, 0, 0)
    } else {
        let (m, s, e) = type_tally(rows.drop_last());
        let (t, c) = rows.last();
        if t@ == "Movie"@ {
            (c, s, e)
        } else if t@ == "Series"@ {
            (m, c, e)
        } else if t@ == "Episode"@ {
            (m, s, c)
        } else {
            (m, s, e)
        }
    }
}

/// Some count row is negative.
pub open spec fn has_negative_count(rows: Seq<(String, i64)>) -> bool {
    exists|i: int| 0 <= i < rows.len() && (#[trigger] rows[i]).1 < 0
}

/// The catalog totals `(total, movies, series, episodes)` from per-type count rows; a
/// negative count is invalid.
pub fn catalog_counts(rows: &[(String, i64)]) -> (r: Result<(u64, u64, u64, u64), DashboardError>)
    requires
        ({
            let (m, s, e) = type_tally(rows@);
            m + s + e <= u64::MAX
        }),
    ensures
        match r {
            Ok((total, m, s, e)) => {
                let (tm, ts, te) = type_tally(rows@);
                &&& !has_negative_count(rows@)
                &&& m == tm && s == ts && e == te
                &&& total == m + s + e
            },
            Err(err) => has_negative_count(rows@) && err == DashboardError::InvalidCount,
        },
{
    let mut movies: u64 = 0;
    let mut series: u64 = 0;
    let mut episodes: u64 = 0;
    let mut i: usize = 0;
    while i < rows.len()
        invariant
            i <= rows@.len(),
            (movies as int, series as int, episodes as int) == ({
                let (a, b, c) = type_tally(rows@.take(i as int));
                (a as int, b as int, c as int)
            }),
            !has_negative_count(rows@.take(i as int)),
            movies <= i64::MAX && series <= i64::MAX && episodes <= i64::MAX,
        decreases rows.len() - i,
    {
        let (ref item_type, count) = rows[i];
        assert(rows@.take(i + 1).drop_last() =~= rows@.take(i as int));
        let n = match count_from_row(count) {
            Ok(n) => n,
            Err(e) => {
                assert(rows@[i as int].1 < 0);
                return Err(e);
            },
        };
        if crate::text::str_eq(item_type.as_str(), "Movie") {
            movies = n;
        } else if crate::text::str_eq(item_type.as_str(), "Series") {
            series = n;
        } else if crate::text::str_eq(item_type.as_str(), "Episode") {
            episodes = n;
        }
        assert forall|j: int| 0 <= j < i + 1 implies !((#[trigger] rows@.take(i + 1)[j]).1 < 0) by {
            if j < i {
                assert(rows@.take(i + 1)[j] == rows@.take(i as int)[j]);
            }
        }
        i = i + 1;
    }
    assert(rows@.take(rows@.len() as int) =~= rows@);
    assert(movies + series + episodes <= u64::MAX);
    Ok((movies + series + episodes, movies, series, episodes))
}

/// One page of dashboard records with the count before paging.
pub struct DashboardPage<T> {
    pub items: Vec<T>,
    pub total_record_count: u64,
    pub start_index: u64,
}

} // verus!
