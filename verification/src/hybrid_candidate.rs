//! Hybrid expansion candidates: the series an administrator selected for background
//! expansion in a library, and the decisions of pinning one.
//!
//! Timestamps are microseconds since the Unix epoch.
use vstd::prelude::*;

verus! {

#[derive(Clone, Copy, Debug, PartialEq, Eq, Structural)]
pub enum HybridCandidateError {
    InvalidPage,
    LibraryUnavailable,
    LibraryNotBackground,
    ItemUnavailable,
    DatabaseInvariant,
}

/// A selected candidate.
pub struct HybridCandidateRecord {
    catalog_item_id: u128,
    name: String,
    production_year: Option<i32>,
    structure_state: String,
    selected_at: i64,
}

impl HybridCandidateRecord {
    pub closed spec fn spec_catalog_item_id(&self) -> u128 {
        self.catalog_item_id
    }

    pub closed spec fn spec_name(&self) -> Seq<char> {
        self.name@
    }

    pub closed spec fn spec_production_year(&self) -> Option<i32> {
        self.production_year
    }

    pub closed spec fn spec_structure_state(&self) -> Seq<char> {
        self.structure_state@
    }

    pub closed spec fn spec_selected_at(&self) -> i64 {
        self.selected_at
    }

    /// Assembles the value from its parts.
    pub fn from_parts(catalog_item_id: u128, name: String, production_year: Option<i32>, structure_state: String, selected_at: i64) -> (r: Self)
        ensures
            r.spec_catalog_item_id() == catalog_item_id,
            r.spec_name() == name@,
            r.spec_production_year() == production_year,
            r.spec_structure_state() == structure_state@,
            r.spec_selected_at() == selected_at,
    {
        HybridCandidateRecord { catalog_item_id, name, production_year, structure_state, selected_at }
    }

    pub fn catalog_item_id(&self) -> (r: u128)
        ensures
            r == self.spec_catalog_item_id(),
    {
        self.catalog_item_id
    }

    pub fn name(&self) -> (r: &str)
        ensures
            r@ == self.spec_name(),
    {
        self.name.as_str()
    }

    pub fn production_year(&self) -> (r: Option<i32>)
        ensures
            r == self.spec_production_year(),
    {
        self.production_year
    }

    pub fn structure_state(&self) -> (r: &str)
        ensures
            r@ == self.spec_structure_state(),
    {
        self.structure_state.as_str()
    }

    pub fn selected_at(&self) -> (r: i64)
        ensures
            r == self.spec_selected_at(),
    {
        self.selected_at
    }

}

/// One page of selected candidates with the count before paging.
pub struct HybridCandidatePage {
    items: Vec<HybridCandidateRecord>,
    total_record_count: u64,
    start_index: u64,
}

impl HybridCandidatePage {
    pub closed spec fn spec_items(&self) -> Seq<HybridCandidateRecord> {
        self.items@
    }

    pub closed spec fn spec_total_record_count(&self) -> u64 {
        self.total_record_count
    }

    pub closed spec fn spec_start_index(&self) -> u64 {
        self.start_index
    }

    /// Assembles the value from its parts.
    pub fn from_parts(items: Vec<HybridCandidateRecord>, total_record_count: u64, start_index: u64) -> (r: Self)
        ensures
            r.spec_items() == items@,
            r.spec_total_record_count() == total_record_count,
            r.spec_start_index() == start_index,
    {
        HybridCandidatePage { items, total_record_count, start_index }
    }

    pub fn items(&self) -> (r: &[HybridCandidateRecord])
        ensures
            r@ == self.spec_items(),
    {
        self.items.as_slice()
    }

    pub fn total_record_count(&self) -> (r: u64)
        ensures
            r == self.spec_total_record_count(),
    {
        self.total_record_count
    }

    pub fn start_index(&self) -> (r: u64)
        ensures
            r == self.spec_start_index(),
    {
        self.start_index
    }

}

/// Whether a pin or unpin changed the selection.
#[derive(Clone, Copy, Debug, PartialEq, Eq, Structural)]
pub struct HybridCandidateMutation {
    changed: bool,
}

impl HybridCandidateMutation {
    pub closed spec fn spec_changed(self) -> bool {
        self.changed
    }

    /// Assembles the value from its parts.
    pub fn from_parts(changed: bool) -> (r: Self)
        ensures
            r.spec_changed() == changed,
    {
        HybridCandidateMutation { changed }
    }

    pub fn changed(self) -> (r: bool)
        ensures
            r == self.spec_changed(),
    {
        self.changed
    }

}

/// A page of selected candidates holds 1 to 100 items.
pub fn check_page(limit: u64) -> (r: Result<(), HybridCandidateError>)
    ensures
        r is Ok <==> 1 <= limit <= 100,
        r is Err ==> r == Err::<(), HybridCandidateError>(HybridCandidateError::InvalidPage),
{
    if limit < 1 || limit > 100 {
        Err(HybridCandidateError::InvalidPage)
    } else {
        Ok(())
    }
}

/// A stored count must not be negative.
pub fn total_count(total: i64) -> (r: Result<u64, HybridCandidateError>)
    ensures
        match r {
            Ok(n) => total >= 0 && n == total,
            Err(e) => total < 0 && e == HybridCandidateError::DatabaseInvariant,
        },
{
    if total < 0 {
        Err(HybridCandidateError::DatabaseInvariant)
    } else {
        Ok(total as u64)
    }
}

/// Candidates are pinned only in an existing, enabled library expanded in the background.
pub open spec fn background_library(library: Option<(bool, Seq<char>)>) -> Result<(), HybridCandidateError> {
    match library {
        None => Err(HybridCandidateError::LibraryUnavailable),
        Some((enabled, policy)) => if enabled && policy == "background"@ {
            Ok(())
        } else {
            Err(HybridCandidateError::LibraryNotBackground)
        },
    }
}

pub fn ensure_background_library(library: Option<(bool, &str)>) -> (r: Result<(), HybridCandidateError>)
    ensures
        r == background_library(
            match library {
                Some((e, p)) => Some((e, p@)),
                None => None,
            },
        ),
{
    match library {
        None => Err(HybridCandidateError::LibraryUnavailable),
        Some((enabled, policy)) => if enabled && crate::text::str_eq(policy, "background") {
            Ok(())
        } else {
            Err(HybridCandidateError::LibraryNotBackground)
        },
    }
}

/// Before pinning: a visible series that is already selected is left as it is; one that is
/// not a visible series of the library is unavailable; otherwise the pin proceeds (`None`).
pub fn pin_before_update(candidate: Option<Option<i64>>) -> (r: Result<
    Option<HybridCandidateMutation>,
    HybridCandidateError,
>)
    ensures
        match candidate {
            None => r == Err::<Option<HybridCandidateMutation>, HybridCandidateError>(
                HybridCandidateError::ItemUnavailable,
            ),
            Some(Some(_)) => (r matches Ok(Some(m)) && !m.spec_changed()),
            Some(None) => r == Ok::<Option<HybridCandidateMutation>, HybridCandidateError>(None),
        },
{
    match candidate {
        None => Err(HybridCandidateError::ItemUnavailable),
        Some(Some(_)) => Ok(Some(HybridCandidateMutation::from_parts(false))),
        Some(None) => Ok(None),
    }
}

/// After the selecting update: one row selected means changed; otherwise a concurrent
/// selection counts as unchanged, and anything else means the item is unavailable.
pub fn pin_after_update(rows_affected: u64, selected_after: Option<Option<i64>>) -> (r: Result<
    HybridCandidateMutation,
    HybridCandidateError,
>)
    ensures
        rows_affected == 1 ==> (r matches Ok(m) && m.spec_changed()),
        rows_affected != 1 ==> (match selected_after {
            Some(Some(_)) => (r matches Ok(m) && !m.spec_changed()),
            _ => r == Err::<HybridCandidateMutation, HybridCandidateError>(
                HybridCandidateError::ItemUnavailable,
            ),
        }),
{
    if rows_affected == 1 {
        return Ok(HybridCandidateMutation::from_parts(true));
    }
    match selected_after {
        Some(Some(_)) => Ok(HybridCandidateMutation::from_parts(false)),
        None => Err(HybridCandidateError::ItemUnavailable),
        Some(None) => Err(HybridCandidateError::ItemUnavailable),
    }
}

/// An unpin changes the selection exactly when one row was cleared.
pub fn unpin_result(rows_affected: u64) -> (r: HybridCandidateMutation)
    ensures
        r.spec_changed() == (rows_affected == 1),
{
    HybridCandidateMutation::from_parts(rows_affected == 1)
}

} // verus!
