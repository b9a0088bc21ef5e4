//! Which catalog items browsing may show.
use vstd::prelude::*;

verus! {

/// An item is visible when it is present, matched, and a member of an enabled library
/// directly or through an active structure publication owned by such a member.
pub open spec fn visible(
    is_present: bool,
    classification_state: Seq<char>,
    enabled_membership: bool,
    projected_membership: bool,
) -> bool {
    is_present && classification_state == "Matched"@ && (enabled_membership || projected_membership)
}

pub fn catalog_item_visible(
    is_present: bool,
    classification_state: &str,
    enabled_membership: bool,
    projected_membership: bool,
) -> (r: bool)
    ensures
        r == visible(is_present, classification_state@, enabled_membership, projected_membership),
{
    is_present && crate::text::str_eq(classification_state, "Matched") && (enabled_membership
        || projected_membership)
}

} // verus!
