//! The storage scope of a catalog item: which directory or file it is read from, how far
//! that directory's index has been reconciled, and how scopes are grouped for checking.
use vstd::prelude::*;

verus! {

/// The largest number of objects checked against one root in one query.
pub const MAX_OBJECTS_PER_CHECK: usize = 500;

#[derive(Clone, Copy, Debug, PartialEq, Eq, Structural)]
pub enum CatalogStorageScopeError {
    /// The item resolves to more than one authorized storage scope.
    Ambiguous,
}

/// The storage object an item is read from, within one root.
#[derive(Clone, Copy, Debug, PartialEq, Eq, Structural)]
pub struct CatalogStorageScope {
    pub storage_root_id: u128,
    pub storage_object_id: u128,
    pub parent_storage_object_id: Option<u128>,
    pub children_indexed: bool,
    pub children_revision: i64,
    pub reconciled_revision: i64,
    pub is_file: bool,
}

impl CatalogStorageScope {
    /// The directory whose sidecar files belong to the item: a file's parent directory
    /// (the file itself at a root without parent), or the directory itself.
    pub fn sidecar_parent_object_id(self) -> (r: u128)
        ensures
            r == (if self.is_file {
                match self.parent_storage_object_id {
                    Some(p) => p,
                    None => self.storage_object_id,
                }
            } else {
                self.storage_object_id
            }),
    {
        if self.is_file {
            match self.parent_storage_object_id {
                Some(parent) => parent,
                None => self.storage_object_id,
            }
        } else {
            self.storage_object_id
        }
    }

    /// The revision metadata is derived from.
    pub fn metadata_input_revision(self) -> (r: i64)
        ensures
            r == (if self.children_indexed { self.children_revision } else { self.reconciled_revision }),
    {
        if self.children_indexed {
            self.children_revision
        } else {
            self.reconciled_revision
        }
    }

    /// Metadata derived at `input_revision` is current: the root is reconciled up to it,
    /// and an indexed directory is still at that revision.
    pub fn accepts_metadata_input(self, input_revision: i64) -> (r: bool)
        ensures
            r == (self.reconciled_revision >= input_revision && (!self.children_indexed
                || self.children_revision == input_revision)),
    {
        self.reconciled_revision >= input_revision && (!self.children_indexed
            || self.children_revision == input_revision)
    }

    /// Two scopes list the same inventory: same root, object, parent and child index.
    pub fn has_same_inventory(self, other: Self) -> (r: bool)
        ensures
            r == (self.storage_root_id == other.storage_root_id && self.storage_object_id
                == other.storage_object_id && self.parent_storage_object_id
                == other.parent_storage_object_id && self.children_indexed == other.children_indexed
                && self.children_revision == other.children_revision),
    {
        self.storage_root_id == other.storage_root_id && self.storage_object_id
            == other.storage_object_id && self.parent_storage_object_id
            == other.parent_storage_object_id && self.children_indexed == other.children_indexed
            && self.children_revision == other.children_revision
    }
}

/// The scope a stored object type text stands for: files are `"File"`.
pub fn is_file_object(object_type: &str) -> (r: bool)
    ensures
        r == (object_type@ == "File"@),
{
    crate::text::str_eq(object_type, "File")
}

/// The metadata a scope derives from its own revision is accepted by that scope.
pub proof fn scope_accepts_its_own_input(scope: CatalogStorageScope)
    ensures
        scope.reconciled_revision >= scope.children_revision || !scope.children_indexed ==> ({
            let input = if scope.children_indexed {
                scope.children_revision
            } else {
                scope.reconciled_revision
            };
            scope.reconciled_revision >= input && (!scope.children_indexed || scope.children_revision
                == input)
        }),
{
}

/// The scope of an item from the candidate scopes found: none, the only one, or an
/// ambiguity.
pub fn single_scope(found: &[CatalogStorageScope]) -> (r: Result<
    Option<CatalogStorageScope>,
    CatalogStorageScopeError,
>)
    ensures
        found@.len() == 0 ==> r == Ok::<Option<CatalogStorageScope>, CatalogStorageScopeError>(None),
        found@.len() == 1 ==> r == Ok::<Option<CatalogStorageScope>, CatalogStorageScopeError>(
            Some(found@[0]),
        ),
        found@.len() > 1 ==> r == Err::<Option<CatalogStorageScope>, CatalogStorageScopeError>(
            CatalogStorageScopeError::Ambiguous,
        ),
{
    if found.len() > 1 {
        Err(CatalogStorageScopeError::Ambiguous)
    } else if found.len() == 1 {
        Ok(Some(found[0]))
    } else {
        Ok(None)
    }
}

/// `(root, object)` pairs grouped by root: every root once, each with its distinct objects.
pub open spec fn groups_pairs(groups: Seq<(u128, Seq<u128>)>, pairs: Seq<(u128, u128)>) -> bool {
    &&& forall|i: int, j: int| 0 <= i < j < groups.len() ==> (#[trigger] groups[i]).0 != (#[trigger] groups[j]).0
    &&& forall|i: int| 0 <= i < groups.len() ==> (#[trigger] groups[i]).1.no_duplicates()
    &&& forall|r: u128, o: u128|
        #![trigger pairs.contains((r, o))]
        pairs.contains((r, o)) <==> exists|i: int|
            0 <= i < groups.len() && (#[trigger] groups[i]).0 == r && groups[i].1.contains(o)
}

/// The groups as values.
pub open spec fn groups_view(groups: Seq<(u128, Vec<u128>)>) -> Seq<(u128, Seq<u128>)> {
    Seq::new(groups.len(), |i: int| (groups[i].0, groups[i].1@))
}

/// Groups `(root, object)` pairs by root, dropping repeated pairs: each root appears once,
/// with each of its objects once.
pub fn group_pairs_by_root(pairs: &[(u128, u128)]) -> (r: Vec<(u128, Vec<u128>)>)
    ensures
        groups_pairs(groups_view(r@), pairs@),
{
    let mut groups: Vec<(u128, Vec<u128>)> = Vec::new();
    let mut i: usize = 0;
    while i < pairs.len()
        invariant
            i <= pairs@.len(),
            groups_pairs(groups_view(groups@), pairs@.take(i as int)),
        decreases pairs.len() - i,
    {
        let (root, object) = pairs[i];
        let ghost before = groups_view(groups@);
        let mut g: usize = 0;
        while g < groups.len() && groups[g].0 != root
            invariant
                g <= groups@.len(),
                forall|t: int| 0 <= t < g ==> (#[trigger] groups@[t]).0 != root,
            decreases groups.len() - g,
        {
            g = g + 1;
        }
        if g == groups.len() {
            let mut objects: Vec<u128> = Vec::new();
            objects.push(object);
            groups.push((root, objects));
            proof {
                let after = groups_view(groups@);
                assert(after =~= before.push((root, seq![object])));
                assert(seq![object].no_duplicates());
                assert forall|r: u128, o: u128|
                    #![trigger pairs@.take(i + 1).contains((r, o))]
                    pairs@.take(i + 1).contains((r, o)) <==> exists|t: int|
                        0 <= t < after.len() && (#[trigger] after[t]).0 == r && after[t].1.contains(o) by {
                    broadcast use vstd::seq_lib::group_seq_properties;
                    assert(pairs@.take(i + 1) =~= pairs@.take(i as int).push((root, object)));
                    assert(pairs@.take(i + 1).contains((r, o)) == (pairs@.take(i as int).contains((r, o))
                        || (r, o) == (root, object)));
                    if r == root && o == object {
                        assert(after[before.len() as int].1.contains(o)) by {
                            assert(after[before.len() as int].1[0] == o);
                        }
                    }
                    if exists|t: int| 0 <= t < after.len() && (#[trigger] after[t]).0 == r && after[t].1.contains(o) {
                        let t = choose|t: int| 0 <= t < after.len() && (#[trigger] after[t]).0 == r && after[t].1.contains(o);
                        if t < before.len() {
                            assert(before[t] == after[t]);
                        } else {
                            assert(after[t].1 == seq![object]);
                        }
                    }
                    if pairs@.take(i as int).contains((r, o)) {
                        let t = choose|t: int| 0 <= t < before.len() && (#[trigger] before[t]).0 == r && before[t].1.contains(o);
                        assert(after[t] == before[t]);
                    }
                }
            }
        } else {
            let mut objects = groups[g].1.clone();
            let mut k: usize = 0;
            while k < objects.len() && objects[k] != object
                invariant
                    k <= objects@.len(),
                    forall|t: int| 0 <= t < k ==> objects@[t] != object,
                decreases objects.len() - k,
            {
                k = k + 1;
            }
            let ghost old_objects = objects@;
            if k == objects.len() {
                objects.push(object);
            }
            let new_group = (root, objects);
            groups.set(g, new_group);
            proof {
                let after = groups_view(groups@);
                assert(before[g as int].1 == old_objects);
                assert(after =~= before.update(g as int, (root, new_group.1@)));
                assert(new_group.1@.no_duplicates()) by {
                    if k == old_objects.len() {
                        assert(new_group.1@ =~= old_objects.push(object));
                    }
                }
                assert forall|r: u128, o: u128|
                    #![trigger pairs@.take(i + 1).contains((r, o))]
                    pairs@.take(i + 1).contains((r, o)) <==> exists|t: int|
                        0 <= t < after.len() && (#[trigger] after[t]).0 == r && after[t].1.contains(o) by {
                    broadcast use vstd::seq_lib::group_seq_properties;
                    assert(pairs@.take(i + 1) =~= pairs@.take(i as int).push((root, object)));
                    assert(pairs@.take(i + 1).contains((r, o)) == (pairs@.take(i as int).contains((r, o))
                        || (r, o) == (root, object)));
                    if r == root && o == object {
                        if k < old_objects.len() {
                            assert(after[g as int].1[k as int] == o);
                        } else {
                            assert(after[g as int].1[old_objects.len() as int] == o);
                        }
                    }
                    if exists|t: int| 0 <= t < after.len() && (#[trigger] after[t]).0 == r && after[t].1.contains(o) {
                        let t = choose|t: int| 0 <= t < after.len() && (#[trigger] after[t]).0 == r && after[t].1.contains(o);
                        if t != g {
                            assert(before[t] == after[t]);
                        } else if o != object {
                            let q = choose|q: int| 0 <= q < after[t].1.len() && after[t].1[q] == o;
                            assert(old_objects.contains(o)) by {
                                if k == old_objects.len() {
                                    assert(q < old_objects.len());
                                    assert(old_objects[q] == o);
                                } else {
                                    assert(old_objects[q] == o);
                                }
                            }
                            assert(before[t].0 == r && before[t].1.contains(o));
                        }
                    }
                    if pairs@.take(i as int).contains((r, o)) {
                        let t = choose|t: int| 0 <= t < before.len() && (#[trigger] before[t]).0 == r && before[t].1.contains(o);
                        if t != g {
                            assert(after[t] == before[t]);
                        } else {
                            let q = choose|q: int| 0 <= q < before[t].1.len() && before[t].1[q] == o;
                            assert(after[t].1[q] == o);
                        }
                    }
                }
            }
        }
        i = i + 1;
    }
    assert(pairs@.take(pairs@.len() as int) =~= pairs@);
    groups
}

} // verus!
