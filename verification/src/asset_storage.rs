//! Asset storage roots: where image blobs live. Exactly one root is current after an
//! activation, at most one is pending, and every canonical path is registered once.
use vstd::prelude::*;

verus! {

#[derive(Clone, Copy, Debug, PartialEq, Eq, Structural)]
pub enum AssetStorageError {
    MissingRoot,
}

#[derive(Clone, Copy, Debug, PartialEq, Eq, Structural)]
pub enum AssetRootState {
    Current,
    History,
    Pending,
}

pub open spec fn root_state_text(s: AssetRootState) -> Seq<char> {
    match s {
        AssetRootState::Current => "Current"@,
        AssetRootState::History => "History"@,
        AssetRootState::Pending => "Pending"@,
    }
}

impl AssetRootState {
    pub fn as_str(self) -> (r: &'static str)
        ensures
            r@ == root_state_text(self),
    {
        match self {
            AssetRootState::Current => "Current",
            AssetRootState::History => "History",
            AssetRootState::Pending => "Pending",
        }
    }

    /// The state stored as `value`, if it names one.
    pub fn parse(value: &str) -> (r: Option<Self>)
        ensures
            match r {
                Some(s) => root_state_text(s) == value@,
                None => forall|s: AssetRootState| root_state_text(s) != value@,
            },
    {
        if crate::text::str_eq(value, "Current") {
            Some(AssetRootState::Current)
        } else if crate::text::str_eq(value, "History") {
            Some(AssetRootState::History)
        } else if crate::text::str_eq(value, "Pending") {
            Some(AssetRootState::Pending)
        } else {
            proof {
                assert forall|s: AssetRootState| root_state_text(s) != value@ by {
                    match s {
                        AssetRootState::Current => {},
                        AssetRootState::History => {},
                        AssetRootState::Pending => {},
                    }
                }
            }
            None
        }
    }
}

/// One registered root.
pub struct AssetStorageRoot {
    id: u128,
    canonical_path: String,
    state: String,
}

impl AssetStorageRoot {
    pub closed spec fn spec_id(&self) -> u128 {
        self.id
    }

    pub closed spec fn spec_canonical_path(&self) -> Seq<char> {
        self.canonical_path@
    }

    pub closed spec fn spec_state(&self) -> Seq<char> {
        self.state@
    }

    pub fn from_parts(id: u128, canonical_path: String, state: String) -> (r: Self)
        ensures
            r.spec_id() == id && r.spec_canonical_path() == canonical_path@ && r.spec_state() == state@,
    {
        AssetStorageRoot { id, canonical_path, state }
    }

    pub fn id(&self) -> (r: u128)
        ensures
            r == self.spec_id(),
    {
        self.id
    }

    pub fn canonical_path(&self) -> (r: &str)
        ensures
            r@ == self.spec_canonical_path(),
    {
        self.canonical_path.as_str()
    }

    pub fn state(&self) -> (r: &str)
        ensures
            r@ == self.spec_state(),
    {
        self.state.as_str()
    }
}

/// The registered roots, by canonical path and state.
pub struct AssetRootTable {
    pub roots: Vec<(String, AssetRootState)>,
}

pub open spec fn table_view(roots: Seq<(String, AssetRootState)>) -> Seq<(Seq<char>, AssetRootState)> {
    Seq::new(roots.len(), |i: int| (roots[i].0@, roots[i].1))
}

/// Every path once, at most one current root and at most one pending root.
pub open spec fn table_valid(t: Seq<(Seq<char>, AssetRootState)>) -> bool {
    &&& forall|i: int, j: int| 0 <= i < j < t.len() ==> (#[trigger] t[i]).0 != (#[trigger] t[j]).0
    &&& forall|i: int, j: int|
        0 <= i < j < t.len() && (#[trigger] t[i]).1 == AssetRootState::Current ==> (#[trigger] t[j]).1
            != AssetRootState::Current
    &&& forall|i: int, j: int|
        0 <= i < j < t.len() && (#[trigger] t[i]).1 == AssetRootState::Pending ==> (#[trigger] t[j]).1
            != AssetRootState::Pending
}

/// The state of `path` in the table, if registered.
pub open spec fn state_of(t: Seq<(Seq<char>, AssetRootState)>, path: Seq<char>) -> Option<AssetRootState> {
    if exists|i: int| 0 <= i < t.len() && (#[trigger] t[i]).0 == path {
        Some(t[choose|i: int| 0 <= i < t.len() && (#[trigger] t[i]).0 == path].1)
    } else {
        None
    }
}

fn find_path(roots: &Vec<(String, AssetRootState)>, path: &str) -> (r: Option<usize>)
    ensures
        match r {
            Some(i) => i < roots@.len() && table_view(roots@)[i as int].0 == path@,
            None => forall|i: int| 0 <= i < roots@.len() ==> (#[trigger] table_view(roots@)[i]).0 != path@,
        },
{
    let mut i: usize = 0;
    while i < roots.len()
        invariant
            i <= roots@.len(),
            forall|k: int| 0 <= k < i ==> (#[trigger] table_view(roots@)[k]).0 != path@,
        decreases roots.len() - i,
    {
        if crate::text::str_eq(roots[i].0.as_str(), path) {
            return Some(i);
        }
        i = i + 1;
    }
    None
}

proof fn lemma_state_of(t: Seq<(Seq<char>, AssetRootState)>, path: Seq<char>, i: int)
    requires
        table_valid(t),
        0 <= i < t.len(),
        t[i].0 == path,
    ensures
        state_of(t, path) == Some(t[i].1),
{
    let c = choose|c: int| 0 <= c < t.len() && (#[trigger] t[c]).0 == path;
    if c != i {
        if c < i {
            assert(t[c].0 != t[i].0);
        } else {
            assert(t[i].0 != t[c].0);
        }
    }
}

/// The position of `path` in the table, where it is registered.
pub open spec fn path_index(t: Seq<(Seq<char>, AssetRootState)>, path: Seq<char>) -> int {
    choose|i: int| 0 <= i < t.len() && (#[trigger] t[i]).0 == path
}

/// `path` is registered in the table.
pub open spec fn registered(t: Seq<(Seq<char>, AssetRootState)>, path: Seq<char>) -> bool {
    exists|i: int| 0 <= i < t.len() && (#[trigger] t[i]).0 == path
}

/// The table with every current root other than `path` moved to history.
pub open spec fn demoted(t: Seq<(Seq<char>, AssetRootState)>, path: Seq<char>) -> Seq<(Seq<char>, AssetRootState)> {
    Seq::new(
        t.len(),
        |k: int|
            (t[k].0, if t[k].1 == AssetRootState::Current && t[k].0 != path {
                AssetRootState::History
            } else {
                t[k].1
            }),
    )
}

/// The table after `path` is activated: other current roots become history, every other
/// root keeps its place and state, and `path` becomes current where it stands, or is
/// appended as current.
pub open spec fn activated(t: Seq<(Seq<char>, AssetRootState)>, path: Seq<char>) -> Seq<(Seq<char>, AssetRootState)> {
    if registered(t, path) {
        demoted(t, path).update(path_index(t, path), (path, AssetRootState::Current))
    } else {
        demoted(t, path).push((path, AssetRootState::Current))
    }
}

/// The table without its pending roots, in order.
pub open spec fn without_pending(t: Seq<(Seq<char>, AssetRootState)>) -> Seq<(Seq<char>, AssetRootState)> {
    t.filter(|e: (Seq<char>, AssetRootState)| e.1 != AssetRootState::Pending)
}

/// The table after `path` is made pending: pending roots are dropped, every other root
/// keeps its order and state, and `path` becomes pending where it stands unless it is
/// current, or is appended as pending.
pub open spec fn pending_set(t: Seq<(Seq<char>, AssetRootState)>, path: Seq<char>) -> Seq<(Seq<char>, AssetRootState)> {
    let f = without_pending(t);
    if registered(f, path) {
        if f[path_index(f, path)].1 == AssetRootState::Current {
            f
        } else {
            f.update(path_index(f, path), (path, AssetRootState::Pending))
        }
    } else {
        f.push((path, AssetRootState::Pending))
    }
}

proof fn lemma_path_index(t: Seq<(Seq<char>, AssetRootState)>, path: Seq<char>, j: int)
    requires
        forall|a: int, b: int| 0 <= a < b < t.len() ==> (#[trigger] t[a]).0 != (#[trigger] t[b]).0,
        0 <= j < t.len(),
        t[j].0 == path,
    ensures
        registered(t, path),
        path_index(t, path) == j,
{
    assert(t[j].0 == path);
    let c = path_index(t, path);
    if c != j {
        if c < j {
            assert(t[c].0 != t[j].0);
        } else {
            assert(t[j].0 != t[c].0);
        }
    }
}

impl AssetRootTable {
    /// Whether the table is valid: every path once, at most one current root and at most
    /// one pending root.
    pub fn is_valid(&self) -> (r: bool)
        ensures
            r == table_valid(table_view(self.roots@)),
    {
        let ghost t = table_view(self.roots@);
        let mut i: usize = 0;
        while i < self.roots.len()
            invariant
                t == table_view(self.roots@),
                i <= t.len(),
                forall|a: int, b: int| 0 <= a < b < t.len() && a < i ==> (#[trigger] t[a]).0 != (#[trigger] t[b]).0,
                forall|a: int, b: int|
                    0 <= a < b < t.len() && a < i && (#[trigger] t[a]).1 == AssetRootState::Current ==> (
                    #[trigger] t[b]).1 != AssetRootState::Current,
                forall|a: int, b: int|
                    0 <= a < b < t.len() && a < i && (#[trigger] t[a]).1 == AssetRootState::Pending ==> (
                    #[trigger] t[b]).1 != AssetRootState::Pending,
            decreases self.roots.len() - i,
        {
            let mut j: usize = i + 1;
            while j < self.roots.len()
                invariant
                    t == table_view(self.roots@),
                    i < t.len(),
                    i + 1 <= j <= t.len(),
                    forall|b: int| i < b < j ==> t[i as int].0 != (#[trigger] t[b]).0,
                    forall|b: int|
                        i < b < j && t[i as int].1 == AssetRootState::Current ==> (#[trigger] t[b]).1
                            != AssetRootState::Current,
                    forall|b: int|
                        i < b < j && t[i as int].1 == AssetRootState::Pending ==> (#[trigger] t[b]).1
                            != AssetRootState::Pending,
                decreases self.roots.len() - j,
            {
                assert(t[i as int].0 == self.roots@[i as int].0@ && t[j as int].0 == self.roots@[j as int].0@);
                if crate::text::str_eq(self.roots[i].0.as_str(), self.roots[j].0.as_str()) {
                    return false;
                }
                if self.roots[i].1 == AssetRootState::Current && self.roots[j].1 == AssetRootState::Current {
                    return false;
                }
                if self.roots[i].1 == AssetRootState::Pending && self.roots[j].1 == AssetRootState::Pending {
                    return false;
                }
                j = j + 1;
            }
            i = i + 1;
        }
        true
    }

    /// Makes `path` the current root: every other current root becomes history, and the
    /// path is registered as current.
    pub fn activate(&mut self, path: &str)
        requires
            table_valid(table_view(old(self).roots@)),
        ensures
            table_view(final(self).roots@) == activated(table_view(old(self).roots@), path@),
            table_valid(table_view(final(self).roots@)),
            state_of(table_view(final(self).roots@), path@) == Some(AssetRootState::Current),
            forall|i: int|
                0 <= i < final(self).roots@.len() && (#[trigger] table_view(final(self).roots@)[i]).0
                    != path@ ==> table_view(final(self).roots@)[i].1 != AssetRootState::Current,
    {
        let ghost start = table_view(self.roots@);
        let mut i: usize = 0;
        while i < self.roots.len()
            invariant
                i <= self.roots@.len() == start.len(),
                forall|k: int| 0 <= k < start.len() ==> (#[trigger] table_view(self.roots@)[k]).0 == start[k].0,
                forall|k: int|
                    i <= k < start.len() ==> (#[trigger] table_view(self.roots@)[k]).1 == start[k].1,
                forall|k: int|
                    0 <= k < i ==> ((#[trigger] table_view(self.roots@)[k]).1 == (if start[k].1
                        == AssetRootState::Current && start[k].0 != path@ {
                        AssetRootState::History
                    } else {
                        start[k].1
                    })),
            decreases self.roots.len() - i,
        {
            if self.roots[i].1 == AssetRootState::Current && !crate::text::str_eq(
                self.roots[i].0.as_str(),
                path,
            ) {
                let p = self.roots[i].0.clone();
                let ghost before = table_view(self.roots@);
                self.roots.set(i, (p, AssetRootState::History));
                assert(table_view(self.roots@) =~= before.update(i as int, (before[i as int].0, AssetRootState::History)));
            }
            i = i + 1;
        }
        let ghost demoted = table_view(self.roots@);
        assert(demoted =~= crate::asset_storage::demoted(start, path@));
        match find_path(&self.roots, path) {
            Some(j) => {
                let p = self.roots[j].0.clone();
                self.roots.set(j, (p, AssetRootState::Current));
                proof {
                    let t = table_view(self.roots@);
                    assert(t =~= demoted.update(j as int, (path@, AssetRootState::Current)));
                    lemma_path_index(start, path@, j as int);
                    lemma_state_of(t, path@, j as int);
                }
            },
            None => {
                self.roots.push((path.to_owned(), AssetRootState::Current));
                proof {
                    let t = table_view(self.roots@);
                    assert(t =~= demoted.push((path@, AssetRootState::Current)));
                    assert(!registered(start, path@)) by {
                        if registered(start, path@) {
                            let c = path_index(start, path@);
                            assert(demoted[c].0 == path@);
                        }
                    }
                    lemma_state_of(t, path@, demoted.len() as int);
                }
            },
        }
    }

    /// Registers `path` as history unless it is already registered.
    pub fn register_history(&mut self, path: &str)
        requires
            table_valid(table_view(old(self).roots@)),
        ensures
            table_valid(table_view(final(self).roots@)),
            state_of(table_view(old(self).roots@), path@) is Some ==> table_view(final(self).roots@)
                == table_view(old(self).roots@),
            state_of(table_view(old(self).roots@), path@) is None ==> table_view(final(self).roots@)
                == table_view(old(self).roots@).push((path@, AssetRootState::History)),
    {
        match find_path(&self.roots, path) {
            Some(j) => {
                proof {
                    assert(table_view(self.roots@)[j as int].0 == path@);
                }
            },
            None => {
                let ghost before = table_view(self.roots@);
                self.roots.push((path.to_owned(), AssetRootState::History));
                proof {
                    assert(table_view(self.roots@) =~= before.push((path@, AssetRootState::History)));
                }
            },
        }
    }

    /// Marks `path` as the pending root: every pending root is dropped, and unless `path` is
    /// already current it is registered as pending.
    pub fn set_pending(&mut self, path: &str)
        requires
            table_valid(table_view(old(self).roots@)),
        ensures
            table_view(final(self).roots@) == pending_set(table_view(old(self).roots@), path@),
            table_valid(table_view(final(self).roots@)),
            state_of(table_view(old(self).roots@), path@) == Some(AssetRootState::Current) ==> state_of(
                table_view(final(self).roots@),
                path@,
            ) == Some(AssetRootState::Current),
            state_of(table_view(old(self).roots@), path@) != Some(AssetRootState::Current) ==> state_of(
                table_view(final(self).roots@),
                path@,
            ) == Some(AssetRootState::Pending),
            forall|i: int|
                0 <= i < final(self).roots@.len() && (#[trigger] table_view(final(self).roots@)[i]).0
                    != path@ ==> table_view(final(self).roots@)[i].1 != AssetRootState::Pending,
    {
        let ghost start = table_view(self.roots@);
        let mut kept: Vec<(String, AssetRootState)> = Vec::new();
        let ghost mut src: Seq<int> = Seq::empty();
        let mut i: usize = 0;
        while i < self.roots.len()
            invariant
                i <= self.roots@.len(),
                start == table_view(self.roots@),
                table_valid(start),
                src.len() == kept@.len(),
                forall|a: int| 0 <= a < src.len() ==> 0 <= #[trigger] src[a] < i,
                forall|a: int, b: int| 0 <= a < b < src.len() ==> #[trigger] src[a] < #[trigger] src[b],
                forall|a: int| 0 <= a < src.len() ==> #[trigger] table_view(kept@)[a] == start[src[a]],
                forall|a: int| 0 <= a < src.len() ==> (#[trigger] table_view(kept@)[a]).1 != AssetRootState::Pending,
                table_view(kept@) == without_pending(start.take(i as int)),
                forall|k: int|
                    0 <= k < i && (#[trigger] start[k]).1 != AssetRootState::Pending ==> exists|a: int|
                        0 <= a < src.len() && #[trigger] src[a] == k,
            decreases self.roots.len() - i,
        {
            proof {
                let next = start.take(i + 1);
                assert(next.drop_last() =~= start.take(i as int));
                assert(next.last() == start[i as int]);
                reveal(Seq::filter);
            }
            if self.roots[i].1 != AssetRootState::Pending {
                let p = self.roots[i].0.clone();
                let ghost before = table_view(kept@);
                kept.push((p, self.roots[i].1));
                proof {
                    assert(table_view(kept@) =~= before.push(start[i as int]));
                    let old_src = src;
                    src = src.push(i as int);
                    assert forall|k: int|
                        0 <= k < i + 1 && (#[trigger] start[k]).1 != AssetRootState::Pending implies exists|a: int|
                            0 <= a < src.len() && #[trigger] src[a] == k by {
                        if k == i {
                            assert(src[old_src.len() as int] == k);
                        } else {
                            let a = choose|a: int| 0 <= a < old_src.len() && #[trigger] old_src[a] == k;
                            assert(src[a] == k);
                        }
                    }
                }
            }
            i = i + 1;
        }
        let ghost filtered = table_view(kept@);
        assert(start.take(start.len() as int) =~= start);
        assert(filtered == without_pending(start));
        proof {
            assert(table_valid(filtered)) by {
                assert forall|a: int, b: int| 0 <= a < b < filtered.len() implies (#[trigger] filtered[a]).0
                    != (#[trigger] filtered[b]).0 by {
                    assert(filtered[a] == start[src[a]] && filtered[b] == start[src[b]]);
                }
                assert forall|a: int, b: int|
                    0 <= a < b < filtered.len() && (#[trigger] filtered[a]).1 == AssetRootState::Current implies (
                    #[trigger] filtered[b]).1 != AssetRootState::Current by {
                    assert(filtered[a] == start[src[a]] && filtered[b] == start[src[b]]);
                }
            }
        }
        self.roots = kept;
        let mut current_here = false;
        match find_path(&self.roots, path) {
            Some(j) => {
                proof {
                    lemma_path_index(filtered, path@, j as int);
                }
                if self.roots[j].1 == AssetRootState::Current {
                    current_here = true;
                    proof {
                        lemma_state_of(filtered, path@, j as int);
                    }
                } else {
                    let p = self.roots[j].0.clone();
                    self.roots.set(j, (p, AssetRootState::Pending));
                    proof {
                        let t = table_view(self.roots@);
                        assert(t =~= filtered.update(j as int, (path@, AssetRootState::Pending)));
                        lemma_state_of(t, path@, j as int);
                    }
                }
            },
            None => {
                self.roots.push((path.to_owned(), AssetRootState::Pending));
                proof {
                    let t = table_view(self.roots@);
                    assert(t =~= filtered.push((path@, AssetRootState::Pending)));
                    assert(!registered(filtered, path@)) by {
                        if registered(filtered, path@) {
                            let c = path_index(filtered, path@);
                            assert(filtered[c].0 == path@);
                        }
                    }
                    lemma_state_of(t, path@, filtered.len() as int);
                }
            },
        }
        proof {
            if state_of(start, path@) == Some(AssetRootState::Current) {
                let c = choose|c: int| 0 <= c < start.len() && (#[trigger] start[c]).0 == path@;
                assert(start[c].1 == AssetRootState::Current);
                let a = choose|a: int| 0 <= a < src.len() && #[trigger] src[a] == c;
                assert(filtered[a] == start[c]);
                lemma_state_of(filtered, path@, a);
            }
        }
    }
}

} // verus!
