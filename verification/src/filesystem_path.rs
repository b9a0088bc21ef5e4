//! Root-relative paths of filesystem objects, rebuilt from the parent relation that the
//! storage index keeps (one row per ancestor, the object itself at depth 0).
//!
//! Object names are read with Unix path rules: `/` separates components, an empty or `.`
//! component inside a name is skipped, and the relative path joins components with `/`.
use std::collections::HashSet;
use vstd::prelude::*;

verus! {

/// Deepest ancestor chain the index may report.
pub const MAX_FILESYSTEM_PATH_DEPTH: usize = 4096;

/// Why a path could not be rebuilt.
#[derive(Clone, Copy, Debug, PartialEq, Eq, Structural)]
pub enum FilesystemPathError {
    /// A relation row is not present or not yet reconciled.
    NotReconciled,
    /// A relation row has a negative or unrepresentable depth.
    InvalidDepth,
    /// The rows disagree on the storage root or its reconciled revision.
    AmbiguousPathIndex,
    /// An object occurs twice on the ancestor chain.
    Cycle,
    /// An ancestor lies at or beyond the depth limit.
    DepthLimitExceeded,
    /// More than one row has no parent.
    MultipleRoots,
    /// A name is empty, absolute, `.`-led or `..`.
    InvalidObjectName,
    /// A name holds more than one path component.
    MultiComponentObjectName,
    /// No row has the storage root as parent-less end of the chain.
    RootNotReached,
}

/// One row of the ancestor relation.
pub struct PathRow {
    pub root_id: u128,
    pub object_id: u128,
    pub parent_id: Option<u128>,
    pub name: String,
    pub depth: usize,
    pub reconciled_revision: i64,
}

/// The relation row is usable: present, reconciled, with a representable depth.
pub open spec fn path_row_depth(presence: Seq<char>, observed: i64, reconciled: i64, depth: i64)
    -> Result<usize, FilesystemPathError> {
    if presence != "Present"@ || observed > reconciled {
        Err(FilesystemPathError::NotReconciled)
    } else if depth < 0 || depth > usize::MAX {
        Err(FilesystemPathError::InvalidDepth)
    } else {
        Ok(depth as usize)
    }
}

/// Checks one fetched relation row and converts its depth.
pub fn check_path_row(presence: &str, observed_revision: i64, reconciled_revision: i64, depth: i64)
    -> (r: Result<usize, FilesystemPathError>)
    ensures
        r == path_row_depth(presence@, observed_revision, reconciled_revision, depth),
{
    proof {
        reveal_strlit("Present");
    }
    if !crate::text::str_eq(presence, "Present") || observed_revision > reconciled_revision {
        return Err(FilesystemPathError::NotReconciled);
    }
    if depth < 0 || (depth as u64) > (usize::MAX as u64) {
        return Err(FilesystemPathError::InvalidDepth);
    }
    Ok(depth as usize)
}

// ---------------------------------------------------------------------------------------
// Object names.

/// `k` is where the first component of `s` ends: the first `/`, or the end.
pub open spec fn is_first_slash(s: Seq<char>, k: int) -> bool {
    &&& 0 <= k <= s.len()
    &&& (k == s.len() || s[k] == '/')
    &&& forall|i: int| 0 <= i < k ==> s[i] != '/'
}

pub open spec fn first_segment_end(s: Seq<char>) -> int {
    choose|k: int| is_first_slash(s, k)
}

/// The first component of a name is not a normal one: there is none, or it is the root,
/// the current directory or the parent directory.
pub open spec fn first_component_invalid(s: Seq<char>) -> bool {
    ||| s.len() == 0
    ||| s[0] == '/'
    ||| (s[0] == '.' && (s.len() == 1 || s[1] == '/'))
    ||| s.take(first_segment_end(s)) == ".."@
}

/// Position `p` starts or continues a component that the path reader does not skip: it is
/// not a separator and not a lone `.` between separators.
pub open spec fn counts_as_component(s: Seq<char>, p: int) -> bool {
    &&& s[p] != '/'
    &&& !(s[p] == '.' && s[p - 1] == '/' && (p + 1 == s.len() || s[p + 1] == '/'))
}

/// A component follows the first one.
pub open spec fn has_later_component(s: Seq<char>) -> bool {
    exists|p: int| first_segment_end(s) < p < s.len() && #[trigger] counts_as_component(s, p)
}

/// How a name reads as a path.
pub enum NameComponent {
    Invalid,
    Multiple,
    Single(String),
}

/// Reads an object name as exactly one normal path component.
pub fn parse_object_name(name: &str) -> (r: NameComponent)
    ensures
        match r {
            NameComponent::Invalid => first_component_invalid(name@),
            NameComponent::Multiple => !first_component_invalid(name@) && has_later_component(
                name@,
            ),
            NameComponent::Single(c) => !first_component_invalid(name@) && !has_later_component(
                name@,
            ) && c@ == name@.take(first_segment_end(name@)),
        },
{
    let chars = crate::text::chars_of(name);
    let n = chars.len();
    let ghost s = name@;
    let mut k: usize = 0;
    while k < n && chars[k] != '/'
        invariant
            chars@ == s,
            n == chars.len(),
            k <= n,
            forall|i: int| 0 <= i < k ==> s[i] != '/',
        decreases n - k,
    {
        k = k + 1;
    }
    assert(is_first_slash(s, k as int));
    assert(first_segment_end(s) == k) by {
        let c = first_segment_end(s);
        assert(is_first_slash(s, c));
        if c < k {
            assert(s[c] == '/');
        }
        if k < c {
            assert(s[k as int] == '/');
        }
    }
    let invalid = n == 0 || chars[0] == '/' || (chars[0] == '.' && (n == 1 || chars[1] == '/')) || (
    k == 2 && chars[0] == '.' && chars[1] == '.');
    proof {
        reveal_strlit("..");
        if k == 2 && s[0] == '.' && s[1] == '.' {
            assert(s.take(2) =~= ".."@);
        }
        if s.take(k as int) == ".."@ {
            assert(s.take(k as int).len() == 2);
            assert(s[0] == s.take(k as int)[0]);
            assert(s[1] == s.take(k as int)[1]);
        }
    }
    assert(invalid == first_component_invalid(s));
    if invalid {
        return NameComponent::Invalid;
    }
    assert(k >= 1);
    let mut p: usize = k;
    while p < n
        invariant
            chars@ == s,
            s == name@,
            n == chars.len(),
            1 <= k <= p,
            k as int == first_segment_end(s),
            !first_component_invalid(s),
            forall|q: int| k < q < p && q < n ==> !counts_as_component(s, q),
        decreases n - p,
    {
        let lone_dot = chars[p] == '.' && chars[p - 1] == '/' && (p + 1 == n || chars[p + 1] == '/');
        if p > k && chars[p] != '/' && !lone_dot {
            assert(counts_as_component(s, p as int));
            return NameComponent::Multiple;
        }
        p = p + 1;
    }
    assert(!has_later_component(s));
    let mut component = String::new();
    let mut i: usize = 0;
    while i < k
        invariant
            chars@ == s,
            k <= n == chars.len(),
            i <= k,
            component@ == s.take(i as int),
        decreases k - i,
    {
        crate::hashing::push_char(&mut component, chars[i]);
        assert(s.take(i + 1) =~= s.take(i as int).push(s[i as int]));
        i = i + 1;
    }
    NameComponent::Single(component)
}

// ---------------------------------------------------------------------------------------
// Processing order: deepest ancestor first, rows of equal depth in the order given.

/// Inserts index `j` after the trailing run of indices whose depth is at least `d[j]`.
pub open spec fn insert_by_depth(order: Seq<int>, d: Seq<usize>, j: int) -> Seq<int>
    decreases order.len(),
{
    if order.len() == 0 {
        seq![j]
    } else if d[order.last()] >= d[j] {
        order.push(j)
    } else {
        insert_by_depth(order.drop_last(), d, j).push(order.last())
    }
}

/// The indices of the first `n` rows, sorted by descending depth and stable for equal depths.
pub open spec fn depth_order(d: Seq<usize>, n: nat) -> Seq<int>
    decreases n,
{
    if n == 0 {
        Seq::empty()
    } else {
        insert_by_depth(depth_order(d, (n - 1) as nat), d, n - 1)
    }
}

proof fn lemma_insert_at(order: Seq<int>, d: Seq<usize>, j: int, p: int)
    requires
        0 <= p <= order.len(),
        p == 0 || d[order[p - 1]] >= d[j],
        forall|q: int| p <= q < order.len() ==> d[#[trigger] order[q]] < d[j],
    ensures
        insert_by_depth(order, d, j) == order.take(p).push(j) + order.skip(p),
    decreases order.len(),
{
    if order.len() == 0 {
        assert(order.take(p).push(j) + order.skip(p) =~= seq![j]);
    } else if p == order.len() {
        assert(d[order.last()] >= d[j]);
        assert(order.take(p).push(j) + order.skip(p) =~= order.push(j));
    } else {
        assert(d[order[order.len() - 1]] < d[j]);
        lemma_insert_at(order.drop_last(), d, j, p);
        assert(order.drop_last().take(p).push(j) + order.drop_last().skip(p) + seq![order.last()]
            =~= order.take(p).push(j) + order.skip(p));
    }
}

proof fn lemma_depth_order_indices(d: Seq<usize>, n: nat)
    ensures
        depth_order(d, n).len() == n,
        forall|t: int| 0 <= t < n ==> 0 <= #[trigger] depth_order(d, n)[t] < n,
    decreases n,
{
    if n > 0 {
        lemma_depth_order_indices(d, (n - 1) as nat);
        lemma_insert_indices(depth_order(d, (n - 1) as nat), d, n - 1);
    }
}

proof fn lemma_insert_indices(order: Seq<int>, d: Seq<usize>, j: int)
    requires
        0 <= j,
        forall|t: int| 0 <= t < order.len() ==> 0 <= #[trigger] order[t] < j,
    ensures
        insert_by_depth(order, d, j).len() == order.len() + 1,
        forall|t: int|
            0 <= t < order.len() + 1 ==> 0 <= #[trigger] insert_by_depth(order, d, j)[t] <= j,
    decreases order.len(),
{
    if order.len() > 0 && d[order.last()] < d[j] {
        lemma_insert_indices(order.drop_last(), d, j);
        let r = insert_by_depth(order.drop_last(), d, j);
        assert forall|t: int| 0 <= t < order.len() + 1 implies 0 <= #[trigger] insert_by_depth(
            order,
            d,
            j,
        )[t] <= j by {
            if t < order.len() {
                assert(insert_by_depth(order, d, j)[t] == r[t]);
            }
        }
    }
}

/// The processing order of `rows`.
pub open spec fn row_depths(rows: Seq<PathRow>) -> Seq<usize> {
    Seq::new(rows.len(), |i: int| rows[i].depth)
}

fn depth_sorted_indices(rows: &Vec<PathRow>) -> (order: Vec<usize>)
    ensures
        order@.len() == rows@.len(),
        forall|t: int| 0 <= t < order@.len() ==> order@[t] == depth_order(row_depths(rows@), rows@.len())[t],
{
    let ghost d = row_depths(rows@);
    let mut order: Vec<usize> = Vec::new();
    let mut j: usize = 0;
    while j < rows.len()
        invariant
            j <= rows.len(),
            d == row_depths(rows@),
            order@.len() == j,
            forall|t: int| 0 <= t < j ==> order@[t] == depth_order(d, j as nat)[t],
        decreases rows.len() - j,
    {
        let ghost prev: Seq<int> = depth_order(d, j as nat);
        proof {
            lemma_depth_order_indices(d, j as nat);
        }
        let mut p: usize = order.len();
        let mut moving = true;
        while moving && p > 0
            invariant
                p <= order.len() == j < rows.len(),
                d == row_depths(rows@),
                forall|t: int| 0 <= t < j ==> order@[t] == prev[t],
                forall|t: int| 0 <= t < j ==> 0 <= #[trigger] prev[t] < j,
                prev.len() == j,
                forall|q: int| p <= q < j ==> d[#[trigger] prev[q]] < d[j as int],
                !moving ==> p > 0 && d[prev[p - 1]] >= d[j as int],
            decreases p + if moving { 1int } else { 0int },
        {
            let idx = order[p - 1];
            assert(idx == prev[p - 1]);
            if rows[idx].depth < rows[j].depth {
                p = p - 1;
            } else {
                moving = false;
            }
        }
        proof {
            lemma_insert_at(prev, d, j as int, p as int);
        }
        order.insert(p, j);
        proof {
            let next = depth_order(d, (j + 1) as nat);
            assert(next == insert_by_depth(prev, d, j as int));
            assert forall|t: int| 0 <= t < j + 1 implies order@[t] == next[t] by {
                if t < p {
                    assert(order@[t] == prev[t]);
                } else if t == p {
                } else {
                    assert(order@[t] == prev[t - 1]);
                }
            }
        }
        j = j + 1;
    }
    order
}

// ---------------------------------------------------------------------------------------
// Walking the ordered rows.

/// The state after the rows at `order[0..n]`: the components gathered and whether the
/// parent-less root row was met, or the first error.
pub open spec fn walk_rows(rows: Seq<PathRow>, order: Seq<int>, n: nat) -> Result<
    (Seq<Seq<char>>, bool),
    FilesystemPathError,
>
    decreases n,
{
    if n == 0 {
        Ok((Seq::empty(), false))
    } else {
        match walk_rows(rows, order, (n - 1) as nat) {
            Err(e) => Err(e),
            Ok((comps, reached)) => {
                let row = rows[order[n - 1]];
                if exists|t: int| 0 <= t < n - 1 && #[trigger] rows[order[t]].object_id == row.object_id {
                    Err(FilesystemPathError::Cycle)
                } else if row.depth >= MAX_FILESYSTEM_PATH_DEPTH {
                    Err(FilesystemPathError::DepthLimitExceeded)
                } else if row.parent_id is None {
                    if reached {
                        Err(FilesystemPathError::MultipleRoots)
                    } else {
                        Ok((comps, true))
                    }
                } else if first_component_invalid(row.name@) {
                    Err(FilesystemPathError::InvalidObjectName)
                } else if has_later_component(row.name@) {
                    Err(FilesystemPathError::MultiComponentObjectName)
                } else {
                    Ok((comps.push(row.name@.take(first_segment_end(row.name@))), reached))
                }
            },
        }
    }
}

proof fn lemma_walk_error_persists(rows: Seq<PathRow>, order: Seq<int>, m: nat, n: nat)
    requires
        m <= n,
        walk_rows(rows, order, m) is Err,
    ensures
        walk_rows(rows, order, n) == walk_rows(rows, order, m),
    decreases n,
{
    if n > m {
        lemma_walk_error_persists(rows, order, m, (n - 1) as nat);
    }
}

/// Components joined by `/`.
pub open spec fn join_components(comps: Seq<Seq<char>>) -> Seq<char>
    decreases comps.len(),
{
    if comps.len() == 0 {
        Seq::empty()
    } else if comps.len() == 1 {
        comps[0]
    } else {
        join_components(comps.drop_last()) + seq!['/'] + comps.last()
    }
}

/// All rows name the same storage root and reconciled revision as the first.
pub open spec fn unambiguous(rows: Seq<PathRow>) -> bool {
    forall|i: int|
        0 <= i < rows.len() ==> #[trigger] rows[i].root_id == rows[0].root_id
            && rows[i].reconciled_revision == rows[0].reconciled_revision
}

/// What rebuilding the path of `rows` gives: the relative path, or the first error.
pub open spec fn path_outcome(rows: Seq<PathRow>) -> Result<Seq<char>, FilesystemPathError> {
    if !unambiguous(rows) {
        Err(FilesystemPathError::AmbiguousPathIndex)
    } else {
        match walk_rows(rows, depth_order(row_depths(rows), rows.len()), rows.len()) {
            Err(e) => Err(e),
            Ok((comps, reached)) => if reached {
                Ok(join_components(comps))
            } else {
                Err(FilesystemPathError::RootNotReached)
            },
        }
    }
}

/// One filesystem object resolved to a path relative to its storage root.
pub struct FilesystemObjectPath {
    root_id: u128,
    object_id: u128,
    relative_path: String,
    reconciled_revision: i64,
}

impl FilesystemObjectPath {
    pub closed spec fn spec_root_id(&self) -> u128 {
        self.root_id
    }

    pub closed spec fn spec_object_id(&self) -> u128 {
        self.object_id
    }

    pub closed spec fn spec_relative_path(&self) -> Seq<char> {
        self.relative_path@
    }

    pub closed spec fn spec_reconciled_revision(&self) -> i64 {
        self.reconciled_revision
    }

    pub fn root_id(&self) -> (r: u128)
        ensures
            r == self.spec_root_id(),
    {
        self.root_id
    }

    pub fn object_id(&self) -> (r: u128)
        ensures
            r == self.spec_object_id(),
    {
        self.object_id
    }

    pub fn relative_path(&self) -> (r: &str)
        ensures
            r@ == self.spec_relative_path(),
    {
        self.relative_path.as_str()
    }

    pub fn reconciled_revision(&self) -> (r: i64)
        ensures
            r == self.spec_reconciled_revision(),
    {
        self.reconciled_revision
    }
}

pub fn push_str_chars(out: &mut String, s: &str)
    ensures
        final(out)@ == old(out)@ + s@,
{
    let chars = crate::text::chars_of(s);
    let ghost start = out@;
    let mut i: usize = 0;
    while i < chars.len()
        invariant
            chars@ == s@,
            i <= chars.len(),
            out@ == start + s@.take(i as int),
        decreases chars.len() - i,
    {
        crate::hashing::push_char(out, chars[i]);
        assert(s@.take(i + 1) =~= s@.take(i as int).push(s@[i as int]));
        i = i + 1;
    }
    assert(s@.take(chars.len() as int) =~= s@);
}

/// Rebuilds the root-relative path of the object at depth 0 (the first row) from its
/// ancestor rows: every row must name the same root and revision; rows are taken deepest
/// first; each object may occur once, below the depth limit; exactly one row is the
/// parent-less root, and every other row contributes its single-component name.
pub fn build_path(rows: Vec<PathRow>) -> (r: Result<FilesystemObjectPath, FilesystemPathError>)
    requires
        rows@.len() > 0,
    ensures
        match r {
            Ok(p) => {
                &&& path_outcome(rows@) == Ok::<Seq<char>, FilesystemPathError>(p.spec_relative_path())
                &&& p.spec_root_id() == rows@[0].root_id
                &&& p.spec_object_id() == rows@[0].object_id
                &&& p.spec_reconciled_revision() == rows@[0].reconciled_revision
            },
            Err(e) => path_outcome(rows@) == Err::<Seq<char>, FilesystemPathError>(e),
        },
{
    broadcast use vstd::std_specs::hash::group_hash_axioms;

    let root_id = rows[0].root_id;
    let object_id = rows[0].object_id;
    let reconciled_revision = rows[0].reconciled_revision;
    let mut i: usize = 0;
    while i < rows.len()
        invariant
            i <= rows.len(),
            root_id == rows@[0].root_id,
            reconciled_revision == rows@[0].reconciled_revision,
            forall|t: int|
                0 <= t < i ==> (#[trigger] rows@[t]).root_id == root_id
                    && rows@[t].reconciled_revision == reconciled_revision,
        decreases rows.len() - i,
    {
        if rows[i].root_id != root_id || rows[i].reconciled_revision != reconciled_revision {
            return Err(FilesystemPathError::AmbiguousPathIndex);
        }
        assert(rows@[i as int].root_id == root_id && rows@[i as int].reconciled_revision
            == reconciled_revision);
        i = i + 1;
    }
    assert forall|t: int| 0 <= t < rows@.len() implies #[trigger] rows@[t].root_id == rows@[0].root_id
        && rows@[t].reconciled_revision == rows@[0].reconciled_revision by {
        assert(rows@[t].root_id == root_id);
    }
    assert(unambiguous(rows@));
    let order = depth_sorted_indices(&rows);
    let ghost ord = depth_order(row_depths(rows@), rows@.len());
    proof {
        lemma_depth_order_indices(row_depths(rows@), rows@.len());
    }
    let mut seen: HashSet<u128> = HashSet::new();
    let mut relative_path = String::new();
    let mut reached_root = false;
    let ghost mut comps: Seq<Seq<char>> = Seq::empty();
    let mut has_component = false;
    let mut k: usize = 0;
    while k < order.len()
        invariant
            order@.len() == rows@.len() == ord.len(),
            forall|t: int| 0 <= t < order@.len() ==> order@[t] == ord[t],
            forall|t: int| 0 <= t < ord.len() ==> 0 <= #[trigger] ord[t] < rows@.len(),
            ord == depth_order(row_depths(rows@), rows@.len()),
            unambiguous(rows@),
            k <= order.len(),
            walk_rows(rows@, ord, k as nat) == Ok::<(Seq<Seq<char>>, bool), FilesystemPathError>(
                (comps, reached_root),
            ),
            relative_path@ == join_components(comps),
            has_component == (comps.len() > 0),
            forall|x: u128|
                #[trigger] seen@.contains(x) <==> exists|t: int|
                    0 <= t < k && #[trigger] rows@[ord[t]].object_id == x,
        decreases order.len() - k,
    {
        let row = &rows[order[k]];
        proof {
            assert(row == rows@[ord[k as int]]);
        }
        if !seen.insert(row.object_id) {
            proof {
                lemma_walk_error_persists(rows@, ord, (k + 1) as nat, rows@.len());
            }
            return Err(FilesystemPathError::Cycle);
        }
        proof {
            assert(!exists|t: int|
                0 <= t < k && #[trigger] rows@[ord[t]].object_id == rows@[ord[k as int]].object_id);
        }
        if row.depth >= MAX_FILESYSTEM_PATH_DEPTH {
            proof {
                lemma_walk_error_persists(rows@, ord, (k + 1) as nat, rows@.len());
            }
            return Err(FilesystemPathError::DepthLimitExceeded);
        }
        if row.parent_id.is_none() {
            if reached_root {
                proof {
                    lemma_walk_error_persists(rows@, ord, (k + 1) as nat, rows@.len());
                }
                return Err(FilesystemPathError::MultipleRoots);
            }
            reached_root = true;
        } else {
            match parse_object_name(row.name.as_str()) {
                NameComponent::Invalid => {
                    proof {
                        lemma_walk_error_persists(rows@, ord, (k + 1) as nat, rows@.len());
                    }
                    return Err(FilesystemPathError::InvalidObjectName);
                },
                NameComponent::Multiple => {
                    proof {
                        lemma_walk_error_persists(rows@, ord, (k + 1) as nat, rows@.len());
                    }
                    return Err(FilesystemPathError::MultiComponentObjectName);
                },
                NameComponent::Single(component) => {
                    if has_component {
                        crate::hashing::push_char(&mut relative_path, '/');
                    }
                    has_component = true;
                    push_str_chars(&mut relative_path, component.as_str());
                    proof {
                        let c2 = comps.push(component@);
                        assert(c2.drop_last() =~= comps);
                        comps = c2;
                    }
                },
            }
        }
        proof {
            assert forall|x: u128|
                #[trigger] seen@.contains(x) <==> exists|t: int|
                    0 <= t < k + 1 && #[trigger] rows@[ord[t]].object_id == x by {
                if seen@.contains(x) && x != rows@[ord[k as int]].object_id {
                    let t = choose|t: int| 0 <= t < k && #[trigger] rows@[ord[t]].object_id == x;
                    assert(0 <= t < k + 1 && rows@[ord[t]].object_id == x);
                }
                if x == rows@[ord[k as int]].object_id {
                    assert(0 <= k < k + 1 && rows@[ord[k as int]].object_id == x);
                }
            }
        }
        k = k + 1;
    }
    if !reached_root {
        return Err(FilesystemPathError::RootNotReached);
    }
    Ok(FilesystemObjectPath { root_id, object_id, relative_path, reconciled_revision })
}

} // verus!
