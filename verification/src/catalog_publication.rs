//! Structure publications: bounded projection rows, their digests, the order-independent
//! manifest and the rooted-topology check made before a publication is sealed.
use std::collections::{HashMap, HashSet};
use vstd::prelude::*;

verus! {

/// The parent map of a projection: item id to parent id, a later row replacing an earlier one.
pub open spec fn parent_map(rows: Seq<(u128, u128)>) -> Map<u128, u128>
    decreases rows.len(),
{
    if rows.len() == 0 {
        Map::empty()
    } else {
        parent_map(rows.drop_last()).insert(rows.last().0, rows.last().1)
    }
}

/// Following parents from `x` reaches `owner` within `k` steps.
pub open spec fn chain_reaches(parents: Map<u128, u128>, owner: u128, x: u128, k: nat) -> bool
    decreases k,
{
    x == owner || (k > 0 && parents.contains_key(x) && chain_reaches(
        parents,
        owner,
        parents[x],
        (k - 1) as nat,
    ))
}

/// Following parents from `x` eventually reaches `owner`.
pub open spec fn roots_at(parents: Map<u128, u128>, owner: u128, x: u128) -> bool {
    exists|k: nat| chain_reaches(parents, owner, x, k)
}

/// A projection is rooted at `owner` when the owner is not itself a projected row and the
/// parent chain of every row ends at the owner (so it is acyclic and has no orphan).
pub open spec fn rooted_projection(owner: u128, rows: Seq<(u128, u128)>) -> bool {
    &&& !parent_map(rows).contains_key(owner)
    &&& forall|i: int| 0 <= i < rows.len() ==> roots_at(parent_map(rows), owner, #[trigger] rows[i].1)
}

/// `path` is a parent walk ending at `next`: every element is a non-owner key whose parent
/// is the following element (the last one's parent is `next`).
pub open spec fn is_walk(parents: Map<u128, u128>, owner: u128, path: Seq<u128>, next: u128) -> bool {
    &&& forall|t: int|
        0 <= t < path.len() ==> parents.contains_key(#[trigger] path[t]) && path[t] != owner
    &&& forall|t: int| 0 <= t < path.len() - 1 ==> #[trigger] parents[path[t]] == path[t + 1]
    &&& path.len() > 0 ==> parents[path[path.len() - 1]] == next
}

proof fn lemma_walk_forward(
    parents: Map<u128, u128>,
    owner: u128,
    path: Seq<u128>,
    next: u128,
    t: int,
    k: nat,
)
    requires
        is_walk(parents, owner, path, next),
        0 <= t < path.len(),
        chain_reaches(parents, owner, path[t], k),
    ensures
        k >= path.len() - t,
        chain_reaches(parents, owner, next, (k - (path.len() - t)) as nat),
    decreases path.len() - t,
{
    assert(path[t] != owner);
    if t + 1 < path.len() {
        lemma_walk_forward(parents, owner, path, next, t + 1, (k - 1) as nat);
    }
}

proof fn lemma_walk_backward(
    parents: Map<u128, u128>,
    owner: u128,
    path: Seq<u128>,
    next: u128,
    t: int,
    k: nat,
)
    requires
        is_walk(parents, owner, path, next),
        0 <= t < path.len(),
        chain_reaches(parents, owner, next, k),
    ensures
        chain_reaches(parents, owner, path[t], k + (path.len() - t) as nat),
    decreases path.len() - t,
{
    if t + 1 < path.len() {
        lemma_walk_backward(parents, owner, path, next, t + 1, k);
    }
    assert(path[t] != owner);
}

proof fn lemma_cycle_never_roots(
    parents: Map<u128, u128>,
    owner: u128,
    path: Seq<u128>,
    j: int,
    k: nat,
)
    requires
        0 <= j < path.len(),
        is_walk(parents, owner, path, path[j]),
    ensures
        !chain_reaches(parents, owner, path[j], k),
    decreases k,
{
    if chain_reaches(parents, owner, path[j], k) {
        lemma_walk_forward(parents, owner, path, path[j], j, k);
        lemma_cycle_never_roots(parents, owner, path, j, (k - (path.len() - j)) as nat);
    }
}

proof fn lemma_parent_map_contains(rows: Seq<(u128, u128)>, i: int)
    requires
        0 <= i < rows.len(),
    ensures
        parent_map(rows).contains_key(rows[i].0),
    decreases rows.len(),
{
    if i < rows.len() - 1 {
        lemma_parent_map_contains(rows.drop_last(), i);
    }
}

fn build_parents(rows: &[(u128, u128)]) -> (parents: HashMap<u128, u128>)
    ensures
        parents@ == parent_map(rows@),
{
    broadcast use vstd::std_specs::hash::group_hash_axioms;

    let mut parents: HashMap<u128, u128> = HashMap::new();
    let mut i: usize = 0;
    while i < rows.len()
        invariant
            i <= rows.len(),
            parents@ == parent_map(rows@.take(i as int)),
        decreases rows.len() - i,
    {
        let (item, parent) = rows[i];
        parents.insert(item, parent);
        assert(rows@.take(i + 1).drop_last() =~= rows@.take(i as int));
        i = i + 1;
    }
    assert(rows@.take(rows.len() as int) =~= rows@);
    parents
}

proof fn lemma_walk_prefix(parents: Map<u128, u128>, owner: u128, path: Seq<u128>, next: u128, j: int)
    requires
        is_walk(parents, owner, path, next),
        0 < j < path.len(),
    ensures
        is_walk(parents, owner, path.take(j), path[j]),
{
    let pre = path.take(j);
    assert forall|t: int| 0 <= t < pre.len() implies parents.contains_key(#[trigger] pre[t])
        && pre[t] != owner by {
        assert(pre[t] == path[t]);
    }
    assert forall|t: int| 0 <= t < pre.len() - 1 implies #[trigger] parents[pre[t]] == pre[t + 1] by {
        assert(pre[t] == path[t]);
        assert(parents[path[t]] == path[t + 1]);
    }
    assert(parents[path[j - 1]] == path[j]);
}

proof fn lemma_cycle_from_start(
    parents: Map<u128, u128>,
    owner: u128,
    path: Seq<u128>,
    j: int,
    start: u128,
)
    requires
        0 <= j < path.len(),
        is_walk(parents, owner, path, path[j]),
        path[0] == start,
    ensures
        forall|k: nat| !chain_reaches(parents, owner, start, k),
{
    assert forall|k: nat| !chain_reaches(parents, owner, start, k) by {
        if chain_reaches(parents, owner, start, k) {
            if j > 0 {
                let pre = path.take(j);
                lemma_walk_prefix(parents, owner, path, path[j], j);
                lemma_walk_forward(parents, owner, pre, path[j], 0, k);
                lemma_cycle_never_roots(parents, owner, path, j, (k - j) as nat);
            } else {
                lemma_cycle_never_roots(parents, owner, path, j, k);
            }
        }
    }
}

proof fn lemma_dead_end_from_start(
    parents: Map<u128, u128>,
    owner: u128,
    path: Seq<u128>,
    end: u128,
    start: u128,
)
    requires
        is_walk(parents, owner, path, end),
        path.len() > 0 ==> path[0] == start,
        path.len() == 0 ==> end == start,
        end != owner,
        !parents.contains_key(end),
    ensures
        forall|k: nat| !chain_reaches(parents, owner, start, k),
{
    assert forall|k: nat| !chain_reaches(parents, owner, start, k) by {
        if chain_reaches(parents, owner, start, k) {
            if path.len() > 0 {
                lemma_walk_forward(parents, owner, path, end, 0, k);
            }
        }
    }
}

proof fn lemma_extend_walk(
    parents: Map<u128, u128>,
    owner: u128,
    old_path: Seq<u128>,
    cursor: u128,
)
    requires
        is_walk(parents, owner, old_path, cursor),
        old_path.no_duplicates(),
        !old_path.contains(cursor),
        parents.contains_key(cursor),
        cursor != owner,
        parents.dom().finite(),
    ensures
        is_walk(parents, owner, old_path.push(cursor), parents[cursor]),
        old_path.push(cursor).no_duplicates(),
        old_path.push(cursor).to_set() == old_path.to_set().insert(cursor),
        old_path.push(cursor).len() <= parents.dom().len(),
{
    let path = old_path.push(cursor);
    assert(path.drop_last() =~= old_path);
    assert forall|x: u128| path.to_set().contains(x) == old_path.to_set().insert(cursor).contains(x) by {
        if path.contains(x) {
            let t = choose|t: int| 0 <= t < path.len() && path[t] == x;
            if t < old_path.len() {
                assert(old_path[t] == x);
            }
        }
        if old_path.contains(x) {
            let t = choose|t: int| 0 <= t < old_path.len() && old_path[t] == x;
            assert(path[t] == x);
        }
        if x == cursor {
            assert(path[old_path.len() as int] == x);
        }
    }
    assert(path.to_set() =~= old_path.to_set().insert(cursor));
    assert forall|a: int, b: int|
        0 <= a < path.len() && 0 <= b < path.len() && a != b implies path[a] != path[b] by {
        if a < old_path.len() && b < old_path.len() {
            assert(old_path[a] != old_path[b]);
        } else if a < old_path.len() {
            assert(old_path.contains(old_path[a]));
        } else {
            assert(old_path.contains(old_path[b]));
        }
    }
    assert(path.to_set().subset_of(parents.dom()));
    path.unique_seq_to_set();
    vstd::set_lib::lemma_len_subset(path.to_set(), parents.dom());
}

/// Walks parents from `start` until a resolved item. `Some((path, end))` gives the walked,
/// unresolved items and the resolved item reached; `None` means a repeated item or a missing
/// parent, so that `start` can never reach the owner.
#[verifier::rlimit(40)]
fn walk_to_resolved(
    parents: &HashMap<u128, u128>,
    resolved: &HashSet<u128>,
    owner: u128,
    start: u128,
) -> (r: Option<(Vec<u128>, u128)>)
    requires
        resolved@.contains(owner),
        !parents@.contains_key(owner),
    ensures
        match r {
            Some((path, end)) => {
                &&& resolved@.contains(end)
                &&& is_walk(parents@, owner, path@, end)
                &&& (path@.len() > 0 ==> path@[0] == start)
                &&& (path@.len() == 0 ==> end == start)
            },
            None => forall|k: nat| !chain_reaches(parents@, owner, start, k),
        },
{
    broadcast use vstd::std_specs::hash::group_hash_axioms;

    let ghost m = parents@;
    let mut cursor = start;
    let mut path: Vec<u128> = Vec::new();
    let mut visited: HashSet<u128> = HashSet::new();
    proof {
        assert(path@.to_set() =~= Set::<u128>::empty());
    }
    while !resolved.contains(&cursor)
        invariant
            m == parents@,
            resolved@.contains(owner),
            is_walk(m, owner, path@, cursor),
            path@.len() > 0 ==> path@[0] == start,
            path@.len() == 0 ==> cursor == start,
            visited@ == path@.to_set(),
            path@.no_duplicates(),
            m.dom().finite(),
        decreases m.dom().len() - path@.len(),
    {
        if !visited.insert(cursor) {
            proof {
                assert(path@.contains(cursor));
                let j = choose|j: int| 0 <= j < path@.len() && path@[j] == cursor;
                lemma_cycle_from_start(m, owner, path@, j, start);
            }
            return None;
        }
        match parents.get(&cursor) {
            Some(parent) => {
                proof {
                    lemma_extend_walk(m, owner, path@, cursor);
                }
                path.push(cursor);
                cursor = *parent;
            },
            None => {
                proof {
                    lemma_dead_end_from_start(m, owner, path@, cursor, start);
                }
                return None;
            },
        }
    }
    Some((path, cursor))
}

/// Checks that `(item, parent)` rows form a projection rooted at `owner`: walking parents from
/// each row reaches the owner, with already-resolved ancestors remembered across rows.
pub fn is_rooted_projection(owner: u128, rows: &[(u128, u128)]) -> (r: bool)
    ensures
        r == rooted_projection(owner, rows@),
{
    broadcast use vstd::std_specs::hash::group_hash_axioms;

    let parents = build_parents(rows);
    let ghost m = parents@;
    if parents.contains_key(&owner) {
        return false;
    }
    let mut resolved: HashSet<u128> = HashSet::new();
    resolved.insert(owner);
    assert(chain_reaches(m, owner, owner, 0));
    let mut i: usize = 0;
    while i < rows.len()
        invariant
            m == parent_map(rows@),
            parents@ == m,
            !m.contains_key(owner),
            i <= rows.len(),
            resolved@.contains(owner),
            forall|x: u128| #[trigger] resolved@.contains(x) ==> roots_at(m, owner, x),
            forall|j: int| 0 <= j < i ==> roots_at(m, owner, #[trigger] rows@[j].1),
        decreases rows.len() - i,
    {
        let start = rows[i].1;
        match walk_to_resolved(&parents, &resolved, owner, start) {
            None => {
                assert(!roots_at(m, owner, rows@[i as int].1));
                return false;
            },
            Some((path, end)) => {
                proof {
                    assert(roots_at(m, owner, end));
                    let kd = choose|k: nat| chain_reaches(m, owner, end, k);
                    assert forall|t: int| 0 <= t < path@.len() implies roots_at(
                        m,
                        owner,
                        #[trigger] path@[t],
                    ) by {
                        lemma_walk_backward(m, owner, path@, end, t, kd);
                    }
                    if path@.len() > 0 {
                        assert(roots_at(m, owner, path@[0]));
                    }
                }
                let mut p: usize = 0;
                while p < path.len()
                    invariant
                        p <= path.len(),
                        forall|x: u128| #[trigger] resolved@.contains(x) ==> roots_at(m, owner, x),
                        forall|t: int| 0 <= t < path@.len() ==> roots_at(m, owner, #[trigger] path@[t]),
                        resolved@.contains(owner),
                    decreases path.len() - p,
                {
                    resolved.insert(path[p]);
                    p = p + 1;
                }
            },
        }
        i = i + 1;
    }
    true
}


// ---------------------------------------------------------------------------------------
// Key-sorted entries and their uniqueness.

/// Entries in ascending id order (ties allowed).
pub open spec fn sorted_by_id(s: Seq<(u128, String)>) -> bool {
    forall|i: int, j: int| 0 <= i < j < s.len() ==> s[i].0 <= s[j].0
}

/// Entries in strictly ascending id order: sorted with no repeated id.
pub open spec fn strictly_sorted_by_id(s: Seq<(u128, String)>) -> bool {
    forall|i: int, j: int| 0 <= i < j < s.len() ==> s[i].0 < s[j].0
}

/// Two entries carry the same id.
pub open spec fn has_duplicate_ids(s: Seq<(u128, String)>) -> bool {
    exists|i: int, j: int| 0 <= i < j < s.len() && s[i].0 == s[j].0
}

/// The entries rearranged in strictly ascending id order (unique when ids are distinct).
pub open spec fn id_order(s: Seq<(u128, String)>) -> Seq<(u128, String)> {
    choose|t: Seq<(u128, String)>| strictly_sorted_by_id(t) && t.to_multiset() == s.to_multiset()
}

proof fn lemma_strictly_sorted_unique(s1: Seq<(u128, String)>, s2: Seq<(u128, String)>)
    requires
        strictly_sorted_by_id(s1),
        strictly_sorted_by_id(s2),
        s1.to_multiset() == s2.to_multiset(),
    ensures
        s1 == s2,
    decreases s1.len(),
{
    broadcast use vstd::seq_lib::group_to_multiset_ensures;

    assert(s1.len() == s1.to_multiset().len());
    assert(s2.len() == s2.to_multiset().len());
    if s1.len() == 0 {
        assert(s1 =~= s2);
    } else {
        assert(s1.contains(s1[0]));
        assert(s2.to_multiset().count(s1[0]) > 0);
        assert(s2.contains(s1[0]));
        let j = choose|j: int| 0 <= j < s2.len() && s2[j] == s1[0];
        assert(s2.contains(s2[0]));
        assert(s1.to_multiset().count(s2[0]) > 0);
        assert(s1.contains(s2[0]));
        let i = choose|i: int| 0 <= i < s1.len() && s1[i] == s2[0];
        if i > 0 {
            assert(s1[0].0 < s1[i].0);
        }
        if j > 0 {
            assert(s2[0].0 < s2[j].0);
        }
        assert(j == 0);
        assert(s2[0] == s1[0]);
        let t1 = s1.remove(0);
        let t2 = s2.remove(0);
        assert(t1.to_multiset() == s1.to_multiset().remove(s1[0]));
        assert(t2.to_multiset() == s2.to_multiset().remove(s2[0]));
        assert forall|a: int, b: int| 0 <= a < b < t1.len() implies t1[a].0 < t1[b].0 by {
            assert(t1[a] == s1[a + 1]);
            assert(t1[b] == s1[b + 1]);
        }
        assert forall|a: int, b: int| 0 <= a < b < t2.len() implies t2[a].0 < t2[b].0 by {
            assert(t2[a] == s2[a + 1]);
            assert(t2[b] == s2[b + 1]);
        }
        lemma_strictly_sorted_unique(t1, t2);
        assert(s1 =~= seq![s1[0]] + t1);
        assert(s2 =~= seq![s2[0]] + t2);
    }
}

proof fn lemma_insert_to_multiset(s: Seq<(u128, String)>, pos: int, e: (u128, String))
    requires
        0 <= pos <= s.len(),
    ensures
        s.insert(pos, e).to_multiset() == s.to_multiset().insert(e),
{
    broadcast use vstd::seq_lib::group_to_multiset_ensures;
    broadcast use vstd::multiset::group_multiset_axioms;

    let t = s.insert(pos, e);
    assert(t.remove(pos) =~= s);
    assert(t.remove(pos).to_multiset() == t.to_multiset().remove(t[pos]));
    assert(t.contains(e));
    assert(t.to_multiset().count(e) > 0);
    assert(t.to_multiset() =~= s.to_multiset().insert(e));
}

/// Sorts entries by ascending id, equal ids keeping their relative order.
fn sort_entries_by_id(entries: &[(u128, String)]) -> (v: Vec<(u128, String)>)
    ensures
        sorted_by_id(v@),
        v@.to_multiset() == entries@.to_multiset(),
{
    broadcast use vstd::seq_lib::group_to_multiset_ensures;

    let mut v: Vec<(u128, String)> = Vec::new();
    let mut i: usize = 0;
    assert(entries@.take(0) =~= Seq::<(u128, String)>::empty());
    while i < entries.len()
        invariant
            i <= entries.len(),
            sorted_by_id(v@),
            v@.to_multiset() == entries@.take(i as int).to_multiset(),
        decreases entries.len() - i,
    {
        let id = entries[i].0;
        let e = (id, entries[i].1.clone());
        let mut pos: usize = 0;
        while pos < v.len() && v[pos].0 <= id
            invariant
                pos <= v.len(),
                forall|k: int| 0 <= k < pos ==> v@[k].0 <= id,
            decreases v.len() - pos,
        {
            pos = pos + 1;
        }
        let ghost before = v@;
        proof {
            lemma_insert_to_multiset(before, pos as int, e);
        }
        v.insert(pos, e);
        proof {
            assert forall|a: int, b: int| 0 <= a < b < v@.len() implies v@[a].0 <= v@[b].0 by {
                if b < pos {
                    assert(v@[a] == before[a] && v@[b] == before[b]);
                } else if b == pos {
                    assert(v@[a] == before[a]);
                } else if a < pos {
                    assert(v@[a] == before[a] && v@[b] == before[b - 1]);
                    if pos < before.len() {
                        assert(before[a].0 <= before[pos as int].0);
                    }
                } else if a == pos {
                    assert(v@[b] == before[b - 1]);
                } else {
                    assert(v@[a] == before[a - 1] && v@[b] == before[b - 1]);
                }
            }
            assert(e == entries@[i as int]);
            assert(v@ == before.insert(pos as int, e));
            assert(entries@.take(i + 1) =~= entries@.take(i as int).push(entries@[i as int]));
            entries@.take(i as int).to_multiset_ensures();
            assert(entries@.take(i as int).push(e).to_multiset() == entries@.take(
                i as int,
            ).to_multiset().insert(e));
        }
        i = i + 1;
    }
    assert(entries@.take(entries.len() as int) =~= entries@);
    v
}

// ---------------------------------------------------------------------------------------
// Byte encodings that feed the digests.

/// Byte `i` (most significant first) of the 16-byte big-endian form of `x`.
pub open spec fn be_byte_128(x: u128, i: int) -> u8 {
    ((x >> (((15 - i) * 8) as u128)) & 0xffu128) as u8
}

/// The 16-byte big-endian form of `x`, as `Uuid::as_bytes` gives for the id `x`.
pub open spec fn be_bytes_128(x: u128) -> Seq<u8> {
    Seq::new(16, |i: int| be_byte_128(x, i))
}

/// The `w`-byte big-endian form of `x`.
pub open spec fn be_bytes_64(x: u64, w: nat) -> Seq<u8> {
    Seq::new(w, |i: int| ((x >> (((w - 1 - i) * 8) as u64)) & 0xffu64) as u8)
}

/// The big-endian form of a `usize` on this target, as `usize::to_be_bytes` gives.
pub open spec fn be_bytes_usize(x: usize) -> Seq<u8> {
    be_bytes_64(x as u64, (usize::BITS / 8) as nat)
}

/// The 4-byte big-endian two's-complement form of `x`, as `i32::to_be_bytes` gives.
pub open spec fn be_bytes_i32(x: i32) -> Seq<u8> {
    be_bytes_64((x as u32) as u64, 4)
}

fn push_be_128(out: &mut Vec<u8>, x: u128)
    ensures
        final(out)@ == old(out)@ + be_bytes_128(x),
{
    let ghost start = out@;
    let mut i: u32 = 0;
    while i < 16
        invariant
            i <= 16,
            out@ == start + be_bytes_128(x).take(i as int),
        decreases 16 - i,
    {
        let b = ((x >> ((15 - i) * 8) as u128) & 0xffu128) as u8;
        out.push(b);
        assert(be_bytes_128(x).take(i + 1) =~= be_bytes_128(x).take(i as int).push(b));
        i = i + 1;
    }
    assert(be_bytes_128(x).take(16) =~= be_bytes_128(x));
}

fn push_be_64(out: &mut Vec<u8>, x: u64, w: u32)
    requires
        1 <= w <= 8,
    ensures
        final(out)@ == old(out)@ + be_bytes_64(x, w as nat),
{
    let ghost start = out@;
    let mut i: u32 = 0;
    while i < w
        invariant
            i <= w <= 8,
            out@ == start + be_bytes_64(x, w as nat).take(i as int),
        decreases w - i,
    {
        let b = ((x >> ((w - 1 - i) * 8) as u64) & 0xffu64) as u8;
        out.push(b);
        assert(be_bytes_64(x, w as nat).take(i + 1) =~= be_bytes_64(x, w as nat).take(i as int).push(b));
        i = i + 1;
    }
    assert(be_bytes_64(x, w as nat).take(w as int) =~= be_bytes_64(x, w as nat));
}

/// Appends the bytes to `out`.
fn extend_bytes(out: &mut Vec<u8>, bytes: &[u8])
    ensures
        final(out)@ == old(out)@ + bytes@,
{
    let ghost before = out@;
    out.extend_from_slice(bytes);
    assert forall|i: int| 0 <= i < out@.len() implies out@[i] == (before + bytes@)[i] by {
        if i >= before.len() {
            assert(cloned::<u8>(bytes@[i - before.len()], out@[i]));
        }
    }
    assert(out@ =~= before + bytes@);
}

/// A text field in a row digest: its UTF-8 byte length, big-endian, then its UTF-8 bytes.
pub open spec fn text_bytes(s: Seq<char>) -> Seq<u8> {
    be_bytes_usize(vstd::utf8::encode_utf8(s).len() as usize) + vstd::utf8::encode_utf8(s)
}

fn push_text(out: &mut Vec<u8>, value: &str)
    ensures
        final(out)@ == old(out)@ + text_bytes(value@),
{
    let bytes = value.as_bytes();
    proof {
        assert(usize::BITS == 32 || usize::BITS == 64);
    }
    push_be_64(out, value.len() as u64, usize::BITS / 8);
    extend_bytes(out, bytes);
    proof {
        assert(old(out)@ + be_bytes_usize(value.len()) + vstd::utf8::encode_utf8(value@) =~= old(out)@
            + text_bytes(value@));
    }
}


// ---------------------------------------------------------------------------------------
// Duplicate ids are a property of the multiset of entries.

proof fn lemma_two_positions_count(s: Seq<(u128, String)>, i: int, j: int)
    requires
        0 <= i < j < s.len(),
        s[i] == s[j],
    ensures
        s.to_multiset().count(s[i]) >= 2,
{
    broadcast use vstd::seq_lib::group_to_multiset_ensures;
    broadcast use vstd::multiset::group_multiset_axioms;

    let t = s.remove(j);
    assert(t.to_multiset() == s.to_multiset().remove(s[j]));
    assert(t[i] == s[i]);
    assert(t.contains(s[i]));
    assert(t.to_multiset().count(s[i]) > 0);
}

proof fn lemma_count_two_positions(s: Seq<(u128, String)>, x: (u128, String))
    requires
        s.to_multiset().count(x) >= 2,
    ensures
        exists|i: int, j: int| 0 <= i < j < s.len() && s[i] == x && s[j] == x,
{
    broadcast use vstd::seq_lib::group_to_multiset_ensures;
    broadcast use vstd::multiset::group_multiset_axioms;

    assert(s.contains(x));
    let i = choose|i: int| 0 <= i < s.len() && s[i] == x;
    let t = s.remove(i);
    assert(t.to_multiset() == s.to_multiset().remove(x));
    assert(t.to_multiset().count(x) > 0);
    assert(t.contains(x));
    let k = choose|k: int| 0 <= k < t.len() && t[k] == x;
    if k < i {
        assert(s[k] == x);
    } else {
        assert(s[k + 1] == x);
    }
}

proof fn lemma_duplicate_ids_carry_over(s1: Seq<(u128, String)>, s2: Seq<(u128, String)>)
    requires
        s1.to_multiset() == s2.to_multiset(),
        has_duplicate_ids(s1),
    ensures
        has_duplicate_ids(s2),
{
    broadcast use vstd::seq_lib::group_to_multiset_ensures;

    let (i, j) = choose|i: int, j: int| 0 <= i < j < s1.len() && s1[i].0 == s1[j].0;
    if s1[i] != s1[j] {
        assert(s1.contains(s1[i]) && s1.contains(s1[j]));
        assert(s2.to_multiset().count(s1[i]) > 0 && s2.to_multiset().count(s1[j]) > 0);
        assert(s2.contains(s1[i]) && s2.contains(s1[j]));
        let a = choose|a: int| 0 <= a < s2.len() && s2[a] == s1[i];
        let b = choose|b: int| 0 <= b < s2.len() && s2[b] == s1[j];
        if a < b {
            assert(s2[a].0 == s2[b].0);
        } else {
            assert(s2[b].0 == s2[a].0);
        }
    } else {
        lemma_two_positions_count(s1, i, j);
        lemma_count_two_positions(s2, s1[i]);
        let (a, b) = choose|a: int, b: int| 0 <= a < b < s2.len() && s2[a] == s1[i] && s2[b] == s1[i];
        assert(s2[a].0 == s2[b].0);
    }
}

// ---------------------------------------------------------------------------------------
// The manifest digest.

/// The manifest message: each entry's 16-byte id followed by its row digest's UTF-8 bytes.
pub open spec fn manifest_message(s: Seq<(u128, String)>) -> Seq<u8>
    decreases s.len(),
{
    if s.len() == 0 {
        Seq::empty()
    } else {
        manifest_message(s.drop_last()) + be_bytes_128(s.last().0) + vstd::utf8::encode_utf8(
            s.last().1@,
        )
    }
}

/// The manifest digest of entries with distinct ids: lower-case hex SHA-256 of the message
/// of the entries in id order, so independent of the order in which they are given.
pub open spec fn manifest_digest(entries: Seq<(u128, String)>) -> Seq<char> {
    crate::hashing::hex_lower(crate::hashing::spec_sha256(manifest_message(id_order(entries))))
}

/// Hashes `(item id, row digest)` entries in id order; a repeated id is refused.
pub fn manifest_hash(entries: &[(u128, String)]) -> (r: Result<String, CatalogPublicationError>)
    ensures
        match r {
            Ok(h) => !has_duplicate_ids(entries@) && h@ == manifest_digest(entries@),
            Err(e) => has_duplicate_ids(entries@) && e == CatalogPublicationError::InvalidManifest,
        },
{
    let sorted = sort_entries_by_id(entries);
    let mut k: usize = 0;
    while k + 1 < sorted.len()
        invariant
            sorted_by_id(sorted@),
            k == 0 || k < sorted.len(),
            sorted@.to_multiset() == entries@.to_multiset(),
            forall|a: int, b: int|
                0 <= a < b <= k && b < sorted@.len() ==> #[trigger] sorted@[a].0 < #[trigger] sorted@[b].0,
        decreases sorted.len() - k,
    {
        if sorted[k].0 == sorted[k + 1].0 {
            proof {
                assert(has_duplicate_ids(sorted@));
                lemma_duplicate_ids_carry_over(sorted@, entries@);
            }
            return Err(CatalogPublicationError::InvalidManifest);
        }
        k = k + 1;
    }
    proof {
        assert(strictly_sorted_by_id(sorted@));
        if has_duplicate_ids(entries@) {
            lemma_duplicate_ids_carry_over(entries@, sorted@);
        }
        lemma_strictly_sorted_unique(sorted@, id_order(entries@));
    }
    let mut message: Vec<u8> = Vec::new();
    let mut i: usize = 0;
    while i < sorted.len()
        invariant
            i <= sorted.len(),
            message@ == manifest_message(sorted@.take(i as int)),
        decreases sorted.len() - i,
    {
        push_be_128(&mut message, sorted[i].0);
        extend_bytes(&mut message, sorted[i].1.as_str().as_bytes());
        assert(sorted@.take(i + 1).drop_last() =~= sorted@.take(i as int));
        i = i + 1;
    }
    assert(sorted@.take(sorted.len() as int) =~= sorted@);
    let digest = crate::hashing::sha256_digest(message.as_slice());
    Ok(crate::hashing::to_hex_lower(digest.as_slice()))
}

/// Errors of structure publications that the library itself decides.
#[derive(Clone, Copy, Debug, PartialEq, Eq, Structural)]
pub enum CatalogPublicationError {
    InvalidStructureRow,
    InvalidManifest,
    InvalidWorkKind,
    InvalidPublication,
    ManifestMismatch,
    InvalidStructure,
    InvalidSourceRow,
    InvalidSourceManifest,
    InvalidSourceGraph,
    StableIdentityConflict,
    UnauthorizedStorageObject,
    StaleExpectedRevision,
    StorageInputPending,
    InvalidMetadataPolicy,
    MissingCatalogState,
}


/// Rearranging the entries leaves their manifest digest unchanged: the digest depends only on
/// which `(id, row digest)` entries there are.
pub proof fn manifest_digest_is_order_independent(e1: Seq<(u128, String)>, e2: Seq<(u128, String)>)
    requires
        e1.to_multiset() == e2.to_multiset(),
    ensures
        manifest_digest(e1) == manifest_digest(e2),
{
    let p1 = |t: Seq<(u128, String)>| strictly_sorted_by_id(t) && t.to_multiset() == e1.to_multiset();
    let p2 = |t: Seq<(u128, String)>| strictly_sorted_by_id(t) && t.to_multiset() == e2.to_multiset();
    assert(p1 =~= p2);
}

// ---------------------------------------------------------------------------------------
// Projection rows.

/// The longest name or sort name of a row, in characters.
pub const MAX_NAME_CHARS: usize = 512;
/// The longest overview of a row, in characters.
pub const MAX_OVERVIEW_CHARS: usize = 32768;
/// The most rows one publication holds.
pub const MAX_ROWS: usize = 100000;
/// The largest batch of rows staged in one transaction.
pub const MAX_BATCH_ROWS: usize = 5000;

/// A display text of a projection row: not blank, at most `max` characters, no control
/// character.
pub fn valid_text(value: &str, max_chars: usize) -> (r: bool)
    ensures
        r == crate::text::bounded_plain_text(value@, max_chars as nat),
{
    crate::text::is_bounded_plain_text(value, max_chars)
}

/// One immutable item projection inside a structure publication.
#[derive(Clone, Debug)]
pub struct StructurePublicationRow {
    catalog_item_id: u128,
    parent_catalog_item_id: u128,
    storage_root_id: u128,
    scope_storage_object_id: u128,
    item_type: String,
    name: String,
    sort_name: String,
    production_year: Option<i32>,
    overview: Option<String>,
    row_sha256: String,
}

/// The digest message of a row: the four ids, the three texts, then the optional year and
/// overview, each behind a presence byte.
pub open spec fn row_message(
    item: u128,
    parent: u128,
    root: u128,
    scope: u128,
    item_type: Seq<char>,
    name: Seq<char>,
    sort_name: Seq<char>,
    year: Option<i32>,
    overview: Option<Seq<char>>,
) -> Seq<u8> {
    be_bytes_128(item) + be_bytes_128(parent) + be_bytes_128(root) + be_bytes_128(scope)
        + text_bytes(item_type) + text_bytes(name) + text_bytes(sort_name) + match year {
        Some(y) => seq![1u8] + be_bytes_i32(y),
        None => seq![0u8],
    } + match overview {
        Some(o) => seq![1u8] + text_bytes(o),
        None => seq![0u8],
    }
}

/// The item types a structure publication may hold.
pub open spec fn is_structure_item_type(t: Seq<char>) -> bool {
    t == "Season"@ || t == "Episode"@ || t == "Folder"@
}

/// The row fields are acceptable: a structure item type, bounded names, and an optional
/// overview of bounded length without control characters.
pub open spec fn valid_structure_row(
    item_type: Seq<char>,
    name: Seq<char>,
    sort_name: Seq<char>,
    overview: Option<Seq<char>>,
) -> bool {
    &&& is_structure_item_type(item_type)
    &&& crate::text::bounded_plain_text(name, MAX_NAME_CHARS as nat)
    &&& crate::text::bounded_plain_text(sort_name, MAX_NAME_CHARS as nat)
    &&& match overview {
        Some(o) => o.len() <= MAX_OVERVIEW_CHARS && !crate::text::has_control(o),
        None => true,
    }
}

pub open spec fn opt_view(o: Option<String>) -> Option<Seq<char>> {
    match o {
        Some(s) => Some(s@),
        None => None,
    }
}

fn is_structure_item_type_exec(t: &str) -> (r: bool)
    ensures
        r == is_structure_item_type(t@),
{
    crate::text::str_eq(t, "Season") || crate::text::str_eq(t, "Episode") || crate::text::str_eq(
        t,
        "Folder",
    )
}

impl StructurePublicationRow {
    pub closed spec fn spec_id(&self) -> u128 {
        self.catalog_item_id
    }

    pub closed spec fn spec_parent_id(&self) -> u128 {
        self.parent_catalog_item_id
    }

    pub closed spec fn spec_item_type(&self) -> Seq<char> {
        self.item_type@
    }

    pub closed spec fn spec_row_sha256(&self) -> Seq<char> {
        self.row_sha256@
    }

    pub closed spec fn spec_message(&self) -> Seq<u8> {
        row_message(
            self.catalog_item_id,
            self.parent_catalog_item_id,
            self.storage_root_id,
            self.scope_storage_object_id,
            self.item_type@,
            self.name@,
            self.sort_name@,
            self.production_year,
            opt_view(self.overview),
        )
    }

    /// Defines one projection row, or refuses invalid or unbounded display fields. The row's
    /// digest is the lower-case hex SHA-256 of its message.
    pub fn new(
        catalog_item_id: u128,
        parent_catalog_item_id: u128,
        storage_root_id: u128,
        scope_storage_object_id: u128,
        item_type: String,
        name: String,
        sort_name: String,
        production_year: Option<i32>,
        overview: Option<String>,
    ) -> (r: Result<Self, CatalogPublicationError>)
        ensures
            match r {
                Ok(row) => {
                    &&& valid_structure_row(item_type@, name@, sort_name@, opt_view(overview))
                    &&& row.spec_id() == catalog_item_id
                    &&& row.spec_parent_id() == parent_catalog_item_id
                    &&& row.spec_item_type() == item_type@
                    &&& row.spec_message() == row_message(
                        catalog_item_id,
                        parent_catalog_item_id,
                        storage_root_id,
                        scope_storage_object_id,
                        item_type@,
                        name@,
                        sort_name@,
                        production_year,
                        opt_view(overview),
                    )
                    &&& row.spec_row_sha256() == crate::hashing::hex_lower(
                        crate::hashing::spec_sha256(row.spec_message()),
                    )
                },
                Err(e) => !valid_structure_row(item_type@, name@, sort_name@, opt_view(overview))
                    && e == CatalogPublicationError::InvalidStructureRow,
            },
    {
        let overview_ok = match &overview {
            Some(value) => {
                let chars = crate::text::chars_of(value.as_str());
                chars.len() <= MAX_OVERVIEW_CHARS && !crate::text::contains_control(
                    chars.as_slice(),
                )
            },
            None => true,
        };
        if !is_structure_item_type_exec(item_type.as_str()) || !valid_text(
            name.as_str(),
            MAX_NAME_CHARS,
        ) || !valid_text(sort_name.as_str(), MAX_NAME_CHARS) || !overview_ok {
            return Err(CatalogPublicationError::InvalidStructureRow);
        }
        let mut message: Vec<u8> = Vec::new();
        push_be_128(&mut message, catalog_item_id);
        push_be_128(&mut message, parent_catalog_item_id);
        push_be_128(&mut message, storage_root_id);
        push_be_128(&mut message, scope_storage_object_id);
        push_text(&mut message, item_type.as_str());
        push_text(&mut message, name.as_str());
        push_text(&mut message, sort_name.as_str());
        match production_year {
            Some(year) => {
                message.push(1u8);
                push_be_64(&mut message, (year as u32) as u64, 4);
            },
            None => {
                message.push(0u8);
            },
        }
        match &overview {
            Some(value) => {
                message.push(1u8);
                push_text(&mut message, value.as_str());
            },
            None => {
                message.push(0u8);
            },
        }
        let ghost expected = row_message(
            catalog_item_id,
            parent_catalog_item_id,
            storage_root_id,
            scope_storage_object_id,
            item_type@,
            name@,
            sort_name@,
            production_year,
            opt_view(overview),
        );
        assert(message@ =~= expected);
        let digest = crate::hashing::sha256_digest(message.as_slice());
        let row_sha256 = crate::hashing::to_hex_lower(digest.as_slice());
        Ok(StructurePublicationRow {
            catalog_item_id,
            parent_catalog_item_id,
            storage_root_id,
            scope_storage_object_id,
            item_type,
            name,
            sort_name,
            production_year,
            overview,
            row_sha256,
        })
    }

    pub fn id(&self) -> (r: u128)
        ensures
            r == self.spec_id(),
    {
        self.catalog_item_id
    }

    pub fn parent_id(&self) -> (r: u128)
        ensures
            r == self.spec_parent_id(),
    {
        self.parent_catalog_item_id
    }

    pub fn row_sha256(&self) -> (r: &str)
        ensures
            r@ == self.spec_row_sha256(),
    {
        self.row_sha256.as_str()
    }

    /// The manifest entry of this row: its item id and row digest.
    pub closed spec fn spec_entry(&self) -> (u128, String) {
        (self.catalog_item_id, self.row_sha256)
    }

    /// A row's manifest entry is its item id and its row digest.
    pub proof fn entry_is_id_and_digest(&self)
        ensures
            self.spec_entry().0 == self.spec_id(),
            self.spec_entry().1@ == self.spec_row_sha256(),
    {
    }
}

/// Two of the rows share an item id.
pub open spec fn rows_share_id(rows: Seq<StructurePublicationRow>) -> bool {
    exists|i: int, j: int| 0 <= i < j < rows.len() && rows[i].spec_id() == rows[j].spec_id()
}

/// The manifest entries repeat an id exactly when two rows share an item id.
pub proof fn duplicate_entries_are_shared_ids(rows: Seq<StructurePublicationRow>)
    ensures
        has_duplicate_ids(row_entries(rows)) <==> rows_share_id(rows),
{
    let e = row_entries(rows);
    if has_duplicate_ids(e) {
        let (i, j) = choose|i: int, j: int| 0 <= i < j < e.len() && e[i].0 == e[j].0;
        assert(rows[i].spec_id() == rows[j].spec_id());
    }
    if rows_share_id(rows) {
        let (i, j) = choose|i: int, j: int| 0 <= i < j < rows.len() && rows[i].spec_id() == rows[j].spec_id();
        assert(e[i].0 == e[j].0);
    }
}

/// The manifest entries of rows, in the order given.
pub open spec fn row_entries(rows: Seq<StructurePublicationRow>) -> Seq<(u128, String)> {
    Seq::new(rows.len(), |i: int| rows[i].spec_entry())
}

/// What `from_rows` gives for the rows: more than `MAX_ROWS` rows or a repeated item id is
/// an invalid manifest; otherwise the row count and the digest of the rows' entries.
pub open spec fn manifest_outcome(rows: Seq<StructurePublicationRow>) -> Result<(int, Seq<char>), CatalogPublicationError> {
    if rows.len() > MAX_ROWS || has_duplicate_ids(row_entries(rows)) {
        Err(CatalogPublicationError::InvalidManifest)
    } else {
        Ok((rows.len() as int, manifest_digest(row_entries(rows))))
    }
}

proof fn lemma_entries_follow_rows(r1: Seq<StructurePublicationRow>, r2: Seq<StructurePublicationRow>)
    requires
        r1.to_multiset() == r2.to_multiset(),
    ensures
        row_entries(r1).to_multiset() == row_entries(r2).to_multiset(),
    decreases r1.len(),
{
    broadcast use vstd::seq_lib::group_to_multiset_ensures;
    broadcast use vstd::multiset::group_multiset_axioms;

    if r1.len() == 0 {
        assert(r2.len() == r2.to_multiset().len());
        assert(row_entries(r1) =~= Seq::<(u128, String)>::empty());
        assert(row_entries(r2) =~= Seq::<(u128, String)>::empty());
    } else {
        let x = r1.last();
        let r1p = r1.drop_last();
        assert(r1 =~= r1p.push(x));
        assert(r1.contains(x)) by {
            assert(r1[r1.len() - 1] == x);
        }
        assert(r2.to_multiset().count(x) > 0);
        assert(r2.contains(x));
        let k = choose|k: int| 0 <= k < r2.len() && r2[k] == x;
        let r2p = r2.remove(k);
        assert(r2p.to_multiset() == r2.to_multiset().remove(x));
        assert(r1.to_multiset() == r1p.to_multiset().insert(x));
        assert(r1p.to_multiset() =~= r1.to_multiset().remove(x));
        lemma_entries_follow_rows(r1p, r2p);
        let e1 = row_entries(r1);
        let e2 = row_entries(r2);
        assert(e1 =~= row_entries(r1p).push(x.spec_entry()));
        assert(row_entries(r2p) =~= e2.remove(k));
        assert(e2[k] == x.spec_entry());
        assert(e2.remove(k).to_multiset() == e2.to_multiset().remove(x.spec_entry()));
        assert(e2.contains(x.spec_entry()));
        assert(e2.to_multiset().count(x.spec_entry()) > 0);
        assert(e1.to_multiset() == row_entries(r1p).to_multiset().insert(x.spec_entry()));
        assert(e1.to_multiset() =~= e2.to_multiset());
    }
}

/// Rearranging the rows leaves what `from_rows` gives unchanged: the same refusal, or the
/// same row count and digest.
pub proof fn manifest_is_order_independent(rows1: Seq<StructurePublicationRow>, rows2: Seq<StructurePublicationRow>)
    requires
        rows1.to_multiset() == rows2.to_multiset(),
    ensures
        manifest_outcome(rows1) == manifest_outcome(rows2),
{
    broadcast use vstd::seq_lib::group_to_multiset_ensures;

    lemma_entries_follow_rows(rows1, rows2);
    assert(rows1.len() == rows1.to_multiset().len());
    assert(rows2.len() == rows2.to_multiset().len());
    if has_duplicate_ids(row_entries(rows1)) {
        lemma_duplicate_ids_carry_over(row_entries(rows1), row_entries(rows2));
    }
    if has_duplicate_ids(row_entries(rows2)) {
        lemma_duplicate_ids_carry_over(row_entries(rows2), row_entries(rows1));
    }
    manifest_digest_is_order_independent(row_entries(rows1), row_entries(rows2));
}

/// The order-independent manifest expected when a structure publication is sealed.
#[derive(Clone, Debug)]
pub struct StructurePublicationManifest {
    expected_row_count: i64,
    sha256: String,
}

impl StructurePublicationManifest {
    pub closed spec fn spec_expected_row_count(&self) -> i64 {
        self.expected_row_count
    }

    pub closed spec fn spec_sha256(&self) -> Seq<char> {
        self.sha256@
    }

    /// Builds the manifest of the rows: their count and the digest of their
    /// `(item id, row digest)` entries. More than `MAX_ROWS` rows, or a repeated item id,
    /// is refused as an invalid manifest.
    pub fn from_rows(rows: &[StructurePublicationRow]) -> (r: Result<Self, CatalogPublicationError>)
        ensures
            match r {
                Ok(m) => {
                    &&& rows@.len() <= MAX_ROWS
                    &&& !has_duplicate_ids(row_entries(rows@))
                    &&& m.spec_expected_row_count() == rows@.len()
                    &&& m.spec_sha256() == manifest_digest(row_entries(rows@))
                },
                Err(e) => e == CatalogPublicationError::InvalidManifest && (rows@.len() > MAX_ROWS
                    || has_duplicate_ids(row_entries(rows@))),
            },
            r is Err <==> rows@.len() > MAX_ROWS || rows_share_id(rows@),
            match r {
                Ok(m) => manifest_outcome(rows@) == Ok::<(int, Seq<char>), CatalogPublicationError>(
                    (m.spec_expected_row_count() as int, m.spec_sha256()),
                ),
                Err(e) => manifest_outcome(rows@) == Err::<(int, Seq<char>), CatalogPublicationError>(e),
            },
    {
        proof {
            duplicate_entries_are_shared_ids(rows@);
        }
        if rows.len() > MAX_ROWS {
            return Err(CatalogPublicationError::InvalidManifest);
        }
        let mut entries: Vec<(u128, String)> = Vec::new();
        let mut i: usize = 0;
        while i < rows.len()
            invariant
                i <= rows.len(),
                entries@ =~= row_entries(rows@).take(i as int),
            decreases rows.len() - i,
        {
            let row = &rows[i];
            entries.push((row.catalog_item_id, row.row_sha256.clone()));
            i = i + 1;
        }
        assert(row_entries(rows@).take(rows.len() as int) =~= row_entries(rows@));
        let sha256 = manifest_hash(entries.as_slice())?;
        Ok(StructurePublicationManifest { expected_row_count: rows.len() as i64, sha256 })
    }

    pub fn expected_row_count(&self) -> (r: i64)
        ensures
            r == self.spec_expected_row_count(),
    {
        self.expected_row_count
    }

    pub fn sha256(&self) -> (r: &str)
        ensures
            r@ == self.spec_sha256(),
    {
        self.sha256.as_str()
    }
}

/// A projection row as staged for a publication.
#[derive(Clone, Debug)]
pub struct StoredProjectionRow {
    pub item_id: u128,
    pub parent_id: u128,
    pub item_type: String,
    pub row_sha256: String,
}

/// The manifest entries of staged rows.
pub open spec fn stored_entries(rows: Seq<StoredProjectionRow>) -> Seq<(u128, String)> {
    Seq::new(rows.len(), |i: int| (rows[i].item_id, rows[i].row_sha256))
}

/// The `(item, parent)` pairs of staged rows.
pub open spec fn stored_links(rows: Seq<StoredProjectionRow>) -> Seq<(u128, u128)> {
    Seq::new(rows.len(), |i: int| (rows[i].item_id, rows[i].parent_id))
}

/// The outcome of checking a staged projection against its publication, in the order the
/// checks are made.
pub open spec fn projection_outcome(
    owner: u128,
    expected_row_count: i64,
    manifest_sha256: Seq<char>,
    rows: Seq<StoredProjectionRow>,
) -> Result<(), CatalogPublicationError> {
    if rows.len() != expected_row_count {
        Err(CatalogPublicationError::ManifestMismatch)
    } else if has_duplicate_ids(stored_entries(rows)) {
        Err(CatalogPublicationError::InvalidManifest)
    } else if manifest_digest(stored_entries(rows)) != manifest_sha256 {
        Err(CatalogPublicationError::ManifestMismatch)
    } else if !rooted_projection(owner, stored_links(rows)) {
        Err(CatalogPublicationError::InvalidStructure)
    } else {
        Ok(())
    }
}

/// A staged projection whose rows carry exactly the entries a manifest was built from, in
/// any order, passes the manifest checks when it is sealed: sealing then succeeds exactly
/// when the projection is rooted at the owner.
pub proof fn matching_projection_seals_iff_rooted(
    owner: u128,
    rows: Seq<StructurePublicationRow>,
    stored: Seq<StoredProjectionRow>,
)
    requires
        rows.len() <= MAX_ROWS,
        !has_duplicate_ids(row_entries(rows)),
        stored_entries(stored).to_multiset() == row_entries(rows).to_multiset(),
    ensures
        projection_outcome(owner, rows.len() as i64, manifest_digest(row_entries(rows)), stored) == (if rooted_projection(
            owner,
            stored_links(stored),
        ) {
            Ok::<(), CatalogPublicationError>(())
        } else {
            Err::<(), CatalogPublicationError>(CatalogPublicationError::InvalidStructure)
        }),
{
    broadcast use vstd::seq_lib::group_to_multiset_ensures;

    assert(stored_entries(stored).to_multiset().len() == stored_entries(stored).len());
    assert(row_entries(rows).to_multiset().len() == row_entries(rows).len());
    if has_duplicate_ids(stored_entries(stored)) {
        lemma_duplicate_ids_carry_over(stored_entries(stored), row_entries(rows));
    }
    manifest_digest_is_order_independent(stored_entries(stored), row_entries(rows));
}

/// Checks the complete staged projection before sealing: the row count and the manifest
/// digest must match the publication, and the rows must form a projection rooted at `owner`.
pub fn validate_projection(
    owner: u128,
    expected_row_count: i64,
    manifest_sha256: &str,
    rows: &[StoredProjectionRow],
) -> (r: Result<(), CatalogPublicationError>)
    ensures
        r == projection_outcome(owner, expected_row_count, manifest_sha256@, rows@),
{
    if expected_row_count < 0 || rows.len() as u64 != expected_row_count as u64 {
        return Err(CatalogPublicationError::ManifestMismatch);
    }
    let mut entries: Vec<(u128, String)> = Vec::new();
    let mut links: Vec<(u128, u128)> = Vec::new();
    let mut i: usize = 0;
    while i < rows.len()
        invariant
            i <= rows.len(),
            entries@ =~= stored_entries(rows@).take(i as int),
            links@ =~= stored_links(rows@).take(i as int),
        decreases rows.len() - i,
    {
        let row = &rows[i];
        entries.push((row.item_id, row.row_sha256.clone()));
        links.push((row.item_id, row.parent_id));
        i = i + 1;
    }
    assert(stored_entries(rows@).take(rows.len() as int) =~= stored_entries(rows@));
    assert(stored_links(rows@).take(rows.len() as int) =~= stored_links(rows@));
    let digest = manifest_hash(entries.as_slice())?;
    if !crate::text::str_eq(digest.as_str(), manifest_sha256) {
        return Err(CatalogPublicationError::ManifestMismatch);
    }
    if !is_rooted_projection(owner, links.as_slice()) {
        return Err(CatalogPublicationError::InvalidStructure);
    }
    Ok(())
}

// ---------------------------------------------------------------------------------------
// The publication row and the checks around staging, sealing and publishing.

/// A batch staged in one transaction holds at most `MAX_BATCH_ROWS` rows.
pub fn check_batch_size(rows: usize) -> (r: Result<(), CatalogPublicationError>)
    ensures
        r is Ok <==> rows <= MAX_BATCH_ROWS,
        r is Err ==> r == Err::<(), CatalogPublicationError>(CatalogPublicationError::InvalidStructureRow),
{
    if rows > MAX_BATCH_ROWS {
        Err(CatalogPublicationError::InvalidStructureRow)
    } else {
        Ok(())
    }
}

/// A staged row's canonical item, as stored: its item type and structure owner.
pub open spec fn identity_outcome(
    stored: Option<(Seq<char>, Option<u128>)>,
    expected_item_type: Seq<char>,
    owner: u128,
) -> Result<(), CatalogPublicationError> {
    match stored {
        None => Err(CatalogPublicationError::StableIdentityConflict),
        Some((item_type, stored_owner)) => if item_type == expected_item_type && stored_owner == Some(
            owner,
        ) {
            Ok(())
        } else {
            Err(CatalogPublicationError::StableIdentityConflict)
        },
    }
}

/// The canonical item of a staged row must exist with the row's item type and belong to
/// the publication's owner.
pub fn check_structure_identity(
    stored: Option<(&str, Option<u128>)>,
    expected_item_type: &str,
    owner: u128,
) -> (r: Result<(), CatalogPublicationError>)
    ensures
        r == identity_outcome(
            match stored {
                Some((t, o)) => Some((t@, o)),
                None => None,
            },
            expected_item_type@,
            owner,
        ),
{
    match stored {
        None => Err(CatalogPublicationError::StableIdentityConflict),
        Some((item_type, stored_owner)) => {
            let same_owner = match stored_owner {
                Some(o) => o == owner,
                None => false,
            };
            if crate::text::str_eq(item_type, expected_item_type) && same_owner {
                Ok(())
            } else {
                Err(CatalogPublicationError::StableIdentityConflict)
            }
        },
    }
}

/// A stored publication row.
pub struct StoredPublicationRow {
    pub id: u128,
    pub job_id: u128,
    pub owner_catalog_item_id: u128,
    pub publication_kind: String,
    pub expected_revision: i64,
    pub input_sync_revision: Option<i64>,
    pub state: String,
    pub manifest_sha256: String,
    pub expected_row_count: i64,
    pub source_manifest_sha256: Option<String>,
    pub expected_source_row_count: Option<i64>,
}

/// A publication row belongs to the claimed job and its owner, records the job's expected
/// and input revisions, is still building or ready, and records the structure manifest
/// (which has no source part).
pub open spec fn publication_row_matches(
    row: StoredPublicationRow,
    job_id: u128,
    owner: u128,
    expected_revision: i64,
    input_sync_revision: Option<i64>,
    manifest: StructurePublicationManifest,
) -> bool {
    &&& row.job_id == job_id
    &&& row.owner_catalog_item_id == owner
    &&& row.publication_kind@ == "Structure"@
    &&& row.expected_revision == expected_revision
    &&& row.input_sync_revision == input_sync_revision
    &&& (row.state@ == "Building"@ || row.state@ == "Ready"@)
    &&& row.manifest_sha256@ == manifest.spec_sha256()
    &&& row.expected_row_count == manifest.spec_expected_row_count()
    &&& row.source_manifest_sha256 is None
    &&& row.expected_source_row_count is None
}

/// Checks the publication row created or resumed for a claimed job and gives its id.
pub fn validate_publication_row(
    row: &StoredPublicationRow,
    job_id: u128,
    owner: u128,
    expected_revision: i64,
    input_sync_revision: Option<i64>,
    manifest: &StructurePublicationManifest,
) -> (r: Result<u128, CatalogPublicationError>)
    ensures
        match r {
            Ok(id) => publication_row_matches(*row, job_id, owner, expected_revision, input_sync_revision, *manifest)
                && id == row.id,
            Err(e) => !publication_row_matches(*row, job_id, owner, expected_revision, input_sync_revision, *manifest)
                && e == CatalogPublicationError::InvalidPublication,
        },
{
    let state_ok = crate::text::str_eq(row.state.as_str(), "Building") || crate::text::str_eq(
        row.state.as_str(),
        "Ready",
    );
    if row.job_id != job_id || row.owner_catalog_item_id != owner || !crate::text::str_eq(
        row.publication_kind.as_str(),
        "Structure",
    ) || row.expected_revision != expected_revision || row.input_sync_revision != input_sync_revision
        || !state_ok || !crate::text::str_eq(row.manifest_sha256.as_str(), manifest.sha256.as_str())
        || row.expected_row_count != manifest.expected_row_count || row.source_manifest_sha256.is_some()
        || row.expected_source_row_count.is_some() {
        return Err(CatalogPublicationError::InvalidPublication);
    }
    Ok(row.id)
}

/// A loaded publication must belong to the claimed job, be a structure publication and be
/// in the expected state.
pub fn check_loaded_publication(row: &StoredPublicationRow, job_id: u128, expected_state: &str) -> (r: Result<
    (),
    CatalogPublicationError,
>)
    ensures
        r is Ok <==> row.job_id == job_id && row.publication_kind@ == "Structure"@ && row.state@
            == expected_state@,
        r is Err ==> r == Err::<(), CatalogPublicationError>(CatalogPublicationError::InvalidPublication),
{
    if row.job_id != job_id || !crate::text::str_eq(row.publication_kind.as_str(), "Structure")
        || !crate::text::str_eq(row.state.as_str(), expected_state) {
        return Err(CatalogPublicationError::InvalidPublication);
    }
    Ok(())
}

/// The owner must still be at the revision the publication expected.
pub fn check_owner_revision(current: Option<i64>, expected_revision: i64) -> (r: Result<
    (),
    CatalogPublicationError,
>)
    ensures
        r is Ok <==> current == Some(expected_revision),
        r is Err ==> r == Err::<(), CatalogPublicationError>(CatalogPublicationError::StaleExpectedRevision),
{
    match current {
        Some(c) => if c == expected_revision {
            Ok(())
        } else {
            Err(CatalogPublicationError::StaleExpectedRevision)
        },
        None => Err(CatalogPublicationError::StaleExpectedRevision),
    }
}

/// Switching the owner to the publication must update exactly its one row; otherwise the
/// owner moved on.
pub fn switch_outcome(rows_affected: u64) -> (r: Result<(), CatalogPublicationError>)
    ensures
        r is Ok <==> rows_affected == 1,
        r is Err ==> r == Err::<(), CatalogPublicationError>(CatalogPublicationError::StaleExpectedRevision),
{
    if rows_affected == 1 {
        Ok(())
    } else {
        Err(CatalogPublicationError::StaleExpectedRevision)
    }
}

/// Sealing must move exactly the one building publication to ready.
pub fn seal_outcome(rows_affected: u64) -> (r: Result<(), CatalogPublicationError>)
    ensures
        r is Ok <==> rows_affected == 1,
        r is Err ==> r == Err::<(), CatalogPublicationError>(CatalogPublicationError::InvalidPublication),
{
    if rows_affected == 1 {
        Ok(())
    } else {
        Err(CatalogPublicationError::InvalidPublication)
    }
}

/// The ids of the episode rows of a staged projection, each once.
pub fn episode_ids(rows: &[StoredProjectionRow]) -> (r: Vec<u128>)
    ensures
        r@.no_duplicates(),
        forall|id: u128|
            r@.contains(id) <==> exists|i: int|
                0 <= i < rows@.len() && (#[trigger] rows@[i]).item_id == id && rows@[i].item_type@
                    == "Episode"@,
{
    let mut out: Vec<u128> = Vec::new();
    let mut i: usize = 0;
    while i < rows.len()
        invariant
            i <= rows@.len(),
            out@.no_duplicates(),
            forall|id: u128|
                out@.contains(id) <==> exists|k: int|
                    0 <= k < i && (#[trigger] rows@[k]).item_id == id && rows@[k].item_type@ == "Episode"@,
        decreases rows.len() - i,
    {
        let row = &rows[i];
        let ghost old_out = out@;
        if crate::text::str_eq(row.item_type.as_str(), "Episode") {
            let mut seen = false;
            let mut j: usize = 0;
            while j < out.len()
                invariant
                    j <= out@.len(),
                    seen <==> exists|t: int| 0 <= t < j && out@[t] == row.item_id,
                decreases out.len() - j,
            {
                if out[j] == row.item_id {
                    seen = true;
                }
                j = j + 1;
            }
            if !seen {
                out.push(row.item_id);
                proof {
                    assert forall|a: int, b: int| 0 <= a < b < out@.len() implies out@[a] != out@[b] by {
                        if b == old_out.len() {
                            assert(out@[a] == old_out[a]);
                        }
                    }
                }
            }
            proof {
                assert(out@.contains(row.item_id)) by {
                    if seen {
                        let t = choose|t: int| 0 <= t < old_out.len() && old_out[t] == row.item_id;
                        assert(out@[t] == row.item_id);
                    } else {
                        assert(out@[old_out.len() as int] == row.item_id);
                    }
                }
                assert forall|id: u128| old_out.contains(id) implies out@.contains(id) by {
                    let t = choose|t: int| 0 <= t < old_out.len() && old_out[t] == id;
                    assert(out@[t] == id);
                }
                assert forall|id: u128| out@.contains(id) && id != row.item_id implies old_out.contains(id) by {
                    let t = choose|t: int| 0 <= t < out@.len() && out@[t] == id;
                    if !seen {
                        assert(t < old_out.len());
                    }
                    assert(old_out[t] == id);
                }
                assert forall|id: u128|
                    out@.contains(id) <==> exists|k: int|
                        0 <= k < i + 1 && (#[trigger] rows@[k]).item_id == id && rows@[k].item_type@
                            == "Episode"@ by {
                    if id == row.item_id {
                        assert(rows@[i as int].item_id == id && rows@[i as int].item_type@ == "Episode"@);
                    } else {
                        if out@.contains(id) {
                            assert(old_out.contains(id));
                            let k = choose|k: int|
                                0 <= k < i && (#[trigger] rows@[k]).item_id == id && rows@[k].item_type@
                                    == "Episode"@;
                            assert(0 <= k < i + 1 && rows@[k].item_id == id);
                        }
                        if exists|k: int|
                            0 <= k < i + 1 && (#[trigger] rows@[k]).item_id == id && rows@[k].item_type@
                                == "Episode"@ {
                            let k = choose|k: int|
                                0 <= k < i + 1 && (#[trigger] rows@[k]).item_id == id && rows@[k].item_type@
                                    == "Episode"@;
                            assert(k != i);
                            assert(exists|k2: int|
                                0 <= k2 < i && (#[trigger] rows@[k2]).item_id == id && rows@[k2].item_type@
                                    == "Episode"@);
                            assert(old_out.contains(id));
                        }
                    }
                }
            }
        } else {
            assert forall|id: u128|
                out@.contains(id) <==> exists|k: int|
                    0 <= k < i + 1 && (#[trigger] rows@[k]).item_id == id && rows@[k].item_type@
                        == "Episode"@ by {
                if exists|k: int|
                    0 <= k < i + 1 && (#[trigger] rows@[k]).item_id == id && rows@[k].item_type@
                        == "Episode"@ {
                    let k = choose|k: int|
                        0 <= k < i + 1 && (#[trigger] rows@[k]).item_id == id && rows@[k].item_type@
                            == "Episode"@;
                    assert(k != i);
                }
            }
        }
        i = i + 1;
    }
    out
}

} // verus!
