//! Laws of the handle lifecycle that hold across several crossings.
use vstd::prelude::*;
use crate::handle::Handle;
use crate::lifecycle::{copied, released, serialized};
use crate::schema::Field;

verus! {

/// Copying a handle and then serializing the original and the copy writes
/// the same fields twice.
pub proof fn lemma_copy_serializes_identically<V>(
    m0: Map<Handle, V>,
    m1: Map<Handle, V>,
    m2: Map<Handle, V>,
    m3: Map<Handle, V>,
    h: Handle,
    c: Handle,
    out_original: Seq<Field>,
    out_copy: Seq<Field>,
    fields: spec_fn(V) -> Seq<Field>,
)
    requires
        copied(m0, m1, h, c, fields),
        serialized(m1, m2, h, out_original, fields),
        serialized(m2, m3, c, out_copy, fields),
    ensures
        out_original == out_copy,
{
    assert(m1[h] == m0[h]);
    assert(m2[c] == m1[c]);
}

/// Freeing a copy leaves the original live, with the same value behind it:
/// the original can still be used and freed on its own.
pub proof fn lemma_free_of_copy_keeps_original<V>(
    m0: Map<Handle, V>,
    m1: Map<Handle, V>,
    m2: Map<Handle, V>,
    h: Handle,
    c: Handle,
    fields: spec_fn(V) -> Seq<Field>,
)
    requires
        copied(m0, m1, h, c, fields),
        released(m1, m2, c),
    ensures
        m2 == m0,
        m2.contains_key(h),
        m2[h] == m0[h],
{
    assert(m2 =~= m0);
}

/// One crossing on `h` that borrows it: a serialize or a copy.
pub open spec fn borrow_step<V>(
    before: Map<Handle, V>,
    after: Map<Handle, V>,
    h: Handle,
    fields: spec_fn(V) -> Seq<Field>,
) -> bool {
    ||| serialized(before, after, h, fields(before[h]), fields)
    ||| exists|c: Handle| #[trigger] copied(before, after, h, c, fields)
}

/// `ms` is the succession of arenas through a run of serializes and copies on `h`.
pub open spec fn borrow_run<V>(
    ms: Seq<Map<Handle, V>>,
    h: Handle,
    fields: spec_fn(V) -> Seq<Field>,
) -> bool {
    &&& ms.len() >= 1
    &&& ms[0].contains_key(h)
    &&& forall|i: int| 1 <= i < ms.len() ==> #[trigger] borrow_step(ms[i - 1], ms[i], h, fields)
}

/// `rs` is the succession of arenas through freeing the handles `hs` in turn.
pub open spec fn free_run<V>(rs: Seq<Map<Handle, V>>, hs: Seq<Handle>) -> bool {
    &&& rs.len() == hs.len() + 1
    &&& forall|j: int| 1 <= j <= hs.len() ==> #[trigger] released(rs[j - 1], rs[j], hs[j - 1])
}

proof fn lemma_borrow_run_prefix<V>(
    ms: Seq<Map<Handle, V>>,
    h: Handle,
    fields: spec_fn(V) -> Seq<Field>,
    k: int,
)
    requires
        borrow_run(ms, h, fields),
        0 <= k < ms.len(),
    ensures
        ms[k].contains_key(h),
        ms[0].dom().subset_of(ms[k].dom()),
        forall|x: Handle| #[trigger]
            ms[0].contains_key(x) && x != h ==> ms[k][x] == ms[0][x],
    decreases k,
{
    if k > 0 {
        lemma_borrow_run_prefix(ms, h, fields, k - 1);
        assert(borrow_step(ms[k - 1], ms[k], h, fields));
        if !serialized(ms[k - 1], ms[k], h, fields(ms[k - 1][h]), fields) {
            let c = choose|c: Handle| #[trigger] copied(ms[k - 1], ms[k], h, c, fields);
            assert(ms[k] == ms[k - 1].insert(c, ms[k][c]));
        }
    }
}

proof fn lemma_free_run_prefix<V>(rs: Seq<Map<Handle, V>>, hs: Seq<Handle>, j: int)
    requires
        free_run(rs, hs),
        0 <= j <= hs.len(),
    ensures
        hs.take(j).no_duplicates(),
        forall|x: Handle| #[trigger]
            rs[j].contains_key(x) <==> rs[0].contains_key(x) && !hs.take(j).contains(x),
        forall|x: Handle| rs[j].contains_key(x) ==> #[trigger] rs[j][x] == rs[0][x],
    decreases j,
{
    if j > 0 {
        lemma_free_run_prefix(rs, hs, j - 1);
        assert(released(rs[j - 1], rs[j], hs[j - 1]));
        assert(hs.take(j) == hs.take(j - 1).push(hs[j - 1]));
        assert forall|x: Handle| #[trigger]
            rs[j].contains_key(x) <==> rs[0].contains_key(x) && !hs.take(j).contains(x) by {
            if hs.take(j).contains(x) && x != hs[j - 1] {
                let i = choose|i: int| 0 <= i < j && #[trigger] hs.take(j)[i] == x;
                assert(hs.take(j - 1)[i] == x);
            }
            if hs.take(j - 1).contains(x) {
                let i = choose|i: int| 0 <= i < j - 1 && #[trigger] hs.take(j - 1)[i] == x;
                assert(hs.take(j)[i] == x);
            }
            if x == hs[j - 1] {
                assert(hs.take(j)[j - 1] == x);
            }
        }
        assert(!hs.take(j - 1).contains(hs[j - 1]));
        assert forall|a: int, b: int| 0 <= a < b < hs.take(j).len() implies hs.take(j)[a]
            != hs.take(j)[b] by {
            if b == j - 1 {
                assert(hs.take(j - 1)[a] == hs.take(j)[a]);
            } else {
                assert(hs.take(j - 1)[a] == hs.take(j)[a]);
                assert(hs.take(j - 1)[b] == hs.take(j)[b]);
            }
        }
    } else {
        assert(hs.take(0) =~= Seq::<Handle>::empty());
    }
}

/// Whatever run of serializes and copies a handle goes through, freeing the
/// original once and each copy once reclaims everything the run created: the
/// arena is then what it was before the run, less the original. No handle
/// can be freed twice along the way.
pub proof fn lemma_frees_reclaim_borrow_run<V>(
    ms: Seq<Map<Handle, V>>,
    rs: Seq<Map<Handle, V>>,
    hs: Seq<Handle>,
    h: Handle,
    fields: spec_fn(V) -> Seq<Field>,
)
    requires
        borrow_run(ms, h, fields),
        free_run(rs, hs),
        rs[0] == ms.last(),
        hs.to_set() == ms.last().dom().difference(ms[0].dom()).insert(h),
    ensures
        hs.no_duplicates(),
        rs.last() == ms[0].remove(h),
{
    let n = ms.len() - 1;
    lemma_borrow_run_prefix(ms, h, fields, n);
    lemma_free_run_prefix(rs, hs, hs.len() as int);
    assert(hs.take(hs.len() as int) =~= hs);
    assert forall|x: Handle| #[trigger] hs.contains(x) <==> hs.to_set().contains(x) by {}
    assert(rs.last() =~= ms[0].remove(h));
}

} // verus!
