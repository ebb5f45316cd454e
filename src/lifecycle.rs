//! What each crossing of the handle boundary does to the arena of live
//! values: the four lifecycle operations, stated once for every payload kind.
use vstd::prelude::*;
use crate::handle::Handle;
use crate::schema::Field;

verus! {

/// Deserialize: `c` is a fresh handle in `before` and the only change is that
/// it now owns a new value.
pub open spec fn adopted<V>(before: Map<Handle, V>, after: Map<Handle, V>, c: Handle) -> bool {
    &&& !before.contains_key(c)
    &&& after == before.insert(c, after[c])
}

/// Serialize: `h` stays live and keeps its place, the value behind it writes
/// the same fields as before, and `out` holds exactly those fields.
pub open spec fn serialized<V>(
    before: Map<Handle, V>,
    after: Map<Handle, V>,
    h: Handle,
    out: Seq<Field>,
    fields: spec_fn(V) -> Seq<Field>,
) -> bool {
    &&& before.contains_key(h)
    &&& after == before.insert(h, after[h])
    &&& fields(after[h]) == fields(before[h])
    &&& out == fields(before[h])
}

/// Copy: `h` is untouched and a fresh handle `c` owns a duplicate that writes
/// the same fields.
pub open spec fn copied<V>(
    before: Map<Handle, V>,
    after: Map<Handle, V>,
    h: Handle,
    c: Handle,
    fields: spec_fn(V) -> Seq<Field>,
) -> bool {
    &&& before.contains_key(h)
    &&& adopted(before, after, c)
    &&& fields(after[c]) == fields(before[h])
}

/// Free: `h` dies, and nothing else changes.
pub open spec fn released<V>(before: Map<Handle, V>, after: Map<Handle, V>, h: Handle) -> bool {
    &&& before.contains_key(h)
    &&& after == before.remove(h)
}

} // verus!
