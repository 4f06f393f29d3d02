use vstd::prelude::*;

use crate::handle::Handle;
use crate::store::{next_generation, HandleMap};

verus! {

/// Inserting `value` under `key` and then looking `key` up gives a handle that
/// is alive and addresses `value`. Every other name keeps its handle, and every
/// handle that was alive stays alive on the value it addressed, so a sequence
/// of insertions under distinct names can be read back name by name.
pub proof fn insert_then_lookup<V>(
    before: HandleMap<V>,
    key: Seq<char>,
    value: V,
    h: Handle,
    after: HandleMap<V>,
)
    requires
        before.wf(),
        before.inserted(key, value, h, after),
    ensures
        after.names().contains_key(key),
        after.names()[key] == h,
        after.alive(h),
        after.values()[h.slot() as int] == value,
        forall|k: Seq<char>|
            k != key && #[trigger] before.names().contains_key(k) ==> after.names().contains_key(k)
                && after.names()[k] == before.names()[k],
        forall|g: Handle| #[trigger]
            before.alive(g) ==> after.alive(g) && after.values()[g.slot() as int]
                == before.values()[g.slot() as int],
{
}

/// After inserting `a` then `b` and popping, the pop returns `b`'s value, the
/// handle issued for `b` is dead, and `b` is no longer a known name, while the
/// handle issued for `a` is still alive (and, when the names differ, still
/// recorded for `a`).
pub proof fn stale_after_pop<V>(
    s0: HandleMap<V>,
    a: Seq<char>,
    va: V,
    ha: Handle,
    s1: HandleMap<V>,
    b: Seq<char>,
    vb: V,
    hb: Handle,
    s2: HandleMap<V>,
    r: Option<V>,
    s3: HandleMap<V>,
)
    requires
        s0.wf(),
        s0.inserted(a, va, ha, s1),
        s1.inserted(b, vb, hb, s2),
        s2.popped(r, s3),
    ensures
        r == Some(vb),
        !s3.alive(hb),
        !s3.names().contains_key(b),
        s3.alive(ha),
        s3.values()[ha.slot() as int] == va,
        a != b ==> s3.names().contains_key(a) && s3.names()[a] == ha,
{
}

/// A handle to the top slot that a pop frees stays dead when an insertion
/// reuses the slot; the new handle for the slot is the one alive.
pub proof fn popped_handle_stays_dead<V>(
    s: HandleMap<V>,
    h: Handle,
    r: Option<V>,
    t: HandleMap<V>,
    key: Seq<char>,
    value: V,
    hn: Handle,
    u: HandleMap<V>,
)
    requires
        s.wf(),
        s.alive(h),
        h.slot() == s.values().len() - 1,
        s.popped(r, t),
        t.inserted(key, value, hn, u),
    ensures
        !t.alive(h),
        hn.slot() == h.slot(),
        !u.alive(h),
        u.alive(hn),
{
}

/// Popping right after an insertion returns the inserted value and leaves the
/// stored values as they were before it: the stack shrinks by exactly one.
pub proof fn insert_then_pop<V>(
    s0: HandleMap<V>,
    key: Seq<char>,
    value: V,
    h: Handle,
    s1: HandleMap<V>,
    r: Option<V>,
    s2: HandleMap<V>,
)
    requires
        s0.wf(),
        s0.inserted(key, value, h, s1),
        s1.popped(r, s2),
    ensures
        r == Some(value),
        s2.values() == s0.values(),
        s2.values().len() == s1.values().len() - 1,
{
    assert(s2.values() =~= s0.values());
}

/// Replacing through a live handle returns the old value and puts the new one
/// in the same slot, and kills every handle to that slot, the one used included.
/// The name index is unchanged, so a name that recorded such a handle now
/// records a dead one.
pub proof fn replace_invalidates<V>(s: HandleMap<V>, h: Handle, value: V, r: V, t: HandleMap<V>)
    requires
        s.wf(),
        s.alive(h),
        s.replaced(h, value, r, t),
    ensures
        r == s.values()[h.slot() as int],
        t.values().len() == s.values().len(),
        t.values()[h.slot() as int] == value,
        t.generations()[h.slot() as int] == next_generation(h.version()),
        !t.alive(h),
        forall|g: Handle| g.slot() == h.slot() && #[trigger] s.alive(g) ==> !t.alive(g),
        forall|k: Seq<char>|
            #[trigger] s.names().contains_key(k) && s.names()[k] == h ==> t.names()[k] == h
                && !t.alive(t.names()[k]),
{
}

} // verus!
