//! Laws of the context store, stated over the maps that the contracts of
//! [`crate::Context`] and [`crate::Entry`] speak of.

use vstd::prelude::*;

use crate::context::resolved_map;

verus! {

/// One get-or-create resolution of the key `k`, as the entry operations
/// promise it: `local1` and `r` are the local store and result left by
/// resolving an entry over the local store `local0` whose root holds
/// `inherited`. A locally occupied slot resolves to the local value, a
/// locally vacant slot resolves to the inherited value if the root holds
/// one, and only when both are vacant is `r` stored locally.
pub open spec fn resolves<T>(
    inherited: Map<Option<Seq<char>>, T>,
    local0: Map<Option<Seq<char>>, T>,
    k: Option<Seq<char>>,
    local1: Map<Option<Seq<char>>, T>,
    r: T,
) -> bool {
    if local0.contains_key(k) {
        local1 == local0 && r == local0[k]
    } else if inherited.contains_key(k) {
        local1 == local0 && r == inherited[k]
    } else {
        local1 == local0.insert(k, r)
    }
}

/// Round trip: after a value is inserted under a key, the context resolves
/// that key to the inserted value, whatever it held before and whatever the
/// root holds.
pub proof fn lemma_insert_then_get<T>(
    inherited: Map<Option<Seq<char>>, T>,
    local: Map<Option<Seq<char>>, T>,
    k: Option<Seq<char>>,
    v: T,
)
    ensures
        resolved_map(inherited, local.insert(k, v)).contains_key(k),
        resolved_map(inherited, local.insert(k, v))[k] == v,
{
}

/// Overwrite: a second insert under the same key displaces exactly the first
/// value, and the context then resolves the key to the second value.
pub proof fn lemma_insert_overwrites<T>(
    inherited: Map<Option<Seq<char>>, T>,
    local: Map<Option<Seq<char>>, T>,
    k: Option<Seq<char>>,
    v1: T,
    v2: T,
)
    ensures
        local.insert(k, v1).contains_key(k),
        local.insert(k, v1)[k] == v1,
        resolved_map(inherited, local.insert(k, v1).insert(k, v2)).contains_key(k),
        resolved_map(inherited, local.insert(k, v1).insert(k, v2))[k] == v2,
{
}

/// Identity sharing: two get-or-create resolutions of the same key against
/// the same context lineage converge on one value, whatever values their
/// factories would have produced; the second resolution also leaves the
/// local store untouched.
pub proof fn lemma_resolution_converges<T>(
    inherited: Map<Option<Seq<char>>, T>,
    local0: Map<Option<Seq<char>>, T>,
    k: Option<Seq<char>>,
    local1: Map<Option<Seq<char>>, T>,
    r1: T,
    local2: Map<Option<Seq<char>>, T>,
    r2: T,
)
    requires
        resolves(inherited, local0, k, local1, r1),
        resolves(inherited, local1, k, local2, r2),
    ensures
        r2 == r1,
        local2 == local1,
{
}

/// Inherited resolution: a get-or-create resolution of a key the local store
/// lacks but the root holds returns the root's value and stores nothing
/// locally, so no default is materialized and the root is untouched.
pub proof fn lemma_inherited_resolution<T>(
    inherited: Map<Option<Seq<char>>, T>,
    local0: Map<Option<Seq<char>>, T>,
    k: Option<Seq<char>>,
    local1: Map<Option<Seq<char>>, T>,
    r: T,
)
    requires
        !local0.contains_key(k),
        inherited.contains_key(k),
        resolves(inherited, local0, k, local1, r),
    ensures
        r == inherited[k],
        local1 == local0,
{
}

} // verus!
