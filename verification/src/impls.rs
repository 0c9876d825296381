//! Builder implementations for the random-identifier type: a context slot
//! holding an identifier is populated on first request and then shared by
//! every later request against the same context lineage.

use vstd::prelude::*;

use crate::context::{resolved_map, Context};
use crate::{Builder, NamedBuilder};

verus! {

#[verifier::external_type_specification]
#[verifier::external_body]
pub struct ExUuid(uuid::Uuid);

/// Relies on `uuid::Uuid::new_v4`: a freshly generated random identifier;
/// nothing is promised of its value.
#[verifier::external_body]
fn fresh_uuid() -> (r: uuid::Uuid) {
    uuid::Uuid::new_v4()
}

impl Builder<uuid::Uuid> for uuid::Uuid {
    /// Resolve the unnamed identifier slot of the context: the identifier
    /// the context already resolves is returned unchanged, and a fresh
    /// random one is generated and stored locally only if neither the local
    /// store nor the root holds one.
    fn build<C: Context<uuid::Uuid>>(ctx: &mut C) -> (r: Self)
        ensures
            resolved_map(final(ctx).inherited_map(), final(ctx).local_map()).contains_key(
                None::<Seq<char>>,
            ),
            r == resolved_map(final(ctx).inherited_map(), final(ctx).local_map())[None::<
                Seq<char>,
            >],
            final(ctx).inherited_map() == old(ctx).inherited_map(),
            resolved_map(old(ctx).inherited_map(), old(ctx).local_map()).contains_key(
                None::<Seq<char>>,
            ) ==> {
                &&& r == resolved_map(old(ctx).inherited_map(), old(ctx).local_map())[None::<
                    Seq<char>,
                >]
                &&& final(ctx).local_map() == old(ctx).local_map()
            },
    {
        *ctx.entry().or_insert_with(|| fresh_uuid())
    }
}

impl NamedBuilder<uuid::Uuid> for uuid::Uuid {
    /// Resolve the identifier slot named `name` of the context, in the same
    /// way the unnamed slot is resolved.
    fn build_with_name<C: Context<uuid::Uuid>>(ctx: &mut C, name: &'static str) -> (r: Self)
        ensures
            resolved_map(final(ctx).inherited_map(), final(ctx).local_map()).contains_key(
                Some(name@),
            ),
            r == resolved_map(final(ctx).inherited_map(), final(ctx).local_map())[Some(name@)],
            final(ctx).inherited_map() == old(ctx).inherited_map(),
            resolved_map(old(ctx).inherited_map(), old(ctx).local_map()).contains_key(
                Some(name@),
            ) ==> {
                &&& r == resolved_map(old(ctx).inherited_map(), old(ctx).local_map())[Some(name@)]
                &&& final(ctx).local_map() == old(ctx).local_map()
            },
    {
        *ctx.entry_named(name).or_insert_with(|| fresh_uuid())
    }
}

} // verus!
