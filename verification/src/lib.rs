//! Build values from a shared, name-keyed context.
//!
//! A [`MainContext`] owns a store of values keyed by an optional static name;
//! a [`SubContext`] layers a locally writable store over a borrowed root
//! context, so that reads fall back to the root while writes stay local. The
//! [`Entry`] cursor gives get-or-create access to one slot, and the
//! [`Builder`] and [`NamedBuilder`] traits let value types describe how to
//! construct themselves from a context.

use vstd::prelude::*;

pub mod context;
pub mod entry;
pub mod impls;
pub mod laws;
pub mod prelude;
pub mod store;

pub use context::{Context, MainContext, SubContext};
pub use entry::Entry;
pub use store::Store;

verus! {

/// Trait to build a value based on a shared context.
pub trait Builder<T>: Sized {
    /// Build a new value based on the context.
    fn build<C: Context<T>>(ctx: &mut C) -> Self;
}

/// Trait to build a value based on a shared context and a static name.
pub trait NamedBuilder<T>: Sized {
    /// Build a new value based on a static name and the context.
    fn build_with_name<C: Context<T>>(ctx: &mut C, name: &'static str) -> Self;
}

/// Create a new root context.
pub fn ctx<T>() -> (c: MainContext<T>)
    ensures
        c.local_map() == Map::<Option<Seq<char>>, T>::empty(),
{
    MainContext::new()
}

} // verus!
