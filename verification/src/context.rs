//! Contexts: a root context owning one store, and a derived context layering
//! a locally writable store over a borrowed root. Reads on a derived context
//! fall back to the root when the local store lacks the key; writes never
//! touch the root.

use vstd::prelude::*;

use crate::entry::Entry;
use crate::store::Store;
use crate::{Builder, NamedBuilder};

verus! {

/// The effective contents of a context: what it inherits from a root, with
/// its local store laid over it.
pub open spec fn resolved_map<T>(
    inherited: Map<Option<Seq<char>>, T>,
    local: Map<Option<Seq<char>>, T>,
) -> Map<Option<Seq<char>>, T> {
    inherited.union_prefer_right(local)
}

/// A shared context to generate values from.
///
/// A context resolves each key first against the store it writes to (its
/// local map) and then against what it inherits from a root context; a root
/// context simply inherits nothing.
pub trait Context<T>: Sized {
    /// The contents of the store this context writes to.
    spec fn local_map(&self) -> Map<Option<Seq<char>>, T>;

    /// The contents this context inherits from a borrowed root context.
    spec fn inherited_map(&self) -> Map<Option<Seq<char>>, T>;

    /// Get an entry in the context for the unnamed slot.
    fn entry(&mut self) -> (e: Entry<'_, T>)
        ensures
            e.name == None::<&'static str>,
            (*e.store)@ == old(self).local_map(),
            final(self).local_map() == (*final(e.store))@,
            final(self).inherited_map() == old(self).inherited_map(),
            match e.main {
                Some(m) => old(self).inherited_map().contains_key(None::<Seq<char>>) && *m == old(
                    self,
                ).inherited_map()[None::<Seq<char>>],
                None => !old(self).inherited_map().contains_key(None::<Seq<char>>),
            },
    ;

    /// Get an entry in the context for the slot named `name`.
    fn entry_named(&mut self, name: &'static str) -> (e: Entry<'_, T>)
        ensures
            e.name == Some(name),
            e.key() == Some(name@),
            (*e.store)@ == old(self).local_map(),
            final(self).local_map() == (*final(e.store))@,
            final(self).inherited_map() == old(self).inherited_map(),
            match e.main {
                Some(m) => old(self).inherited_map().contains_key(Some(name@)) && *m == old(
                    self,
                ).inherited_map()[Some(name@)],
                None => !old(self).inherited_map().contains_key(Some(name@)),
            },
    ;

    /// Get the value in the unnamed slot, if the context resolves one.
    fn get(&self) -> (r: Option<&T>)
        ensures
            match r {
                Some(v) => resolved_map(self.inherited_map(), self.local_map()).contains_key(
                    None::<Seq<char>>,
                ) && *v == resolved_map(self.inherited_map(), self.local_map())[None::<Seq<char>>],
                None => !resolved_map(self.inherited_map(), self.local_map()).contains_key(
                    None::<Seq<char>>,
                ),
            },
    ;

    /// Get the value in the slot named `name`, if the context resolves one.
    fn get_named(&self, name: &'static str) -> (r: Option<&T>)
        ensures
            match r {
                Some(v) => resolved_map(self.inherited_map(), self.local_map()).contains_key(
                    Some(name@),
                ) && *v == resolved_map(self.inherited_map(), self.local_map())[Some(name@)],
                None => !resolved_map(self.inherited_map(), self.local_map()).contains_key(
                    Some(name@),
                ),
            },
    ;

    /// Put `val` in the unnamed slot of the local store, returning the value
    /// that store held under the same key, if any.
    fn insert(&mut self, val: T) -> (r: Option<T>)
        ensures
            final(self).local_map() == old(self).local_map().insert(None::<Seq<char>>, val),
            final(self).inherited_map() == old(self).inherited_map(),
            match r {
                Some(v) => old(self).local_map().contains_key(None::<Seq<char>>) && v == old(
                    self,
                ).local_map()[None::<Seq<char>>],
                None => !old(self).local_map().contains_key(None::<Seq<char>>),
            },
    ;

    /// Put `val` in the slot named `name` of the local store, returning the
    /// value that store held under the same key, if any.
    fn insert_named(&mut self, name: &'static str, val: T) -> (r: Option<T>)
        ensures
            final(self).local_map() == old(self).local_map().insert(Some(name@), val),
            final(self).inherited_map() == old(self).inherited_map(),
            match r {
                Some(v) => old(self).local_map().contains_key(Some(name@)) && v == old(
                    self,
                ).local_map()[Some(name@)],
                None => !old(self).local_map().contains_key(Some(name@)),
            },
    ;

    /// Add a value to the unnamed slot while constructing the context.
    fn with(self, val: T) -> (r: Self)
        ensures
            r.local_map() == self.local_map().insert(None::<Seq<char>>, val),
            r.inherited_map() == self.inherited_map(),
    {
        let mut this = self;
        this.insert(val);
        this
    }

    /// Add a value to the slot named `name` while constructing the context.
    fn with_named(self, name: &'static str, val: T) -> (r: Self)
        ensures
            r.local_map() == self.local_map().insert(Some(name@), val),
            r.inherited_map() == self.inherited_map(),
    {
        let mut this = self;
        this.insert_named(name, val);
        this
    }

}

/// A root context: it owns one store and inherits nothing.
pub struct MainContext<T> {
    map: Store<T>,
}

impl<T> MainContext<T> {
    /// Create a new empty root context.
    pub fn new() -> (c: Self)
        ensures
            c.local_map() == Map::<Option<Seq<char>>, T>::empty(),
    {
        MainContext { map: Store::new() }
    }

    /// Create a derived context layered over this one.
    pub fn sub(&self) -> (s: SubContext<'_, T>)
        ensures
            s.local_map() == Map::<Option<Seq<char>>, T>::empty(),
            s.inherited_map() == self.local_map(),
    {
        SubContext { ctx: self, map: Store::new() }
    }

    /// Build a new value with this context.
    pub fn build<B: Builder<T>>(&mut self) -> B {
        B::build(self)
    }

    /// Build a new named value with this context.
    pub fn build_named<B: NamedBuilder<T>>(&mut self, name: &'static str) -> B {
        B::build_with_name(self, name)
    }
}

impl<T> Default for MainContext<T> {
    /// Create a new empty root context.
    fn default() -> (c: Self)
        ensures
            c.local_map() == Map::<Option<Seq<char>>, T>::empty(),
    {
        MainContext { map: Store::new() }
    }
}

impl<T> Context<T> for MainContext<T> {
    closed spec fn local_map(&self) -> Map<Option<Seq<char>>, T> {
        self.map@
    }

    open spec fn inherited_map(&self) -> Map<Option<Seq<char>>, T> {
        Map::empty()
    }

    fn entry(&mut self) -> (e: Entry<'_, T>) {
        Entry::new(Option::None, &mut self.map, Option::None)
    }

    fn entry_named(&mut self, name: &'static str) -> (e: Entry<'_, T>) {
        Entry::new(Option::None, &mut self.map, Option::Some(name))
    }

    fn get(&self) -> (r: Option<&T>) {
        self.map.get(Option::None)
    }

    fn get_named(&self, name: &'static str) -> (r: Option<&T>) {
        self.map.get(Option::Some(name))
    }

    fn insert(&mut self, val: T) -> (r: Option<T>) {
        self.map.insert(Option::None, val)
    }

    fn insert_named(&mut self, name: &'static str, val: T) -> (r: Option<T>) {
        self.map.insert(Option::Some(name), val)
    }
}

/// A derived context: a locally writable store over a borrowed root context.
pub struct SubContext<'c, T> {
    ctx: &'c MainContext<T>,
    map: Store<T>,
}

impl<'c, T> Context<T> for SubContext<'c, T> {
    closed spec fn local_map(&self) -> Map<Option<Seq<char>>, T> {
        self.map@
    }

    closed spec fn inherited_map(&self) -> Map<Option<Seq<char>>, T> {
        self.ctx.map@
    }

    fn entry(&mut self) -> (e: Entry<'_, T>) {
        let main = self.ctx.map.get(Option::None);
        Entry::new(main, &mut self.map, Option::None)
    }

    fn entry_named(&mut self, name: &'static str) -> (e: Entry<'_, T>) {
        let main = self.ctx.map.get(Option::Some(name));
        Entry::new(main, &mut self.map, Option::Some(name))
    }

    fn get(&self) -> (r: Option<&T>) {
        match self.map.get(Option::None) {
            Option::Some(v) => Option::Some(v),
            Option::None => self.ctx.map.get(Option::None),
        }
    }

    fn get_named(&self, name: &'static str) -> (r: Option<&T>) {
        match self.map.get(Option::Some(name)) {
            Option::Some(v) => Option::Some(v),
            Option::None => self.ctx.map.get(Option::Some(name)),
        }
    }

    fn insert(&mut self, val: T) -> (r: Option<T>) {
        self.map.insert(Option::None, val)
    }

    fn insert_named(&mut self, name: &'static str, val: T) -> (r: Option<T>) {
        self.map.insert(Option::Some(name), val)
    }
}

impl<'c, T> SubContext<'c, T> {
    /// Build a new value with this context.
    pub fn build<B: Builder<T>>(&mut self) -> B {
        B::build(self)
    }

    /// Build a new named value with this context.
    pub fn build_named<B: NamedBuilder<T>>(&mut self, name: &'static str) -> B {
        B::build_with_name(self, name)
    }
}

} // verus!
