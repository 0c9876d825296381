//! A transient cursor over one slot of a context.
//!
//! An [`Entry`] is bound to exactly one key in exactly one local store, plus,
//! for a derived context, an optional read-only borrow of the same key's
//! value in the root. The vacant insert path only ever writes to the local
//! store; the read path prefers the local value and falls back to the
//! inherited one.

use vstd::prelude::*;

use crate::store::{name_view, Store};

verus! {

/// View into a single slot of a context.
///
/// `main` is the value the root context holds under the same key, if the
/// entry belongs to a derived context and the root has one; `store` is the
/// local store the entry may insert into; `name` is the name component of the
/// slot's key.
pub struct Entry<'c, T> {
    /// The root context's value under this entry's key, if any.
    pub main: Option<&'c T>,
    /// The local store this entry is a cursor into.
    pub store: &'c mut Store<T>,
    /// The name component of this entry's key.
    pub name: Option<&'static str>,
}

impl<'c, T> Entry<'c, T> {
    /// The key this entry is bound to.
    pub open spec fn key(self) -> Option<Seq<char>> {
        name_view(self.name)
    }

    /// Create an entry over `store`'s slot for `name`, with `main` the value
    /// the root context inherits into that slot.
    pub(crate) fn new(
        main: Option<&'c T>,
        store: &'c mut Store<T>,
        name: Option<&'static str>,
    ) -> (e: Self)
        ensures
            e.main == main,
            e.name == name,
            *e.store == *old(store),
            *final(store) == *final(e.store),
    {
        Entry { main, store, name }
    }
}

impl<'c, T> Entry<'c, T> {
    /// Ensure a value is in the entry by inserting `default` if both the
    /// local slot and the inherited slot are empty, and return a reference to
    /// the value the entry resolves to.
    pub fn or_insert(self, default: T) -> (r: &'c T)
        ensures
            (*old(self.store))@.contains_key(self.key()) ==> {
                &&& *final(self.store) == *old(self.store)
                &&& *r == (*old(self.store))@[self.key()]
            },
            !(*old(self.store))@.contains_key(self.key()) ==> (self.main matches Some(m) ==> {
                &&& *final(self.store) == *old(self.store)
                &&& *r == *m
            }),
            !(*old(self.store))@.contains_key(self.key()) && self.main is None ==> {
                &&& (*final(self.store))@ == (*old(self.store))@.insert(self.key(), default)
                &&& *r == default
            },
    {
        let Entry { main, store, name } = self;
        if store.contains(name) {
            store.get(name).unwrap()
        } else if let Option::Some(m) = main {
            m
        } else {
            store.insert_and_borrow(name, default)
        }
    }

    /// Ensure a value is in the entry by inserting the result of `default`
    /// if both the local slot and the inherited slot are empty, and return a
    /// reference to the value the entry resolves to. The factory is only
    /// demanded to be callable on that empty path, so it is never run when
    /// the entry already resolves to a value.
    pub fn or_insert_with<F: FnOnce() -> T>(self, default: F) -> (r: &'c T)
        requires
            !(*old(self.store))@.contains_key(self.key()) && self.main is None ==> call_requires(
                default,
                (),
            ),
        ensures
            (*old(self.store))@.contains_key(self.key()) ==> {
                &&& *final(self.store) == *old(self.store)
                &&& *r == (*old(self.store))@[self.key()]
            },
            !(*old(self.store))@.contains_key(self.key()) ==> (self.main matches Some(m) ==> {
                &&& *final(self.store) == *old(self.store)
                &&& *r == *m
            }),
            !(*old(self.store))@.contains_key(self.key()) && self.main is None ==> {
                &&& (*final(self.store))@ == (*old(self.store))@.insert(self.key(), *r)
                &&& call_ensures(default, (), *r)
            },
    {
        let Entry { main, store, name } = self;
        if store.contains(name) {
            store.get(name).unwrap()
        } else if let Option::Some(m) = main {
            m
        } else {
            let value = default();
            store.insert_and_borrow(name, value)
        }
    }

    /// Apply `f` to the value in the local slot if it is occupied, and return
    /// an entry over the possibly modified slot. On a vacant slot this is a
    /// no-op; either way the returned entry no longer carries an inherited
    /// value, so a mutation request always resolves through the local store.
    pub fn and_modify<F: FnOnce(T) -> T>(self, f: F) -> (e: Self)
        requires
            (*old(self.store))@.contains_key(self.key()) ==> call_requires(
                f,
                ((*old(self.store))@[self.key()],),
            ),
        ensures
            e.name == self.name,
            e.main is None,
            *final(self.store) == *final(e.store),
            (*old(self.store))@.contains_key(self.key()) ==> {
                &&& (*e.store)@ == (*old(self.store))@.insert(self.key(), (*e.store)@[self.key()])
                &&& (*e.store)@.contains_key(self.key())
                &&& call_ensures(f, ((*old(self.store))@[self.key()],), (*e.store)@[self.key()])
            },
            !(*old(self.store))@.contains_key(self.key()) ==> *e.store == *old(self.store),
    {
        let Entry { main: _, store, name } = self;
        store.update_with(name, f);
        Entry { main: Option::None, store, name }
    }
}

impl<'c, T: Default> Entry<'c, T> {
    /// Ensure a value is in the entry by inserting a default-constructed
    /// value if both the local slot and the inherited slot are empty, and
    /// return a reference to the value the entry resolves to.
    pub fn or_default(self) -> (r: &'c T)
        ensures
            (*old(self.store))@.contains_key(self.key()) ==> {
                &&& *final(self.store) == *old(self.store)
                &&& *r == (*old(self.store))@[self.key()]
            },
            !(*old(self.store))@.contains_key(self.key()) ==> (self.main matches Some(m) ==> {
                &&& *final(self.store) == *old(self.store)
                &&& *r == *m
            }),
            !(*old(self.store))@.contains_key(self.key()) && self.main is None ==> {
                &&& (*final(self.store))@ == (*old(self.store))@.insert(self.key(), *r)
                &&& call_ensures(T::default, (), *r)
            },
    {
        let Entry { main, store, name } = self;
        if let Option::Some(m) = main {
            if !store.contains(name) {
                return m;
            }
        }
        if store.contains(name) {
            store.get(name).unwrap()
        } else {
            let value = T::default();
            store.insert_and_borrow(name, value)
        }
    }
}

} // verus!
