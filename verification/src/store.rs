//! The slot store: a mapping from optional static names to owned values of a
//! single type, with unique keys. A context owns one store per value type; the
//! name component of a slot key lives here, while the type component of the
//! key is the store's type parameter itself.

use vstd::prelude::*;

verus! {

use vstd::pervasive::VecAdditionalExecFns;

/// Spec-level key of an optional slot name: the character sequence of the
/// name, or `None` for the unnamed slot.
pub open spec fn name_view(n: Option<&str>) -> Option<Seq<char>> {
    match n {
        Option::Some(s) => Option::Some(s@),
        Option::None => Option::None,
    }
}

/// Relies on `<str as PartialEq>::eq`: string slices compare equal exactly
/// when they consist of the same characters.
#[verifier::external_body]
fn str_equal(a: &str, b: &str) -> (r: bool)
    ensures
        r == (a@ == b@),
{
    a == b
}

/// Compare two optional names as slot keys.
fn name_equal(a: Option<&str>, b: Option<&str>) -> (r: bool)
    ensures
        r == (name_view(a) == name_view(b)),
{
    match (a, b) {
        (Option::Some(x), Option::Some(y)) => str_equal(x, y),
        (Option::None, Option::None) => true,
        _ => false,
    }
}

/// One stored value together with the name it is keyed under.
struct Slot<T> {
    name: Option<&'static str>,
    value: T,
}

/// The mathematical contents of a sequence of slots: later slots shadow
/// earlier ones with the same key (a well-formed store has no such pair).
spec fn slots_map<T>(s: Seq<Slot<T>>) -> Map<Option<Seq<char>>, T>
    decreases s.len(),
{
    if s.len() == 0 {
        Map::empty()
    } else {
        slots_map(s.drop_last()).insert(name_view(s.last().name), s.last().value)
    }
}

/// A store of values of one type, keyed by optional static names.
/// Its abstract value is a finite map from keys to stored values.
pub struct Store<T> {
    slots: Vec<Slot<T>>,
}

impl<T> View for Store<T> {
    type V = Map<Option<Seq<char>>, T>;

    closed spec fn view(&self) -> Map<Option<Seq<char>>, T> {
        slots_map(self.slots@)
    }
}

/// Every slot of a well-formed sequence is reflected in its map.
proof fn lemma_slots_map_at<T>(s: Seq<Slot<T>>, i: int)
    requires
        0 <= i < s.len(),
        forall|p: int, q: int|
            0 <= p < q < s.len() ==> name_view(s[p].name) != name_view(s[q].name),
    ensures
        slots_map(s).contains_key(name_view(s[i].name)),
        slots_map(s)[name_view(s[i].name)] == s[i].value,
    decreases s.len(),
{
    if i < s.len() - 1 {
        lemma_slots_map_at(s.drop_last(), i);
        assert(name_view(s[i].name) != name_view(s.last().name));
    }
}

/// Every key of the map of a sequence of slots comes from one of its slots.
proof fn lemma_slots_map_dom<T>(s: Seq<Slot<T>>, k: Option<Seq<char>>)
    requires
        slots_map(s).contains_key(k),
    ensures
        exists|i: int| 0 <= i < s.len() && #[trigger] name_view(s[i].name) == k,
    decreases s.len(),
{
    if s.len() > 0 {
        if name_view(s.last().name) == k {
            assert(name_view(s[s.len() - 1].name) == k);
        } else {
            lemma_slots_map_dom(s.drop_last(), k);
            let j = choose|j: int|
                0 <= j < s.drop_last().len() && #[trigger] name_view(s.drop_last()[j].name) == k;
            assert(name_view(s[j].name) == k);
        }
    }
}

/// Replacing the slot at an index with one under the same key updates the map
/// at that key alone.
proof fn lemma_slots_map_update<T>(s: Seq<Slot<T>>, i: int, slot: Slot<T>)
    requires
        0 <= i < s.len(),
        name_view(slot.name) == name_view(s[i].name),
        forall|p: int, q: int|
            0 <= p < q < s.len() ==> name_view(s[p].name) != name_view(s[q].name),
    ensures
        slots_map(s.update(i, slot)) == slots_map(s).insert(name_view(slot.name), slot.value),
    decreases s.len(),
{
    let t = s.update(i, slot);
    if i == s.len() - 1 {
        assert(t.drop_last() =~= s.drop_last());
        assert(slots_map(t) =~~= slots_map(s).insert(name_view(slot.name), slot.value));
    } else {
        assert(t.drop_last() =~= s.drop_last().update(i, slot));
        lemma_slots_map_update(s.drop_last(), i, slot);
        assert(name_view(slot.name) != name_view(s.last().name));
        assert(slots_map(t) =~~= slots_map(s).insert(name_view(slot.name), slot.value));
    }
}

impl<T> Store<T> {
    /// A store is well formed when no two slots share a key.
    #[verifier::type_invariant]
    spec fn wf(self) -> bool {
        forall|p: int, q: int|
            0 <= p < q < self.slots@.len() ==> name_view(self.slots@[p].name) != name_view(
                self.slots@[q].name,
            )
    }

    /// Create an empty store.
    pub fn new() -> (s: Self)
        ensures
            s@ == Map::<Option<Seq<char>>, T>::empty(),
    {
        Store { slots: Vec::new() }
    }

    /// Find the index of the slot keyed by `name`, if one exists.
    fn find(&self, name: Option<&'static str>) -> (r: Option<usize>)
        ensures
            match r {
                Option::Some(i) => i < self.slots@.len() && name_view(self.slots@[i as int].name)
                    == name_view(name),
                Option::None => forall|i: int|
                    0 <= i < self.slots@.len() ==> name_view(self.slots@[i].name) != name_view(
                        name,
                    ),
            },
    {
        let mut i: usize = 0;
        while i < self.slots.len()
            invariant
                i <= self.slots@.len(),
                forall|j: int|
                    0 <= j < i ==> name_view(self.slots@[j].name) != name_view(name),
            decreases self.slots@.len() - i,
        {
            if name_equal(self.slots[i].name, name) {
                return Option::Some(i);
            }
            i = i + 1;
        }
        Option::None
    }

    /// Does the store hold a value under `name`?
    pub fn contains(&self, name: Option<&'static str>) -> (r: bool)
        ensures
            r == self@.contains_key(name_view(name)),
    {
        proof {
            use_type_invariant(self);
        }
        match self.find(name) {
            Option::Some(i) => {
                proof {
                    lemma_slots_map_at(self.slots@, i as int);
                }
                true
            },
            Option::None => {
                proof {
                    if self@.contains_key(name_view(name)) {
                        lemma_slots_map_dom(self.slots@, name_view(name));
                    }
                }
                false
            },
        }
    }

    /// Borrow the value stored under `name`, if one exists.
    pub fn get(&self, name: Option<&'static str>) -> (r: Option<&T>)
        ensures
            match r {
                Option::Some(v) => self@.contains_key(name_view(name)) && *v == self@[name_view(
                    name,
                )],
                Option::None => !self@.contains_key(name_view(name)),
            },
    {
        proof {
            use_type_invariant(self);
        }
        match self.find(name) {
            Option::Some(i) => {
                proof {
                    lemma_slots_map_at(self.slots@, i as int);
                }
                Option::Some(&self.slots[i].value)
            },
            Option::None => {
                proof {
                    if self@.contains_key(name_view(name)) {
                        lemma_slots_map_dom(self.slots@, name_view(name));
                    }
                }
                Option::None
            },
        }
    }

    /// Store `value` under `name`, returning the value it displaced, if any.
    pub fn insert(&mut self, name: Option<&'static str>, value: T) -> (r: Option<T>)
        ensures
            final(self)@ == old(self)@.insert(name_view(name), value),
            match r {
                Option::Some(v) => old(self)@.contains_key(name_view(name)) && v == old(
                    self,
                )@[name_view(name)],
                Option::None => !old(self)@.contains_key(name_view(name)),
            },
    {
        proof {
            use_type_invariant(&*self);
        }
        let found = self.find(name);
        let mut slots: Vec<Slot<T>> = Vec::new();
        std::mem::swap(&mut slots, &mut self.slots);
        let ghost s0 = slots@;
        let r = match found {
            Option::Some(i) => {
                let mut slot = Slot { name, value };
                slots.set_and_swap(i, &mut slot);
                proof {
                    lemma_slots_map_at(s0, i as int);
                    lemma_slots_map_update(s0, i as int, slots@[i as int]);
                }
                Option::Some(slot.value)
            },
            Option::None => {
                slots.push(Slot { name, value });
                proof {
                    assert(slots@.drop_last() =~= s0);
                    if slots_map(s0).contains_key(name_view(name)) {
                        lemma_slots_map_dom(s0, name_view(name));
                    }
                }
                Option::None
            },
        };
        std::mem::swap(&mut slots, &mut self.slots);
        r
    }

    /// If the store holds a value under `name`, replace it by the result of
    /// applying `f` to it; otherwise leave the store unchanged. `f` is only
    /// demanded to be callable on the value actually stored.
    pub fn update_with<F: FnOnce(T) -> T>(&mut self, name: Option<&'static str>, f: F)
        requires
            old(self)@.contains_key(name_view(name)) ==> call_requires(
                f,
                (old(self)@[name_view(name)],),
            ),
        ensures
            old(self)@.contains_key(name_view(name)) ==> {
                &&& final(self)@ == old(self)@.insert(name_view(name), final(self)@[name_view(name)])
                &&& final(self)@.contains_key(name_view(name))
                &&& call_ensures(f, (old(self)@[name_view(name)],), final(self)@[name_view(name)])
            },
            !old(self)@.contains_key(name_view(name)) ==> *final(self) == *old(self),
    {
        proof {
            use_type_invariant(&*self);
        }
        let found = self.find(name);
        match found {
            Option::Some(i) => {
                let mut slots: Vec<Slot<T>> = Vec::new();
                std::mem::swap(&mut slots, &mut self.slots);
                let ghost s0 = slots@;
                proof {
                    lemma_slots_map_at(s0, i as int);
                }
                let removed = slots.remove(i);
                let Slot { name: slot_name, value } = removed;
                let new_value = f(value);
                slots.insert(i, Slot { name: slot_name, value: new_value });
                proof {
                    assert(slots@ =~= s0.update(i as int, slots@[i as int]));
                    lemma_slots_map_update(s0, i as int, slots@[i as int]);
                }
                std::mem::swap(&mut slots, &mut self.slots);
                proof {
                    use_type_invariant(&*self);
                    lemma_slots_map_at(self.slots@, i as int);
                }
            },
            Option::None => {
                proof {
                    if self@.contains_key(name_view(name)) {
                        lemma_slots_map_dom(self.slots@, name_view(name));
                    }
                }
            },
        }
    }

    /// Store `value` under `name` and borrow the freshly stored value.
    pub fn insert_and_borrow(&mut self, name: Option<&'static str>, value: T) -> (r: &T)
        ensures
            final(self)@ == old(self)@.insert(name_view(name), value),
            *r == value,
    {
        proof {
            use_type_invariant(&*self);
        }
        let found = self.find(name);
        let mut slots: Vec<Slot<T>> = Vec::new();
        std::mem::swap(&mut slots, &mut self.slots);
        let ghost s0 = slots@;
        let i = match found {
            Option::Some(i) => {
                let mut slot = Slot { name, value };
                slots.set_and_swap(i, &mut slot);
                proof {
                    lemma_slots_map_at(s0, i as int);
                    lemma_slots_map_update(s0, i as int, slots@[i as int]);
                }
                i
            },
            Option::None => {
                slots.push(Slot { name, value });
                proof {
                    assert(slots@.drop_last() =~= s0);
                }
                slots.len() - 1
            },
        };
        std::mem::swap(&mut slots, &mut self.slots);
        proof {
            use_type_invariant(&*self);
            lemma_slots_map_at(self.slots@, i as int);
        }
        &self.slots[i].value
    }
}

} // verus!
