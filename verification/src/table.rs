//! An insertion-ordered table from names to values.
//!
//! A `Table` holds its entries in the order in which their names first
//! arrived and never holds one name twice. Its view is the mapping from each
//! held name to the value stored under it; `names` gives the order.

use vstd::prelude::*;

verus! {

/// The order of names after `name` has been stored: unchanged where the name
/// was there already, else with the name added at the end.
pub open spec fn names_after(names: Seq<Seq<char>>, name: Seq<char>) -> Seq<Seq<char>> {
    if names.contains(name) {
        names
    } else {
        names.push(name)
    }
}

/// Storing a name that was just stored changes nothing in the order of names,
/// and the order never holds a name twice.
pub proof fn lemma_names_after_is_idempotent(names: Seq<Seq<char>>, name: Seq<char>)
    ensures
        names_after(names_after(names, name), name) == names_after(names, name),
        names.no_duplicates() ==> names_after(names, name).no_duplicates(),
{
    if !names.contains(name) {
        assert(names.push(name)[names.len() as int] == name);
    }
}

/// What a mapping holds under `name`, if anything.
pub open spec fn held<V>(table: Map<Seq<char>, V>, name: Seq<char>) -> Option<V> {
    if table.contains_key(name) {
        Some(table[name])
    } else {
        None
    }
}

/// A mapping from names to values that remembers the order of arrival.
#[derive(Debug, PartialEq, Eq)]
pub struct Table<V> {
    entries: Vec<(String, V)>,
}

impl<V> View for Table<V> {
    type V = Map<Seq<char>, V>;

    /// Each held name, mapped to the value stored under it.
    closed spec fn view(&self) -> Map<Seq<char>, V> {
        Map::new(
            |name: Seq<char>| self.names().contains(name),
            |name: Seq<char>| self.entries@[self.names().index_of(name)].1,
        )
    }
}

impl<V> Table<V> {
    /// No name is held twice.
    #[verifier::type_invariant]
    spec fn names_are_distinct(&self) -> bool {
        self.names().no_duplicates()
    }

    /// The names of the entries, in the order in which they are held.
    pub closed spec fn names(&self) -> Seq<Seq<char>> {
        Seq::new(self.entries@.len(), |i: int| self.entries@[i].0@)
    }

    /// A value is stored under exactly the names that `names` lists.
    pub proof fn lemma_names_are_the_domain(&self)
        ensures
            forall|name: Seq<char>| self@.contains_key(name) <==> self.names().contains(name),
    {
    }

    /// A table without entries.
    pub fn new() -> (table: Self)
        ensures
            table@ == Map::<Seq<char>, V>::empty(),
            table.names() == Seq::<Seq<char>>::empty(),
    {
        Table { entries: Vec::new() }
    }

    /// How many entries the table holds.
    pub fn len(&self) -> (count: usize)
        ensures
            count == self.names().len(),
            self.names().no_duplicates(),
    {
        proof {
            use_type_invariant(self);
        }
        self.entries.len()
    }

    /// The place of `name` among the entries, if it is held.
    fn position(&self, name: &String) -> (found: Option<usize>)
        ensures
            match found {
                Some(i) => i < self.entries@.len() && self.names()[i as int] == name@
                    && self@.contains_key(name@) && self@[name@] == self.entries@[i as int].1,
                None => !self.names().contains(name@) && !self@.contains_key(name@),
            },
    {
        proof {
            use_type_invariant(self);
        }
        let mut i: usize = 0;
        while i < self.entries.len()
            invariant
                i <= self.entries@.len(),
                self.names().no_duplicates(),
                forall|j: int| 0 <= j < i ==> self.names()[j] != name@,
            decreases self.entries@.len() - i,
        {
            if self.entries[i].0 == *name {
                assert(self.names()[i as int] == name@);
                return Some(i);
            }
            i += 1;
        }
        None
    }

    /// The entry held at place `i`, if there is one.
    pub fn entry(&self, i: usize) -> (found: Option<(&String, &V)>)
        ensures
            match found {
                Some((name, value)) => i < self.names().len() && name@ == self.names()[i as int]
                    && held(self@, name@) == Some(*value),
                None => i >= self.names().len(),
            },
    {
        if i < self.entries.len() {
            proof {
                use_type_invariant(self);
                assert(self.names()[i as int] == self.entries@[i as int].0@);
            }
            Some((&self.entries[i].0, &self.entries[i].1))
        } else {
            None
        }
    }

    /// Gives up the table for its entries, in the order in which they were held.
    pub fn into_entries(self) -> (entries: Vec<(String, V)>)
        ensures
            entries@.len() == self.names().len(),
            forall|i: int|
                0 <= i < entries@.len() ==> (#[trigger] entries@[i]).0@ == self.names()[i]
                    && held(self@, self.names()[i]) == Some(entries@[i].1),
            self.names().no_duplicates(),
    {
        proof {
            use_type_invariant(&self);
        }
        self.entries
    }

    /// The value stored under `name`, if there is one.
    pub fn get(&self, name: &str) -> (found: Option<&V>)
        ensures
            match found {
                Some(value) => held(self@, name@) == Some(*value),
                None => !self@.contains_key(name@),
            },
    {
        let key = name.to_owned();
        match self.position(&key) {
            Some(i) => Some(&self.entries[i].1),
            None => None,
        }
    }

    /// Whether an entry is held under `name`.
    pub fn contains(&self, name: &str) -> (found: bool)
        ensures
            found == self@.contains_key(name@),
    {
        let key = name.to_owned();
        self.position(&key).is_some()
    }

    /// Stores `value` under `name`. A name that is already held keeps its
    /// place and gets the new value; a new name goes to the end. Every other
    /// entry stays as it is. Returns the value that was stored under `name`
    /// before, if there was one.
    pub fn insert(&mut self, name: String, value: V) -> (previous: Option<V>)
        ensures
            final(self)@ == old(self)@.insert(name@, value),
            final(self).names() == names_after(old(self).names(), name@),
            final(self).names().no_duplicates(),
            previous == held(old(self)@, name@),
    {
        proof {
            use_type_invariant(&*self);
        }
        let found = self.position(&name);
        let ghost key = name@;
        let ghost old_names = self.names();
        let mut entries: Vec<(String, V)> = Vec::new();
        core::mem::swap(&mut self.entries, &mut entries);
        let previous = match found {
            Some(i) => {
                let mut entry = (name, value);
                core::mem::swap(&mut entries[i], &mut entry);
                Some(entry.1)
            },
            None => {
                entries.push((name, value));
                None
            },
        };
        let ghost place = if found is Some {
            found.unwrap() as int
        } else {
            old_names.len() as int
        };
        proof {
            let new_names = Seq::new(entries@.len(), |i: int| entries@[i].0@);
            assert(new_names =~= names_after(old_names, key));
        }
        core::mem::swap(&mut self.entries, &mut entries);
        proof {
            assert(self.names()[place] == key);
            assert forall|other: Seq<char>| other != key implies held(self@, other) == held(
                old(self)@,
                other,
            ) by {
                if old_names.contains(other) {
                    let j = old_names.index_of(other);
                    assert(self.names()[j] == other);
                }
            }
            assert forall|other: Seq<char>| self@.contains_key(other) <==> old(
                self,
            )@.contains_key(other) || other == key by {
                if other != key {
                    assert(held(self@, other) == held(old(self)@, other));
                }
            }
        }
        previous
    }
}

impl<V: View> Table<V> {
    /// The mapping from each held name to the view of its value.
    pub open spec fn model(&self) -> Map<Seq<char>, V::V> {
        self@.map_values(|value: V| value@)
    }
}

} // verus!
