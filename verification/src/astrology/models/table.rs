//! A table from bodies to values that keeps the order of insertion.
//!
//! A chart holds one value for each body that has been entered into it, and
//! midpoints are taken between the bodies in the order in which they were
//! entered. The table is a list of entries in which no body occurs twice.

use vstd::prelude::*;
use crate::astrology::models::planet::Planet;

verus! {

/// A table with at most one entry for each body, in the order of insertion.
#[derive(Debug)]
pub struct PlanetTable<V> {
    entries: Vec<(Planet, V)>,
}

/// Whether no body occurs twice in a list of entries.
pub open spec fn distinct_planets<V>(entries: Seq<(Planet, V)>) -> bool {
    forall|i: int, j: int|
        0 <= i < j < entries.len() ==> (#[trigger] entries[i]).0 != (#[trigger] entries[j]).0
}

/// Whether the entry at the place `at` belongs to `planet`.
pub open spec fn is_entry_of<V>(entries: Seq<(Planet, V)>, planet: Planet, at: int) -> bool {
    0 <= at < entries.len() && entries[at].0 == planet
}

/// The place of the entry of a body, if it has one.
pub open spec fn place_of<V>(entries: Seq<(Planet, V)>, planet: Planet) -> Option<int> {
    if exists|at: int| is_entry_of(entries, planet, at) {
        Some(choose|at: int| is_entry_of(entries, planet, at))
    } else {
        None
    }
}

/// The value entered for a body, if there is one.
pub open spec fn value_of<V>(entries: Seq<(Planet, V)>, planet: Planet) -> Option<V> {
    match place_of(entries, planet) {
        Some(at) => Some(entries[at].1),
        None => None,
    }
}

/// The entries after a value has been entered for a body: the entry of the
/// body is replaced where it stands, or a new entry is added at the end.
pub open spec fn with_entry<V>(entries: Seq<(Planet, V)>, planet: Planet, value: V) -> Seq<
    (Planet, V),
> {
    match place_of(entries, planet) {
        Some(at) => entries.update(at, (planet, value)),
        None => entries.push((planet, value)),
    }
}

/// The entries after the entry of a body has been taken out; the others keep
/// their order.
pub open spec fn without_entry<V>(entries: Seq<(Planet, V)>, planet: Planet) -> Seq<(Planet, V)> {
    match place_of(entries, planet) {
        Some(at) => entries.remove(at),
        None => entries,
    }
}

impl<V> View for PlanetTable<V> {
    type V = Seq<(Planet, V)>;

    /// The entries in the order of insertion.
    closed spec fn view(&self) -> Seq<(Planet, V)> {
        self.entries@
    }
}

impl<V> PlanetTable<V> {
    /// The invariant of the type: no body occurs twice.
    #[verifier::type_invariant]
    pub closed spec fn wf(self) -> bool {
        distinct_planets(self.entries@)
    }
}

impl<V: Copy> Clone for PlanetTable<V> {
    /// A table with the same entries in the same order.
    fn clone(&self) -> (r: PlanetTable<V>)
        ensures
            r.wf(),
            r@ == self@,
    {
        proof {
            use_type_invariant(self);
        }
        PlanetTable { entries: self.copy_entries() }
    }
}

impl<V: Copy> PlanetTable<V> {
    /// An empty table.
    pub fn new() -> (r: PlanetTable<V>)
        ensures
            r.wf(),
            r@.len() == 0,
    {
        PlanetTable { entries: Vec::new() }
    }

    /// The number of entries.
    pub fn len(&self) -> (r: usize)
        ensures
            r == self@.len(),
    {
        self.entries.len()
    }

    /// Whether the table has no entry.
    pub fn is_empty(&self) -> (r: bool)
        ensures
            r == (self@.len() == 0),
    {
        self.entries.len() == 0
    }

    /// The entry at a place of the insertion order.
    pub fn entry(&self, at: usize) -> (r: &(Planet, V))
        requires
            at < self@.len(),
        ensures
            *r == self@[at as int],
    {
        &self.entries[at]
    }

    /// The place of the entry of a body, if it has one.
    pub fn find(&self, planet: &Planet) -> (r: Option<usize>)
        ensures
            r matches Some(at) ==> place_of(self@, *planet) == Some(at as int) && is_entry_of(
                self@,
                *planet,
                at as int,
            ),
            r is None ==> place_of(self@, *planet) is None,
    {
        proof {
            use_type_invariant(self);
        }
        let mut i: usize = 0;
        while i < self.entries.len()
            invariant
                i <= self.entries@.len(),
                distinct_planets(self.entries@),
                forall|k: int| 0 <= k < i ==> !is_entry_of(self.entries@, *planet, k),
            decreases self.entries@.len() - i,
        {
            if self.entries[i].0 == *planet {
                proof {
                    lemma_place_known(self.entries@, *planet, i as int);
                }
                return Some(i);
            }
            i = i + 1;
        }
        None
    }

    /// The value entered for a body, if there is one.
    pub fn get(&self, planet: &Planet) -> (r: Option<&V>)
        ensures
            r matches Some(value) ==> value_of(self@, *planet) == Some(*value),
            r is None ==> value_of(self@, *planet) is None,
    {
        match self.find(planet) {
            Some(at) => Some(&self.entries[at].1),
            None => None,
        }
    }

    /// Enters a value for a body. A value entered before is replaced where it
    /// stands and handed back; a new body goes to the end.
    pub fn insert(&mut self, planet: Planet, value: V) -> (r: Option<V>)
        ensures
            final(self).wf(),
            final(self)@ == with_entry(old(self)@, planet, value),
            r == value_of(old(self)@, planet),
            value_of(final(self)@, planet) == Some(value),
    {
        proof {
            use_type_invariant(&*self);
            lemma_entry_entered(self.entries@, planet, value);
        }
        let found = self.find(&planet);
        let mut entries = self.copy_entries();
        let before = match found {
            Some(at) => {
                let had: V = entries[at].1;
                entries.set(at, (planet, value));
                Some(had)
            },
            None => {
                entries.push((planet, value));
                None
            },
        };
        *self = PlanetTable { entries };
        before
    }

    /// Takes out the entry of a body and hands back its value, if it had one.
    pub fn remove(&mut self, planet: &Planet) -> (r: Option<V>)
        ensures
            final(self).wf(),
            final(self)@ == without_entry(old(self)@, *planet),
            r == value_of(old(self)@, *planet),
            value_of(final(self)@, *planet) is None,
    {
        proof {
            use_type_invariant(&*self);
            lemma_entry_taken(self.entries@, *planet);
        }
        let found = self.find(planet);
        match found {
            Some(at) => {
                let mut entries = self.copy_entries();
                let entry = entries.remove(at);
                *self = PlanetTable { entries };
                Some(entry.1)
            },
            None => None,
        }
    }

    /// A copy of the entries, in their order.
    fn copy_entries(&self) -> (r: Vec<(Planet, V)>)
        ensures
            r@ == self.entries@,
    {
        let mut entries: Vec<(Planet, V)> = Vec::new();
        let mut i: usize = 0;
        while i < self.entries.len()
            invariant
                i <= self.entries@.len(),
                entries@ == self.entries@.take(i as int),
            decreases self.entries@.len() - i,
        {
            entries.push(self.entries[i]);
            proof {
                assert(entries@ =~= self.entries@.take(i + 1));
            }
            i = i + 1;
        }
        proof {
            assert(self.entries@.take(self.entries@.len() as int) =~= self.entries@);
        }
        entries
    }
}

/// No body occurs twice among the entries of a valid table.
pub proof fn lemma_table_distinct<V>(table: PlanetTable<V>)
    requires
        table.wf(),
    ensures
        distinct_planets(table@),
{
}

/// In a list without repeated bodies, the place at which a body is found is
/// the place of its entry.
pub proof fn lemma_place_known<V>(entries: Seq<(Planet, V)>, planet: Planet, at: int)
    requires
        distinct_planets(entries),
        is_entry_of(entries, planet, at),
    ensures
        place_of(entries, planet) == Some(at),
        value_of(entries, planet) == Some(entries[at].1),
{
    let chosen = choose|k: int| is_entry_of(entries, planet, k);
    if chosen < at {
        assert(entries[chosen].0 != entries[at].0);
    } else if chosen > at {
        assert(entries[at].0 != entries[chosen].0);
    }
}

/// After a value has been entered for a body, the list is still without
/// repeated bodies and holds that value for the body.
pub proof fn lemma_entry_entered<V>(entries: Seq<(Planet, V)>, planet: Planet, value: V)
    requires
        distinct_planets(entries),
    ensures
        distinct_planets(with_entry(entries, planet, value)),
        value_of(with_entry(entries, planet, value), planet) == Some(value),
{
    let added = with_entry(entries, planet, value);
    match place_of(entries, planet) {
        Some(at) => {
            assert(is_entry_of(entries, planet, at));
            assert forall|i: int, j: int| 0 <= i < j < added.len() implies (#[trigger] added[i]).0
                != (#[trigger] added[j]).0 by {
                assert(entries[i].0 != entries[j].0);
            }
            lemma_place_known(added, planet, at);
        },
        None => {
            assert forall|i: int, j: int| 0 <= i < j < added.len() implies (#[trigger] added[i]).0
                != (#[trigger] added[j]).0 by {
                if j == entries.len() {
                    assert(!is_entry_of(entries, planet, i));
                } else {
                    assert(entries[i].0 != entries[j].0);
                }
            }
            lemma_place_known(added, planet, entries.len() as int);
        },
    }
}

/// After the entry of a body has been taken out, the list is still without
/// repeated bodies and holds no value for the body.
pub proof fn lemma_entry_taken<V>(entries: Seq<(Planet, V)>, planet: Planet)
    requires
        distinct_planets(entries),
    ensures
        distinct_planets(without_entry(entries, planet)),
        value_of(without_entry(entries, planet), planet) is None,
{
    let taken = without_entry(entries, planet);
    match place_of(entries, planet) {
        Some(at) => {
            assert(is_entry_of(entries, planet, at));
            assert forall|i: int, j: int| 0 <= i < j < taken.len() implies (#[trigger] taken[i]).0
                != (#[trigger] taken[j]).0 by {
                let a = if i < at { i } else { i + 1 };
                let b = if j < at { j } else { j + 1 };
                assert(entries[a].0 != entries[b].0);
            }
            assert forall|k: int| !is_entry_of(taken, planet, k) by {
                if 0 <= k < taken.len() {
                    let a = if k < at { k } else { k + 1 };
                    if a < at {
                        assert(entries[a].0 != entries[at].0);
                    } else {
                        assert(entries[at].0 != entries[a].0);
                    }
                }
            }
        },
        None => {
            assert forall|k: int| !is_entry_of(taken, planet, k) by {}
        },
    }
}

/// Entering a value for a body, or taking a body out, leaves the value of
/// every other body as it was.
pub proof fn lemma_other_entries_kept<V>(
    entries: Seq<(Planet, V)>,
    planet: Planet,
    value: V,
    other: Planet,
)
    requires
        distinct_planets(entries),
        other != planet,
    ensures
        value_of(with_entry(entries, planet, value), other) == value_of(entries, other),
        value_of(without_entry(entries, planet), other) == value_of(entries, other),
{
    let added = with_entry(entries, planet, value);
    let taken = without_entry(entries, planet);
    lemma_entry_entered(entries, planet, value);
    lemma_entry_taken(entries, planet);
    match place_of(entries, planet) {
        Some(at) => {
            assert(is_entry_of(entries, planet, at));
            match place_of(entries, other) {
                Some(there) => {
                    assert(is_entry_of(entries, other, there));
                    lemma_place_known(added, other, there);
                    let moved = if there < at { there } else { there - 1 };
                    lemma_place_known(taken, other, moved);
                },
                None => {
                    assert forall|k: int| !is_entry_of(added, other, k) by {
                        if 0 <= k < added.len() {
                            assert(!is_entry_of(entries, other, k));
                        }
                    }
                    assert forall|k: int| !is_entry_of(taken, other, k) by {
                        if 0 <= k < taken.len() {
                            let a = if k < at { k } else { k + 1 };
                            assert(!is_entry_of(entries, other, a));
                        }
                    }
                },
            }
        },
        None => {
            match place_of(entries, other) {
                Some(there) => {
                    assert(is_entry_of(entries, other, there));
                    lemma_place_known(added, other, there);
                },
                None => {
                    assert forall|k: int| !is_entry_of(added, other, k) by {
                        if 0 <= k < entries.len() {
                            assert(!is_entry_of(entries, other, k));
                        }
                    }
                },
            }
        },
    }
}

} // verus!
