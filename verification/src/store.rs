//! The record store: the table of persons held in memory, with one method for each statement
//! that the data access layer sends to it.

use vstd::prelude::*;
use crate::models::{views, Person, PersonView};
use crate::table::{
    distinct_ids, has_id, lemma_lookup_at, lemma_without_absent, lemma_without_at, lookup,
    max_id, renamed, without,
};

verus! {

/// Why the store refused a statement.
#[derive(Debug, Clone, Copy, PartialEq, Eq, Structural)]
pub enum StoreError {
    /// A row with the same identifier is already in the table.
    DuplicateId,
    /// The greatest identifier in the table is the greatest that a row can carry.
    IdSpaceExhausted,
}

/// The table of persons. Its rows stand in the order in which they were inserted, and no two
/// of them carry the same identifier.
pub struct PersonStore {
    rows: Vec<Person>,
}

impl View for PersonStore {
    type V = Seq<PersonView>;

    closed spec fn view(&self) -> Seq<PersonView> {
        views(self.rows@)
    }
}

impl PersonStore {
    #[verifier::type_invariant]
    spec fn well_formed(&self) -> bool {
        distinct_ids(self@)
    }

    /// The empty table.
    pub fn new() -> (store: Self)
        ensures
            store@ == Seq::<PersonView>::empty(),
            distinct_ids(store@),
    {
        let store = PersonStore { rows: Vec::new() };
        assert(store@ =~= Seq::<PersonView>::empty());
        store
    }

    /// The number of rows.
    pub fn len(&self) -> (n: usize)
        ensures
            n == self@.len(),
    {
        self.rows.len()
    }

    /// The index of the row that carries `id`, or the number of rows where none does.
    fn index_of(&self, id: i32) -> (at: usize)
        ensures
            distinct_ids(self@),
            at <= self@.len(),
            at < self@.len() ==> self@[at as int].id == id,
            at == self@.len() ==> !has_id(self@, id as int),
    {
        proof {
            use_type_invariant(self);
        }
        let mut i: usize = 0;
        while i < self.rows.len()
            invariant
                i <= self.rows.len(),
                distinct_ids(self@),
                forall|k: int| 0 <= k < i ==> (#[trigger] self@[k]).id != id,
            decreases self.rows.len() - i,
        {
            if self.rows[i].id == id {
                return i;
            }
            i += 1;
        }
        i
    }

    /// The row that carries `id`, if there is one.
    pub fn find(&self, id: i32) -> (found: Option<Person>)
        ensures
            distinct_ids(self@),
            match found {
                Some(person) => lookup(self@, id as int) == Some(person@),
                None => lookup(self@, id as int) is None,
            },
    {
        let at = self.index_of(id);
        if at < self.rows.len() {
            proof {
                lemma_lookup_at(self@, at as int);
            }
            Some(self.rows[at].clone())
        } else {
            None
        }
    }

    /// Every row, in the order of insertion.
    pub fn all(&self) -> (persons: Vec<Person>)
        ensures
            distinct_ids(self@),
            views(persons@) == self@,
    {
        proof {
            use_type_invariant(self);
        }
        let mut persons: Vec<Person> = Vec::new();
        let mut i: usize = 0;
        while i < self.rows.len()
            invariant
                i <= self.rows.len(),
                persons@ == self.rows@.take(i as int),
            decreases self.rows.len() - i,
        {
            persons.push(self.rows[i].clone());
            assert(self.rows@.take(i + 1) =~= self.rows@.take(i as int).push(self.rows@[i as int]));
            i += 1;
        }
        assert(self.rows@.take(i as int) =~= self.rows@);
        persons
    }

    /// The greatest identifier in the table, or `None` where the table is empty.
    pub fn max_id(&self) -> (greatest: Option<i32>)
        ensures
            distinct_ids(self@),
            match greatest {
                Some(m) => max_id(self@) == Some(m as int),
                None => max_id(self@) is None,
            },
    {
        proof {
            use_type_invariant(self);
        }
        let mut greatest: Option<i32> = None;
        let mut i: usize = 0;
        while i < self.rows.len()
            invariant
                i <= self.rows.len(),
                match greatest {
                    Some(m) => max_id(self@.take(i as int)) == Some(m as int),
                    None => max_id(self@.take(i as int)) is None,
                },
            decreases self.rows.len() - i,
        {
            let id = self.rows[i].id;
            proof {
                let next = self@.take(i + 1);
                assert(next.drop_last() =~= self@.take(i as int));
                assert(next.last() == self@[i as int]);
            }
            greatest = match greatest {
                Some(m) => if m >= id { Some(m) } else { Some(id) },
                None => Some(id),
            };
            i += 1;
        }
        assert(self@.take(i as int) =~= self@);
        greatest
    }

    /// Adds `person` as the last row, unless a row already carries its identifier.
    pub fn insert(&mut self, person: Person) -> (done: Result<(), StoreError>)
        ensures
            distinct_ids(old(self)@),
            distinct_ids(final(self)@),
            has_id(old(self)@, person.id as int) ==> done == Err::<(), StoreError>(
                StoreError::DuplicateId,
            ) && final(self)@ == old(self)@,
            !has_id(old(self)@, person.id as int) ==> done is Ok && final(self)@ == old(self)@.push(
                person@,
            ),
    {
        let at = self.index_of(person.id);
        if at < self.rows.len() {
            return Err(StoreError::DuplicateId);
        }
        let ghost before = self@;
        let ghost row = person@;
        let mut rows: Vec<Person> = Vec::new();
        std::mem::swap(&mut rows, &mut self.rows);
        rows.push(person);
        proof {
            let after = views(rows@);
            assert(after =~= before.push(row));
            assert forall|i: int, j: int| 0 <= i < j < after.len() implies (#[trigger] after[i]).id
                != (#[trigger] after[j]).id by {
                assert(after[i] == before[i]);
                if j < before.len() {
                    assert(after[j] == before[j]);
                }
            }
        }
        self.rows = rows;
        Ok(())
    }

    /// Gives the row that carries `id` the name `name`, and says how many rows it changed.
    pub fn rename(&mut self, id: i32, name: &str) -> (changed: usize)
        ensures
            distinct_ids(old(self)@),
            distinct_ids(final(self)@),
            final(self)@ == renamed(old(self)@, id as int, name@),
            changed == (if has_id(old(self)@, id as int) { 1usize } else { 0usize }),
    {
        let at = self.index_of(id);
        let ghost before = self@;
        if at < self.rows.len() {
            let mut rows: Vec<Person> = Vec::new();
            std::mem::swap(&mut rows, &mut self.rows);
            rows.set(at, Person { id, name: name.to_owned() });
            proof {
                let after = views(rows@);
                assert forall|i: int| 0 <= i < before.len() implies #[trigger] after[i] == renamed(
                    before,
                    id as int,
                    name@,
                )[i] by {
                    if i < at {
                        assert(before[i].id != before[at as int].id);
                    } else if i > at {
                        assert(before[at as int].id != before[i].id);
                    }
                }
                assert(after =~= renamed(before, id as int, name@));
                assert forall|i: int, j: int| 0 <= i < j < after.len() implies (#[trigger] after[i]).id
                    != (#[trigger] after[j]).id by {
                    assert(after[i].id == before[i].id);
                    assert(after[j].id == before[j].id);
                }
            }
            self.rows = rows;
            1
        } else {
            assert(before =~= renamed(before, id as int, name@));
            0
        }
    }

    /// Removes the row that carries `id`, and says how many rows it removed.
    pub fn delete(&mut self, id: i32) -> (removed: usize)
        ensures
            distinct_ids(old(self)@),
            distinct_ids(final(self)@),
            final(self)@ == without(old(self)@, id as int),
            removed == (if has_id(old(self)@, id as int) { 1usize } else { 0usize }),
    {
        let at = self.index_of(id);
        let ghost before = self@;
        if at < self.rows.len() {
            let mut rows: Vec<Person> = Vec::new();
            std::mem::swap(&mut rows, &mut self.rows);
            rows.remove(at);
            proof {
                let after = views(rows@);
                lemma_without_at(before, at as int);
                assert(after =~= before.remove(at as int));
                assert forall|i: int, j: int| 0 <= i < j < after.len() implies (#[trigger] after[i]).id
                    != (#[trigger] after[j]).id by {
                    let a = if i < at { i } else { i + 1 };
                    let b = if j < at { j } else { j + 1 };
                    assert(after[i] == before[a]);
                    assert(after[j] == before[b]);
                }
            }
            self.rows = rows;
            1
        } else {
            proof {
                lemma_without_absent(before, id as int);
            }
            0
        }
    }
}

} // verus!
