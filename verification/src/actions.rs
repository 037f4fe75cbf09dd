//! The data access layer: the five operations on persons, each one statement against the
//! record store, and the rule by which a new person gets its identifier.

use vstd::prelude::*;
use crate::models::{views, Person, PersonView};
use crate::store::{PersonStore, StoreError};
use crate::table::{
    created, distinct_ids, has_id, lookup, max_id, next_id_after, renamed, without,
};
use crate::theorems::{
    absent_person_changes_nothing, created_person_is_found, deleted_person_is_not_found,
    updated_person_has_new_name,
};

verus! {

/// The identifier for the next person, given the greatest identifier in the table (`None` for
/// the empty table): one more than the greatest, or 1. Fails only where the greatest
/// identifier has no successor.
pub fn next_id(max_id: Option<i32>) -> (next: Result<i32, StoreError>)
    ensures
        match next {
            Ok(id) => max_id != Some(i32::MAX) && id == next_id_after(
                match max_id {
                    Some(m) => Some(m as int),
                    None => None,
                },
            ),
            Err(e) => max_id == Some(i32::MAX) && e == StoreError::IdSpaceExhausted,
        },
{
    match max_id {
        Some(m) => {
            if m == i32::MAX {
                Err(StoreError::IdSpaceExhausted)
            } else {
                Ok(m + 1)
            }
        },
        None => Ok(1),
    }
}

/// Reads the person with the identifier `person_id`. A person that is not in the table is
/// `Ok(None)`, not an error.
pub fn find_person_by_id(person_id: i32, store: &PersonStore) -> (found: Result<
    Option<Person>,
    StoreError,
>)
    ensures
        distinct_ids(store@),
        match found {
            Ok(Some(person)) => lookup(store@, person_id as int) == Some(person@),
            Ok(None) => !has_id(store@, person_id as int),
            Err(_) => false,
        },
{
    Ok(store.find(person_id))
}

/// Reads every person, in the order of insertion.
pub fn get_all_persons(store: &PersonStore) -> (listed: Result<Vec<Person>, StoreError>)
    ensures
        distinct_ids(store@),
        listed matches Ok(persons) && views(persons@) == store@,
{
    Ok(store.all())
}

/// Creates a person named `person_name`, with an identifier one above the greatest in the
/// table (1 in the empty table), and returns the new record, which a read by that identifier
/// then finds. Fails, and leaves the table as it is, only where the greatest identifier has
/// no successor.
pub fn insert_new_person(person_name: &str, store: &mut PersonStore) -> (inserted: Result<
    Person,
    StoreError,
>)
    ensures
        distinct_ids(old(store)@),
        distinct_ids(final(store)@),
        match inserted {
            Ok(person) => {
                &&& max_id(old(store)@) != Some(i32::MAX as int)
                &&& person@ == (PersonView {
                    id: next_id_after(max_id(old(store)@)),
                    name: person_name@,
                })
                &&& final(store)@ == created(old(store)@, person_name@)
                &&& lookup(final(store)@, person.id as int) == Some(person@)
            },
            Err(e) => {
                &&& max_id(old(store)@) == Some(i32::MAX as int)
                &&& e == StoreError::IdSpaceExhausted
                &&& final(store)@ == old(store)@
            },
        },
{
    let greatest = store.max_id();
    let id = match next_id(greatest) {
        Ok(id) => id,
        Err(e) => {
            return Err(e);
        },
    };
    proof {
        created_person_is_found(store@, person_name@);
    }
    let person = Person { id, name: person_name.to_owned() };
    match store.insert(person.clone()) {
        Ok(()) => Ok(person),
        Err(e) => Err(e),
    }
}

/// Gives the person with the identifier `person_id` the name `new_name`. Where no such person
/// is in the table nothing changes, and the call still succeeds.
pub fn update_person(person_id: i32, new_name: &str, store: &mut PersonStore) -> (updated: Result<
    (),
    StoreError,
>)
    ensures
        distinct_ids(old(store)@),
        distinct_ids(final(store)@),
        updated is Ok,
        final(store)@ == renamed(old(store)@, person_id as int, new_name@),
        !has_id(old(store)@, person_id as int) ==> final(store)@ == old(store)@,
        has_id(old(store)@, person_id as int) ==> lookup(final(store)@, person_id as int) == Some(
            PersonView { id: person_id as int, name: new_name@ },
        ),
{
    let _ = store.rename(person_id, new_name);
    proof {
        if has_id(old(store)@, person_id as int) {
            updated_person_has_new_name(old(store)@, person_id as int, new_name@);
        } else {
            absent_person_changes_nothing(old(store)@, person_id as int, new_name@);
        }
    }
    Ok(())
}

/// Deletes the person with the identifier `person_id`. Where no such person is in the table
/// nothing changes, and the call still succeeds.
pub fn delete_person(person_id: i32, store: &mut PersonStore) -> (deleted: Result<(), StoreError>)
    ensures
        distinct_ids(old(store)@),
        distinct_ids(final(store)@),
        deleted is Ok,
        final(store)@ == without(old(store)@, person_id as int),
        !has_id(old(store)@, person_id as int) ==> final(store)@ == old(store)@,
        lookup(final(store)@, person_id as int) is None,
{
    let _ = store.delete(person_id);
    proof {
        if has_id(old(store)@, person_id as int) {
            deleted_person_is_not_found(old(store)@, person_id as int);
        } else {
            absent_person_changes_nothing(old(store)@, person_id as int, Seq::empty());
        }
    }
    Ok(())
}

} // verus!
