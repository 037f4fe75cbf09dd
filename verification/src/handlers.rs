//! The request handlers: one for each of the five requests. A handler makes the one data
//! access call that belongs to its request and gives the reply for its outcome.

use vstd::prelude::*;
use crate::actions;
use crate::models::{NewPerson, PersonView, UpdatePerson};
use crate::replies::{
    deleted_text, failure, not_found_text, reply, reply_to_create, reply_to_delete,
    reply_to_find, reply_to_list, reply_to_update, updated_text, BodyView, Response, Status,
};
use crate::store::PersonStore;
use crate::table::{created, distinct_ids, lookup, max_id, next_id_after, renamed, without};

verus! {

/// Reads the person `person_id`: status 200 with the person, or status 404 with a text where
/// no such person is in the table.
pub fn get_person(store: &PersonStore, person_id: i32) -> (response: Response)
    ensures
        distinct_ids(store@),
        response@ == (match lookup(store@, person_id as int) {
            Some(person) => reply(Status::Success, BodyView::Person(person)),
            None => reply(Status::NotFound, BodyView::Text(not_found_text(person_id as int))),
        }),
{
    reply_to_find(person_id, actions::find_person_by_id(person_id, store))
}

/// Lists the persons: status 200 with every person in the table, in the order of insertion;
/// the empty list where the table is empty.
pub fn get_person_list(store: &PersonStore) -> (response: Response)
    ensures
        distinct_ids(store@),
        response@ == reply(Status::Success, BodyView::Persons(store@)),
{
    reply_to_list(actions::get_all_persons(store))
}

/// Creates a person with the name of `form`, whatever the name, the empty one too: status 200
/// with the new person, whose identifier is one above the greatest in the table, or 1 in the
/// empty table. Where the greatest identifier has no successor: status 500, and the table
/// stays as it is.
pub fn create_person(store: &mut PersonStore, form: NewPerson) -> (response: Response)
    ensures
        distinct_ids(old(store)@),
        distinct_ids(final(store)@),
        max_id(old(store)@) != Some(i32::MAX as int) ==> {
            &&& response@ == reply(
                Status::Success,
                BodyView::Person(
                    PersonView { id: next_id_after(max_id(old(store)@)), name: form.name@ },
                ),
            )
            &&& final(store)@ == created(old(store)@, form.name@)
        },
        max_id(old(store)@) == Some(i32::MAX as int) ==> {
            &&& response@ == failure()
            &&& final(store)@ == old(store)@
        },
{
    reply_to_create(actions::insert_new_person(form.name.as_str(), store))
}

/// Gives the person `person_id` the name of `form`: status 200 with a confirmation, also
/// where no such person is in the table and nothing changes.
pub fn update_person(store: &mut PersonStore, person_id: i32, form: UpdatePerson) -> (response:
    Response)
    ensures
        distinct_ids(old(store)@),
        distinct_ids(final(store)@),
        response@ == reply(Status::Success, BodyView::Text(updated_text(person_id as int))),
        final(store)@ == renamed(old(store)@, person_id as int, form.name@),
{
    reply_to_update(person_id, actions::update_person(person_id, form.name.as_str(), store))
}

/// Deletes the person `person_id`: status 200 with a confirmation, also where no such person
/// is in the table and nothing changes.
pub fn delete_person(store: &mut PersonStore, person_id: i32) -> (response: Response)
    ensures
        distinct_ids(old(store)@),
        distinct_ids(final(store)@),
        response@ == reply(Status::Success, BodyView::Text(deleted_text(person_id as int))),
        final(store)@ == without(old(store)@, person_id as int),
{
    reply_to_delete(person_id, actions::delete_person(person_id, store))
}

} // verus!
