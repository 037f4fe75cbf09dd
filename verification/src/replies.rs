//! The replies of the service: what it answers to each of its five requests, given what the
//! data access layer returned for it.
//!
//! Each function here takes the outcome of the one data access call that belongs to a request.
//! Every error of that call, of whatever type, is answered alike: with status 500 and no body.
//! A request for which the call could not be made, for want of a connection, is answered with
//! status 503.

use vstd::prelude::*;
use vstd::string::StringExecFns;
use crate::models::{views, Person, PersonView};
use crate::text::{decimal, push_decimal};

verus! {

/// The status of a reply.
#[derive(Debug, Clone, Copy, PartialEq, Eq, Structural)]
pub enum Status {
    /// 200
    Success,
    /// 404
    NotFound,
    /// 500
    ServerError,
    /// 503
    Unavailable,
}

impl Status {
    /// The status as a number.
    pub open spec fn spec_code(&self) -> u16 {
        match self {
            Status::Success => 200,
            Status::NotFound => 404,
            Status::ServerError => 500,
            Status::Unavailable => 503,
        }
    }

    /// The status as a number.
    #[verifier::when_used_as_spec(spec_code)]
    pub fn code(&self) -> (code: u16)
        ensures
            code == self.spec_code(),
    {
        match self {
            Status::Success => 200,
            Status::NotFound => 404,
            Status::ServerError => 500,
            Status::Unavailable => 503,
        }
    }
}

/// The body of a reply. A person and a list of persons go out as JSON, a text as it is.
#[derive(Debug, PartialEq, Eq)]
pub enum Body {
    Empty,
    Text(String),
    Person(Person),
    Persons(Vec<Person>),
}

/// What a body stands for in contracts.
pub enum BodyView {
    Empty,
    Text(Seq<char>),
    Person(PersonView),
    Persons(Seq<PersonView>),
}

impl View for Body {
    type V = BodyView;

    open spec fn view(&self) -> BodyView {
        match self {
            Body::Empty => BodyView::Empty,
            Body::Text(text) => BodyView::Text(text@),
            Body::Person(person) => BodyView::Person(person@),
            Body::Persons(persons) => BodyView::Persons(views(persons@)),
        }
    }
}

/// A reply: its status and its body.
#[derive(Debug, PartialEq, Eq)]
pub struct Response {
    pub status: Status,
    pub body: Body,
}

/// What a reply stands for in contracts.
pub struct ResponseView {
    pub status: Status,
    pub body: BodyView,
}

impl View for Response {
    type V = ResponseView;

    open spec fn view(&self) -> ResponseView {
        ResponseView { status: self.status, body: self.body@ }
    }
}

/// The reply with the status `status` and the body `body`.
pub open spec fn reply(status: Status, body: BodyView) -> ResponseView {
    ResponseView { status, body }
}

/// The reply to every request whose data access call failed.
pub open spec fn failure() -> ResponseView {
    reply(Status::ServerError, BodyView::Empty)
}

/// The reply to a request for which no connection to the record store could be had.
pub open spec fn unavailable() -> ResponseView {
    reply(Status::Unavailable, BodyView::Empty)
}

/// The text that says that no person carries the identifier `person_id`.
pub open spec fn not_found_text(person_id: int) -> Seq<char> {
    "No user found with id: "@ + decimal(person_id)
}

/// The text that confirms that the person `person_id` was updated.
pub open spec fn updated_text(person_id: int) -> Seq<char> {
    "Person "@ + decimal(person_id) + " updated."@
}

/// The text that confirms that the person `person_id` was deleted.
pub open spec fn deleted_text(person_id: int) -> Seq<char> {
    "Person "@ + decimal(person_id) + " deleted."@
}

/// `before`, then `person_id` in decimal, then `after`.
fn text_around_id(before: &str, person_id: i32, after: &str) -> (text: String)
    ensures
        text@ == before@ + decimal(person_id as int) + after@,
{
    let mut text = String::from_str(before);
    push_decimal(&mut text, person_id);
    text.append(after);
    text
}

/// The reply to a request of any kind for which no connection to the record store could be
/// had, so that no data access call was made: status 503 and no body.
pub fn reply_without_connection() -> (response: Response)
    ensures
        response@ == unavailable(),
{
    Response { status: Status::Unavailable, body: Body::Empty }
}

/// The reply to a request that reads the person `person_id`: the person with status 200, a
/// text with status 404 where there is no such person, status 500 where the read failed.
pub fn reply_to_find<E>(person_id: i32, outcome: Result<Option<Person>, E>) -> (response: Response)
    ensures
        response@ == (match outcome {
            Ok(Some(person)) => reply(Status::Success, BodyView::Person(person@)),
            Ok(None) => reply(Status::NotFound, BodyView::Text(not_found_text(person_id as int))),
            Err(_) => failure(),
        }),
{
    match outcome {
        Ok(Some(person)) => Response { status: Status::Success, body: Body::Person(person) },
        Ok(None) => {
            let text = text_around_id("No user found with id: ", person_id, "");
            proof {
                reveal_strlit("");
                assert(text@ =~= not_found_text(person_id as int));
            }
            Response { status: Status::NotFound, body: Body::Text(text) }
        },
        Err(_) => Response { status: Status::ServerError, body: Body::Empty },
    }
}

/// The reply to a request that lists the persons: the list with status 200, also where it is
/// empty; status 500 where the read failed.
pub fn reply_to_list<E>(outcome: Result<Vec<Person>, E>) -> (response: Response)
    ensures
        response@ == (match outcome {
            Ok(persons) => reply(Status::Success, BodyView::Persons(views(persons@))),
            Err(_) => failure(),
        }),
{
    match outcome {
        Ok(persons) => Response { status: Status::Success, body: Body::Persons(persons) },
        Err(_) => Response { status: Status::ServerError, body: Body::Empty },
    }
}

/// The reply to a request that creates a person: the new person with status 200; status 500
/// where the insertion failed.
pub fn reply_to_create<E>(outcome: Result<Person, E>) -> (response: Response)
    ensures
        response@ == (match outcome {
            Ok(person) => reply(Status::Success, BodyView::Person(person@)),
            Err(_) => failure(),
        }),
{
    match outcome {
        Ok(person) => Response { status: Status::Success, body: Body::Person(person) },
        Err(_) => Response { status: Status::ServerError, body: Body::Empty },
    }
}

/// The reply to a request that renames the person `person_id`: a confirmation with status
/// 200, whether or not there is such a person; status 500 where the update failed.
pub fn reply_to_update<E>(person_id: i32, outcome: Result<(), E>) -> (response: Response)
    ensures
        response@ == (match outcome {
            Ok(_) => reply(Status::Success, BodyView::Text(updated_text(person_id as int))),
            Err(_) => failure(),
        }),
{
    match outcome {
        Ok(_) => {
            let text = text_around_id("Person ", person_id, " updated.");
            Response { status: Status::Success, body: Body::Text(text) }
        },
        Err(_) => Response { status: Status::ServerError, body: Body::Empty },
    }
}

/// The reply to a request that deletes the person `person_id`: a confirmation with status
/// 200, whether or not there was such a person; status 500 where the deletion failed.
pub fn reply_to_delete<E>(person_id: i32, outcome: Result<(), E>) -> (response: Response)
    ensures
        response@ == (match outcome {
            Ok(_) => reply(Status::Success, BodyView::Text(deleted_text(person_id as int))),
            Err(_) => failure(),
        }),
{
    match outcome {
        Ok(_) => {
            let text = text_around_id("Person ", person_id, " deleted.");
            Response { status: Status::Success, body: Body::Text(text) }
        },
        Err(_) => Response { status: Status::ServerError, body: Body::Empty },
    }
}

} // verus!
