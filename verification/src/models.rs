//! The person record and the two request payloads.

use vstd::prelude::*;

verus! {

/// What a person record stands for in contracts: its identifier and the characters of its name.
pub struct PersonView {
    pub id: int,
    pub name: Seq<char>,
}

/// One row of the table: a server-assigned identifier and a name.
#[derive(Debug, PartialEq, Eq)]
pub struct Person {
    pub id: i32,
    pub name: String,
}

impl View for Person {
    type V = PersonView;

    open spec fn view(&self) -> PersonView {
        PersonView { id: self.id as int, name: self.name@ }
    }
}

impl Clone for Person {
    fn clone(&self) -> (copy: Self)
        ensures
            copy == *self,
    {
        Person { id: self.id, name: self.name.clone() }
    }
}

/// The views of a sequence of person records, one for one.
pub open spec fn views(persons: Seq<Person>) -> Seq<PersonView> {
    persons.map_values(|person: Person| person@)
}

/// The body of a request that creates a person: only the name, the identifier is assigned.
#[derive(Debug, PartialEq, Eq)]
pub struct NewPerson {
    pub name: String,
}

impl View for NewPerson {
    type V = Seq<char>;

    open spec fn view(&self) -> Seq<char> {
        self.name@
    }
}

impl Clone for NewPerson {
    fn clone(&self) -> (copy: Self)
        ensures
            copy == *self,
    {
        NewPerson { name: self.name.clone() }
    }
}

/// The body of a request that renames a person: the new name.
#[derive(Debug, PartialEq, Eq)]
pub struct UpdatePerson {
    pub name: String,
}

impl View for UpdatePerson {
    type V = Seq<char>;

    open spec fn view(&self) -> Seq<char> {
        self.name@
    }
}

impl Clone for UpdatePerson {
    fn clone(&self) -> (copy: Self)
        ensures
            copy == *self,
    {
        UpdatePerson { name: self.name.clone() }
    }
}

} // verus!
