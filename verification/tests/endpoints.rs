use person_service::handlers::{
    create_person, delete_person, get_person, get_person_list, update_person,
};
use person_service::models::{NewPerson, Person, UpdatePerson};
use person_service::replies::{Body, Response, Status};
use person_service::store::PersonStore;

#[test]
fn create_then_list_then_update_then_delete() {
    let mut store = PersonStore::new();

    let response = create_person(&mut store, NewPerson { name: String::from("Alice") });
    assert_eq!(
        response,
        Response {
            status: Status::Success,
            body: Body::Person(Person { id: 1, name: String::from("Alice") }),
        }
    );

    let response = create_person(&mut store, NewPerson { name: String::from("Bob") });
    assert_eq!(
        response,
        Response {
            status: Status::Success,
            body: Body::Person(Person { id: 2, name: String::from("Bob") }),
        }
    );

    let response = get_person_list(&store);
    assert_eq!(
        response,
        Response {
            status: Status::Success,
            body: Body::Persons(vec![
                Person { id: 1, name: String::from("Alice") },
                Person { id: 2, name: String::from("Bob") },
            ]),
        }
    );

    let response = update_person(&mut store, 1, UpdatePerson { name: String::from("Alicia") });
    assert_eq!(response.status.code(), 200);
    let response = get_person(&store, 1);
    assert_eq!(
        response,
        Response {
            status: Status::Success,
            body: Body::Person(Person { id: 1, name: String::from("Alicia") }),
        }
    );

    let response = delete_person(&mut store, 2);
    assert_eq!(response.status.code(), 200);
    let response = get_person(&store, 2);
    assert_eq!(response.status.code(), 404);
    assert_eq!(response.body, Body::Text(String::from("No user found with id: 2")));
}

#[test]
fn read_of_absent_person_is_status_404() {
    let store = PersonStore::new();
    let response = get_person(&store, 7);
    assert_eq!(
        response,
        Response {
            status: Status::NotFound,
            body: Body::Text(String::from("No user found with id: 7")),
        }
    );
}

#[test]
fn list_of_empty_table_is_status_200_with_empty_list() {
    let store = PersonStore::new();
    let response = get_person_list(&store);
    assert_eq!(response, Response { status: Status::Success, body: Body::Persons(vec![]) });
}

#[test]
fn create_accepts_the_empty_name() {
    let mut store = PersonStore::new();
    let response = create_person(&mut store, NewPerson { name: String::new() });
    assert_eq!(
        response,
        Response {
            status: Status::Success,
            body: Body::Person(Person { id: 1, name: String::new() }),
        }
    );
}

#[test]
fn create_without_a_free_id_is_status_500() {
    let mut store = PersonStore::new();
    assert_eq!(store.insert(Person { id: i32::MAX, name: String::from("Last") }), Ok(()));
    let response = create_person(&mut store, NewPerson { name: String::from("Late") });
    assert_eq!(response, Response { status: Status::ServerError, body: Body::Empty });
    assert_eq!(store.len(), 1);
}

#[test]
fn update_of_absent_person_is_status_200() {
    let mut store = PersonStore::new();
    let response = update_person(&mut store, 3, UpdatePerson { name: String::from("Nobody") });
    assert_eq!(
        response,
        Response { status: Status::Success, body: Body::Text(String::from("Person 3 updated.")) }
    );
    assert_eq!(store.len(), 0);
}

#[test]
fn delete_of_absent_person_is_status_200() {
    let mut store = PersonStore::new();
    let response = delete_person(&mut store, 3);
    assert_eq!(
        response,
        Response { status: Status::Success, body: Body::Text(String::from("Person 3 deleted.")) }
    );
    assert_eq!(store.len(), 0);
}

#[test]
fn update_changes_only_the_name_of_that_person() {
    let mut store = PersonStore::new();
    create_person(&mut store, NewPerson { name: String::from("Alice") });
    create_person(&mut store, NewPerson { name: String::from("Bob") });
    let response = update_person(&mut store, 2, UpdatePerson { name: String::from("Robert") });
    assert_eq!(response.body, Body::Text(String::from("Person 2 updated.")));
    assert_eq!(
        get_person_list(&store).body,
        Body::Persons(vec![
            Person { id: 1, name: String::from("Alice") },
            Person { id: 2, name: String::from("Robert") },
        ])
    );
}
