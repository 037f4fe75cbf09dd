use person_service::actions::{
    delete_person, find_person_by_id, get_all_persons, insert_new_person, next_id, update_person,
};
use person_service::models::Person;
use person_service::store::{PersonStore, StoreError};

#[test]
fn first_person_gets_id_one() {
    let mut store = PersonStore::new();
    let created = insert_new_person("Alice", &mut store);
    assert_eq!(created, Ok(Person { id: 1, name: String::from("Alice") }));
}

#[test]
fn next_person_gets_greatest_id_plus_one() {
    let mut store = PersonStore::new();
    assert_eq!(store.insert(Person { id: 7, name: String::from("Grace") }), Ok(()));
    assert_eq!(store.insert(Person { id: 3, name: String::from("Heidi") }), Ok(()));
    let created = insert_new_person("Ivan", &mut store);
    assert_eq!(created, Ok(Person { id: 8, name: String::from("Ivan") }));
}

#[test]
fn created_person_can_be_read_by_its_id() {
    let mut store = PersonStore::new();
    let alice = insert_new_person("Alice", &mut store).unwrap();
    let bob = insert_new_person("Bob", &mut store).unwrap();
    assert_eq!(alice.id, 1);
    assert_eq!(bob.id, 2);
    assert_eq!(find_person_by_id(alice.id, &store), Ok(Some(alice)));
    assert_eq!(find_person_by_id(bob.id, &store), Ok(Some(bob)));
}

#[test]
fn id_of_deleted_last_person_is_assigned_again() {
    let mut store = PersonStore::new();
    insert_new_person("Alice", &mut store).unwrap();
    insert_new_person("Bob", &mut store).unwrap();
    assert_eq!(delete_person(2, &mut store), Ok(()));
    let carol = insert_new_person("Carol", &mut store).unwrap();
    assert_eq!(carol, Person { id: 2, name: String::from("Carol") });
}

#[test]
fn id_of_deleted_inner_person_is_not_assigned_again() {
    let mut store = PersonStore::new();
    insert_new_person("Alice", &mut store).unwrap();
    insert_new_person("Bob", &mut store).unwrap();
    assert_eq!(delete_person(1, &mut store), Ok(()));
    let carol = insert_new_person("Carol", &mut store).unwrap();
    assert_eq!(carol.id, 3);
}

#[test]
fn empty_name_is_accepted() {
    let mut store = PersonStore::new();
    let created = insert_new_person("", &mut store);
    assert_eq!(created, Ok(Person { id: 1, name: String::new() }));
    assert_eq!(find_person_by_id(1, &store), Ok(Some(Person { id: 1, name: String::new() })));
}

#[test]
fn equal_names_get_different_ids() {
    let mut store = PersonStore::new();
    let first = insert_new_person("Alice", &mut store).unwrap();
    let second = insert_new_person("Alice", &mut store).unwrap();
    assert_eq!(first.id, 1);
    assert_eq!(second.id, 2);
    assert_eq!(store.len(), 2);
}

#[test]
fn insert_fails_when_greatest_id_has_no_successor() {
    let mut store = PersonStore::new();
    assert_eq!(store.insert(Person { id: i32::MAX, name: String::from("Last") }), Ok(()));
    let created = insert_new_person("Late", &mut store);
    assert_eq!(created, Err(StoreError::IdSpaceExhausted));
    assert_eq!(store.len(), 1);
    assert_eq!(
        get_all_persons(&store),
        Ok(vec![Person { id: i32::MAX, name: String::from("Last") }])
    );
}

#[test]
fn next_id_of_empty_table_is_one() {
    assert_eq!(next_id(None), Ok(1));
}

#[test]
fn next_id_is_one_above_greatest() {
    assert_eq!(next_id(Some(1)), Ok(2));
    assert_eq!(next_id(Some(41)), Ok(42));
    assert_eq!(next_id(Some(0)), Ok(1));
    assert_eq!(next_id(Some(-5)), Ok(-4));
    assert_eq!(next_id(Some(i32::MIN)), Ok(i32::MIN + 1));
    assert_eq!(next_id(Some(i32::MAX - 1)), Ok(i32::MAX));
}

#[test]
fn next_id_fails_at_greatest_integer() {
    assert_eq!(next_id(Some(i32::MAX)), Err(StoreError::IdSpaceExhausted));
}

#[test]
fn find_of_absent_id_is_none_not_an_error() {
    let mut store = PersonStore::new();
    assert_eq!(find_person_by_id(1, &store), Ok(None));
    insert_new_person("Alice", &mut store).unwrap();
    assert_eq!(find_person_by_id(2, &store), Ok(None));
    assert_eq!(find_person_by_id(0, &store), Ok(None));
    assert_eq!(find_person_by_id(-1, &store), Ok(None));
    assert_eq!(find_person_by_id(i32::MAX, &store), Ok(None));
}

#[test]
fn update_of_absent_id_succeeds_and_changes_nothing() {
    let mut store = PersonStore::new();
    assert_eq!(update_person(5, "Nobody", &mut store), Ok(()));
    assert_eq!(get_all_persons(&store), Ok(vec![]));
    insert_new_person("Alice", &mut store).unwrap();
    assert_eq!(update_person(5, "Nobody", &mut store), Ok(()));
    assert_eq!(
        get_all_persons(&store),
        Ok(vec![Person { id: 1, name: String::from("Alice") }])
    );
    assert_eq!(find_person_by_id(5, &store), Ok(None));
}

#[test]
fn delete_of_absent_id_succeeds_and_changes_nothing() {
    let mut store = PersonStore::new();
    assert_eq!(delete_person(5, &mut store), Ok(()));
    assert_eq!(get_all_persons(&store), Ok(vec![]));
    insert_new_person("Alice", &mut store).unwrap();
    assert_eq!(delete_person(5, &mut store), Ok(()));
    assert_eq!(
        get_all_persons(&store),
        Ok(vec![Person { id: 1, name: String::from("Alice") }])
    );
}

#[test]
fn listing_empty_table_is_empty() {
    let store = PersonStore::new();
    assert_eq!(get_all_persons(&store), Ok(vec![]));
}

#[test]
fn listing_returns_every_created_person_in_order() {
    let mut store = PersonStore::new();
    let names = ["Alice", "Bob", "Carol", "Dave", "Eve"];
    let mut expected: Vec<Person> = Vec::new();
    for name in names {
        let created = insert_new_person(name, &mut store).unwrap();
        expected.push(created);
    }
    let listed = get_all_persons(&store).unwrap();
    assert_eq!(listed.len(), 5);
    assert_eq!(listed, expected);
    assert_eq!(listed[0], Person { id: 1, name: String::from("Alice") });
    assert_eq!(listed[4], Person { id: 5, name: String::from("Eve") });
}

#[test]
fn update_changes_name_and_keeps_id() {
    let mut store = PersonStore::new();
    insert_new_person("Alice", &mut store).unwrap();
    insert_new_person("Bob", &mut store).unwrap();
    assert_eq!(update_person(1, "Alicia", &mut store), Ok(()));
    assert_eq!(
        find_person_by_id(1, &store),
        Ok(Some(Person { id: 1, name: String::from("Alicia") }))
    );
    assert_eq!(
        find_person_by_id(2, &store),
        Ok(Some(Person { id: 2, name: String::from("Bob") }))
    );
    assert_eq!(
        get_all_persons(&store),
        Ok(vec![
            Person { id: 1, name: String::from("Alicia") },
            Person { id: 2, name: String::from("Bob") },
        ])
    );
}

#[test]
fn last_update_wins() {
    let mut store = PersonStore::new();
    insert_new_person("Alice", &mut store).unwrap();
    assert_eq!(update_person(1, "Alicia", &mut store), Ok(()));
    assert_eq!(update_person(1, "Ali", &mut store), Ok(()));
    assert_eq!(
        find_person_by_id(1, &store),
        Ok(Some(Person { id: 1, name: String::from("Ali") }))
    );
}

#[test]
fn delete_removes_the_person_and_no_other() {
    let mut store = PersonStore::new();
    insert_new_person("Alice", &mut store).unwrap();
    insert_new_person("Bob", &mut store).unwrap();
    insert_new_person("Carol", &mut store).unwrap();
    assert_eq!(delete_person(2, &mut store), Ok(()));
    assert_eq!(find_person_by_id(2, &store), Ok(None));
    assert_eq!(
        get_all_persons(&store),
        Ok(vec![
            Person { id: 1, name: String::from("Alice") },
            Person { id: 3, name: String::from("Carol") },
        ])
    );
}

#[test]
fn delete_twice_succeeds_twice() {
    let mut store = PersonStore::new();
    insert_new_person("Alice", &mut store).unwrap();
    assert_eq!(delete_person(1, &mut store), Ok(()));
    assert_eq!(delete_person(1, &mut store), Ok(()));
    assert_eq!(store.len(), 0);
}
