use todos_api::domain::entities::{AddTodoEntity, RegisterUserEntity};
use todos_api::domain::value_objects::TodoErrorMessage;
use todos_api::repositories::todos::TodosAppState;
use todos_api::repositories::users::UsersAppState;

fn instant(seconds: i64) -> chrono::NaiveDateTime {
    chrono::DateTime::from_timestamp(seconds, 0).unwrap().naive_utc()
}

fn titled(title: &str) -> AddTodoEntity {
    AddTodoEntity { title: title.to_string() }
}

fn account(username: &str, password: &str) -> RegisterUserEntity {
    RegisterUserEntity { username: username.to_string(), password: password.to_string() }
}

#[test]
fn new_stores_are_empty() {
    assert!(TodosAppState::new().list().is_empty());
    assert!(UsersAppState::new().list().is_empty());
}

#[test]
fn added_todos_come_in_order() {
    let mut store = TodosAppState::new();
    let first = store.add_as("1".to_string(), "u".to_string(), titled("one"), instant(10));
    let second = store.add_as("2".to_string(), "v".to_string(), titled("two"), instant(20));
    assert_eq!((first.id.as_str(), first.title.as_str(), first.user_id.as_str()), ("1", "one", "u"));
    assert!(!first.completed);
    assert_eq!((first.created_at, first.updated_at), (instant(10), instant(10)));
    assert_eq!(second.id, "2");
    let all = store.list();
    assert_eq!(all.len(), 2);
    assert_eq!((all[0].id.as_str(), all[1].id.as_str()), ("1", "2"));
    assert_eq!(all[1].created_at, instant(20));
}

#[test]
fn add_makes_up_an_identifier() {
    let mut store = TodosAppState::new();
    let first = store.add("u".to_string(), titled("one"));
    let second = store.add("u".to_string(), titled("two"));
    assert_ne!(first.id, second.id);
    assert_eq!(first.id.len(), 36);
    assert_eq!((first.title.as_str(), first.user_id.as_str(), first.completed), ("one", "u", false));
    assert_eq!(first.created_at, first.updated_at);
    assert_eq!(store.get(second.id.clone()).unwrap().title, "two");
    assert_eq!(store.list().len(), 2);
}

#[test]
fn get_finds_the_first_with_the_identifier() {
    let mut store = TodosAppState::new();
    store.add_as("1".to_string(), "u".to_string(), titled("one"), instant(10));
    store.add_as("2".to_string(), "u".to_string(), titled("two"), instant(10));
    store.add_as("2".to_string(), "u".to_string(), titled("two again"), instant(10));
    assert_eq!(store.get("2".to_string()).unwrap().title, "two");
    assert_eq!(store.get("1".to_string()).unwrap().title, "one");
    assert_eq!(store.get("3".to_string()).unwrap_err(), TodoErrorMessage::NotFound);
    assert_eq!(store.get("".to_string()).unwrap_err(), TodoErrorMessage::NotFound);
    assert_eq!(TodosAppState::new().get("1".to_string()).unwrap_err(), TodoErrorMessage::NotFound);
}

#[test]
fn completing_touches_the_first_with_the_identifier() {
    let mut store = TodosAppState::new();
    store.add_as("1".to_string(), "u".to_string(), titled("one"), instant(10));
    store.add_as("2".to_string(), "v".to_string(), titled("two"), instant(20));
    store.add_as("2".to_string(), "w".to_string(), titled("two again"), instant(30));
    let done = store.to_completed_at("2".to_string(), instant(40)).unwrap();
    assert!(done.completed);
    assert_eq!((done.id.as_str(), done.title.as_str(), done.user_id.as_str()), ("2", "two", "v"));
    assert_eq!((done.created_at, done.updated_at), (instant(20), instant(40)));
    let all = store.list();
    assert_eq!(all.len(), 3);
    assert_eq!((all[0].completed, all[1].completed, all[2].completed), (false, true, false));
    assert_eq!(all[1].updated_at, instant(40));
    assert_eq!(all[0].updated_at, instant(10));
    assert_eq!(all[2].updated_at, instant(30));
}

#[test]
fn completing_what_is_not_there_changes_nothing() {
    let mut store = TodosAppState::new();
    store.add_as("1".to_string(), "u".to_string(), titled("one"), instant(10));
    assert_eq!(
        store.to_completed_at("9".to_string(), instant(40)).unwrap_err(),
        TodoErrorMessage::NotFound
    );
    assert_eq!(store.to_completed("9".to_string()).unwrap_err(), TodoErrorMessage::NotFound);
    let all = store.list();
    assert_eq!(all.len(), 1);
    assert!(!all[0].completed);
    assert_eq!(all[0].updated_at, instant(10));
}

#[test]
fn completing_by_the_clock() {
    let mut store = TodosAppState::new();
    let todo = store.add("u".to_string(), titled("one"));
    let done = store.to_completed(todo.id.clone()).unwrap();
    assert!(done.completed);
    assert_eq!(done.created_at, todo.created_at);
    assert!(store.get(todo.id).unwrap().completed);
}

#[test]
fn delete_removes_the_first_with_the_identifier() {
    let mut store = TodosAppState::new();
    store.add_as("1".to_string(), "u".to_string(), titled("one"), instant(10));
    store.add_as("2".to_string(), "u".to_string(), titled("two"), instant(10));
    store.add_as("2".to_string(), "u".to_string(), titled("two again"), instant(10));
    store.add_as("3".to_string(), "u".to_string(), titled("three"), instant(10));
    assert_eq!(store.delete("2".to_string()), Ok(()));
    let titles: Vec<String> = store.list().into_iter().map(|t| t.title).collect();
    assert_eq!(titles, vec!["one", "two again", "three"]);
    assert_eq!(store.delete("2".to_string()), Ok(()));
    assert_eq!(store.delete("2".to_string()), Err(TodoErrorMessage::NotFound));
    let titles: Vec<String> = store.list().into_iter().map(|t| t.title).collect();
    assert_eq!(titles, vec!["one", "three"]);
}

#[test]
fn registered_accounts_come_in_order() {
    let mut store = UsersAppState::new();
    store.register_as("1".to_string(), account("alice", "secret"), instant(10));
    store.register_as("2".to_string(), account("bob", "hunter2"), instant(20));
    let all = store.list();
    assert_eq!(all.len(), 2);
    assert_eq!(
        (all[0].id.as_str(), all[0].username.as_str(), all[0].password.as_str()),
        ("1", "alice", "secret")
    );
    assert_eq!((all[0].created_at, all[0].updated_at), (instant(10), instant(10)));
    assert_eq!((all[1].id.as_str(), all[1].username.as_str()), ("2", "bob"));
}

#[test]
fn register_makes_up_an_identifier() {
    let mut store = UsersAppState::new();
    store.register(account("alice", "secret"));
    store.register(account("bob", "hunter2"));
    let all = store.list();
    assert_eq!(all.len(), 2);
    assert_ne!(all[0].id, all[1].id);
    assert_eq!(all[0].id.len(), 36);
    assert_eq!((all[1].username.as_str(), all[1].password.as_str()), ("bob", "hunter2"));
    assert_eq!(all[1].created_at, all[1].updated_at);
}

#[test]
fn find_gives_the_first_with_the_user_name() {
    let mut store = UsersAppState::new();
    store.register_as("1".to_string(), account("alice", "secret"), instant(10));
    store.register_as("2".to_string(), account("bob", "hunter2"), instant(20));
    store.register_as("3".to_string(), account("bob", "other"), instant(30));
    let bob = store.find_by_username("bob".to_string()).unwrap();
    assert_eq!((bob.id.as_str(), bob.password.as_str()), ("2", "hunter2"));
    assert_eq!(store.find_by_username("alice".to_string()).unwrap().id, "1");
    assert!(store.find_by_username("Alice".to_string()).is_none());
    assert!(store.find_by_username("".to_string()).is_none());
    assert!(UsersAppState::new().find_by_username("alice".to_string()).is_none());
}
