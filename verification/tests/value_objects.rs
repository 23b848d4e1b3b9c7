use todos_api::domain::entities::{AddTodoEntity, RegisterUserEntity, TodoEntity, UserEntity};
use todos_api::domain::value_objects::{
    AddTodoModel, FieldError, RegisterUserModel, TodoErrorMessage,
};
use todos_api::text::contains;

fn found(errors: Vec<FieldError>) -> Vec<(String, String)> {
    errors.into_iter().map(|e| (e.field, e.message)).collect()
}

fn expected(errors: Vec<(&str, &str)>) -> Vec<(String, String)> {
    errors.into_iter().map(|(f, m)| (f.to_string(), m.to_string())).collect()
}

#[test]
fn todo_form_becomes_a_record() {
    let entity = AddTodoModel { title: "write tests".to_string() }.to_entity();
    assert_eq!(entity.title, "write tests");
    assert_eq!(AddTodoModel { title: String::new() }.to_entity().title, "");
}

#[test]
fn account_form_becomes_a_record() {
    let entity =
        RegisterUserModel { username: "alice".to_string(), password: "secret".to_string() }
            .to_entity();
    assert_eq!((entity.username.as_str(), entity.password.as_str()), ("alice", "secret"));
}

#[test]
fn not_found_as_text() {
    assert_eq!(TodoErrorMessage::NotFound.to_string(), "NotFound");
    assert_eq!(format!("{:?}", TodoErrorMessage::NotFound), "NotFound");
    assert!(contains(&TodoErrorMessage::NotFound.to_string(), "NotFound"));
}

#[test]
fn todo_form_needs_a_title() {
    assert!(AddTodoModel { title: "x".to_string() }.validate().is_ok());
    assert!(AddTodoModel { title: " ".to_string() }.validate().is_ok());
    assert!(AddTodoModel { title: "é".to_string() }.validate().is_ok());
    assert_eq!(
        found(AddTodoModel { title: String::new() }.validate().unwrap_err()),
        expected(vec![("title", "Title cannot be empty")])
    );
}

#[test]
fn account_form_needs_a_name_and_three_characters_of_password() {
    let form = |username: &str, password: &str| RegisterUserModel {
        username: username.to_string(),
        password: password.to_string(),
    };
    assert!(form("a", "abc").validate().is_ok());
    assert!(form("alice", "secret").validate().is_ok());
    assert!(form("a", "日本語").validate().is_ok());
    assert_eq!(
        found(form("", "abc").validate().unwrap_err()),
        expected(vec![("username", "Username cannot be empty")])
    );
    assert_eq!(
        found(form("a", "ab").validate().unwrap_err()),
        expected(vec![("password", "Password cannot be empty, at least 3 characters")])
    );
    assert_eq!(
        found(form("a", "éé").validate().unwrap_err()),
        expected(vec![("password", "Password cannot be empty, at least 3 characters")])
    );
    assert_eq!(
        found(form("", "").validate().unwrap_err()),
        expected(vec![
            ("username", "Username cannot be empty"),
            ("password", "Password cannot be empty, at least 3 characters"),
        ])
    );
}

#[test]
fn copies_are_equal() {
    let at = chrono::DateTime::from_timestamp(1_700_000_000, 123).unwrap().naive_utc();
    let todo = TodoEntity {
        id: "1".to_string(),
        title: "t".to_string(),
        user_id: "u".to_string(),
        completed: true,
        created_at: at,
        updated_at: at,
    };
    let copy = todo.clone();
    assert_eq!(
        (copy.id, copy.title, copy.user_id, copy.completed, copy.created_at, copy.updated_at),
        ("1".to_string(), "t".to_string(), "u".to_string(), true, at, at)
    );
    let user = UserEntity {
        id: "1".to_string(),
        username: "n".to_string(),
        password: "p".to_string(),
        created_at: at,
        updated_at: at,
    };
    let copy = user.clone();
    assert_eq!(
        (copy.id, copy.username, copy.password, copy.created_at, copy.updated_at),
        ("1".to_string(), "n".to_string(), "p".to_string(), at, at)
    );
    assert_eq!(AddTodoEntity { title: "t".to_string() }.clone().title, "t");
    let form = RegisterUserEntity { username: "n".to_string(), password: "p".to_string() }.clone();
    assert_eq!((form.username.as_str(), form.password.as_str()), ("n", "p"));
}

#[test]
fn text_contains() {
    assert!(contains("", ""));
    assert!(contains("abc", ""));
    assert!(contains("abc", "abc"));
    assert!(contains("abc", "bc"));
    assert!(contains("aab", "ab"));
    assert!(contains("日本語", "本"));
    assert!(!contains("", "a"));
    assert!(!contains("ab", "abc"));
    assert!(!contains("abab", "aa"));
    for hay in ["", "a", "ab", "aba", "abab", "bbaab", "NotFoun", "xNotFoundx"] {
        for needle in ["", "a", "b", "ab", "ba", "aab", "NotFound"] {
            assert_eq!(contains(hay, needle), hay.contains(needle), "{:?} {:?}", hay, needle);
        }
    }
}
