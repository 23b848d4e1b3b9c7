use todos_api::authentication::AuthError;
use todos_api::claims::Claims;
use todos_api::http::middleware::{user_authentication, user_authentication_at};
use todos_api::session::{issue, SessionKeys};
use todos_api::token::generate_token;

const T0: i64 = 1_700_000_000;

fn keys() -> SessionKeys {
    SessionKeys { access_secret: "secret".to_string(), refresh_secret: "refresh_secret".to_string() }
}

fn header(passport: &todos_api::claims::Passport) -> String {
    format!("act={}; rft={}", passport.access_token, passport.refresh_token)
}

#[test]
fn request_without_a_cookie_header_is_unauthorized() {
    assert_eq!(user_authentication_at(&keys(), None, T0).unwrap_err(), AuthError::Unauthorized);
    assert_eq!(user_authentication(&keys(), None).unwrap_err(), AuthError::Unauthorized);
}

#[test]
fn request_without_the_access_cookie_is_unauthorized() {
    let passport = issue(&keys(), "alice".to_string(), T0).unwrap();
    for text in [
        String::new(),
        "theme=dark".to_string(),
        format!("rft={}", passport.refresh_token),
        format!("token={}", passport.access_token),
        format!("act;{}", passport.access_token),
    ] {
        assert_eq!(
            user_authentication_at(&keys(), Some(text.clone()), T0).unwrap_err(),
            AuthError::Unauthorized
        );
        assert_eq!(user_authentication(&keys(), Some(text)).unwrap_err(), AuthError::Unauthorized);
    }
}

#[test]
fn valid_access_token_resolves_the_subject() {
    let passport = issue(&keys(), "alice".to_string(), T0).unwrap();
    assert_eq!(user_authentication_at(&keys(), Some(header(&passport)), T0).unwrap(), "alice");
    assert_eq!(
        user_authentication_at(&keys(), Some(header(&passport)), T0 + 86_400).unwrap(),
        "alice"
    );
    let other_order = format!("rft={}; act={}", passport.refresh_token, passport.access_token);
    assert_eq!(user_authentication_at(&keys(), Some(other_order), T0).unwrap(), "alice");
}

#[test]
fn expired_access_token_is_unauthorized() {
    let passport = issue(&keys(), "alice".to_string(), T0).unwrap();
    assert_eq!(
        user_authentication_at(&keys(), Some(header(&passport)), T0 + 86_401).unwrap_err(),
        AuthError::Unauthorized
    );
    let long_ago = issue(&keys(), "alice".to_string(), 0).unwrap();
    assert_eq!(
        user_authentication(&keys(), Some(header(&long_ago))).unwrap_err(),
        AuthError::Unauthorized
    );
}

#[test]
fn refresh_token_does_not_pass_as_access_token() {
    let passport = issue(&keys(), "alice".to_string(), T0).unwrap();
    let swapped = format!("act={}", passport.refresh_token);
    assert_eq!(
        user_authentication_at(&keys(), Some(swapped), T0).unwrap_err(),
        AuthError::Unauthorized
    );
}

#[test]
fn first_access_cookie_decides() {
    let passport = issue(&keys(), "alice".to_string(), T0).unwrap();
    let shadowed = format!("act=garbage; act={}", passport.access_token);
    assert_eq!(
        user_authentication_at(&keys(), Some(shadowed), T0).unwrap_err(),
        AuthError::Unauthorized
    );
}

#[test]
fn decision_by_the_clock() {
    let lasting = Claims { sub: "alice".to_string(), exp: usize::MAX, iat: 0 };
    let token = generate_token("secret".to_string(), &lasting).unwrap();
    assert_eq!(user_authentication(&keys(), Some(format!("act={}", token))).unwrap(), "alice");
}
