use todos_api::authentication::{check_credentials, AuthError, AuthenticationUseCase};
use todos_api::claims::Claims;
use todos_api::credentials::LoginModel;
use todos_api::domain::entities::{RegisterUserEntity, UserEntity};
use todos_api::repositories::users::UsersAppState;
use todos_api::session::SessionKeys;
use todos_api::token::{generate_token, verify_toke, verify_toke_at};

const T0: i64 = 1_700_000_000;
const DAY: usize = 86_400;
const WEEK: usize = 604_800;

fn service() -> AuthenticationUseCase {
    AuthenticationUseCase::new(SessionKeys {
        access_secret: "secret".to_string(),
        refresh_secret: "refresh_secret".to_string(),
    })
}

fn alice() -> UserEntity {
    let at = chrono::DateTime::from_timestamp(T0, 0).unwrap().naive_utc();
    UserEntity {
        id: "7f3c".to_string(),
        username: "alice".to_string(),
        password: "secret".to_string(),
        created_at: at,
        updated_at: at,
    }
}

fn credentials(username: &str, password: &str) -> LoginModel {
    LoginModel { username: username.to_string(), password: password.to_string() }
}

#[test]
fn service_keeps_its_keys() {
    let service = service();
    assert_eq!(service.keys.access_secret, "secret");
    assert_eq!(service.keys.refresh_secret, "refresh_secret");
}

#[test]
fn unknown_user_is_not_found() {
    let result = service().login_at(None, credentials("bob", "secret"), T0);
    assert_eq!(result.unwrap_err(), AuthError::UserNotFound);
    let result = service().login(None, credentials("bob", "secret"));
    assert_eq!(result.unwrap_err(), AuthError::UserNotFound);
}

#[test]
fn wrong_password_is_invalid_credentials() {
    for password in ["", "Secret", "secret ", "secre", "secrett"] {
        let result = service().login_at(Some(alice()), credentials("alice", password), T0);
        assert_eq!(result.unwrap_err(), AuthError::InvalidCredentials);
        let result = service().login(Some(alice()), credentials("alice", password));
        assert_eq!(result.unwrap_err(), AuthError::InvalidCredentials);
    }
}

#[test]
fn credentials_give_the_account_identifier() {
    assert_eq!(check_credentials(Some(alice()), &credentials("alice", "secret")).unwrap(), "7f3c");
    assert_eq!(
        check_credentials(Some(alice()), &credentials("alice", "x")).unwrap_err(),
        AuthError::InvalidCredentials
    );
    assert_eq!(
        check_credentials(None, &credentials("alice", "secret")).unwrap_err(),
        AuthError::UserNotFound
    );
}

#[test]
fn login_gives_a_passport_for_the_account() {
    let passport = service().login_at(Some(alice()), credentials("alice", "secret"), T0).unwrap();
    let access = verify_toke_at("secret".to_string(), passport.access_token, T0).unwrap();
    assert_eq!(access.sub, "7f3c");
    assert_eq!(access.iat, T0 as usize);
    assert_eq!(access.exp - access.iat, DAY);
    let refresh = verify_toke_at("refresh_secret".to_string(), passport.refresh_token, T0).unwrap();
    assert_eq!(refresh.sub, "7f3c");
    assert_eq!(refresh.iat, T0 as usize);
    assert_eq!(refresh.exp - refresh.iat, WEEK);
}

#[test]
fn login_against_a_store() {
    let mut store = UsersAppState::new();
    store.register(RegisterUserEntity {
        username: "alice".to_string(),
        password: "secret".to_string(),
    });
    let form = credentials("alice", "secret");
    let found = store.find_by_username(form.username.clone());
    let id = found.as_ref().unwrap().id.clone();
    let passport = service().login(found, form).unwrap();
    let access = verify_toke("secret".to_string(), passport.access_token).unwrap();
    assert_eq!(access.sub, id);
    assert_eq!(access.exp - access.iat, DAY);
    let refresh = verify_toke("refresh_secret".to_string(), passport.refresh_token).unwrap();
    assert_eq!(refresh.sub, id);
    assert_eq!(refresh.exp - refresh.iat, WEEK);
    assert_eq!(refresh.iat, access.iat);
}

#[test]
fn login_against_a_store_without_the_user() {
    let mut store = UsersAppState::new();
    store.register(RegisterUserEntity {
        username: "alice".to_string(),
        password: "secret".to_string(),
    });
    let form = credentials("bob", "secret");
    let found = store.find_by_username(form.username.clone());
    assert_eq!(service().login(found, form).unwrap_err(), AuthError::UserNotFound);
}

#[test]
fn refresh_rotates_and_keeps_the_session_end() {
    let service = service();
    let first = service.login_at(Some(alice()), credentials("alice", "secret"), T0).unwrap();
    let now = T0 + 3 * DAY as i64;
    let second = service.refresh_token_at(first.refresh_token.clone(), now).unwrap();
    assert_ne!(second.refresh_token, first.refresh_token);
    assert_ne!(second.access_token, first.access_token);
    let access = verify_toke_at("secret".to_string(), second.access_token, now).unwrap();
    assert_eq!(access.sub, "7f3c");
    assert_eq!(access.iat, now as usize);
    assert_eq!(access.exp, now as usize + DAY);
    let refresh = verify_toke_at("refresh_secret".to_string(), second.refresh_token.clone(), now).unwrap();
    assert_eq!(refresh.sub, "7f3c");
    assert_eq!(refresh.iat, now as usize);
    assert_eq!(refresh.exp, T0 as usize + WEEK);
    assert_ne!(refresh.exp, now as usize + WEEK);
}

#[test]
fn session_ends_a_week_after_the_login_however_often_it_is_refreshed() {
    let service = service();
    let mut passport = service.login_at(Some(alice()), credentials("alice", "secret"), T0).unwrap();
    for day in 1..=7 {
        let now = T0 + day * DAY as i64;
        passport = service.refresh_token_at(passport.refresh_token.clone(), now).unwrap();
        let refresh =
            verify_toke_at("refresh_secret".to_string(), passport.refresh_token.clone(), now).unwrap();
        assert_eq!(refresh.exp, T0 as usize + WEEK);
        assert_eq!(refresh.iat, now as usize);
    }
    let late = T0 + WEEK as i64 + 1;
    assert_eq!(
        service.refresh_token_at(passport.refresh_token.clone(), late).unwrap_err(),
        AuthError::Unauthorized
    );
    let access = verify_toke_at("secret".to_string(), passport.access_token, late).unwrap();
    assert_eq!(access.exp, T0 as usize + WEEK + DAY);
}

#[test]
fn refresh_turns_down_what_is_no_refresh_token() {
    let service = service();
    let passport = service.login_at(Some(alice()), credentials("alice", "secret"), T0).unwrap();
    for token in [passport.access_token.as_str(), "", "a.b.c", "garbage"] {
        assert_eq!(
            service.refresh_token_at(token.to_string(), T0).unwrap_err(),
            AuthError::Unauthorized
        );
        assert_eq!(service.refresh_token(token.to_string()).unwrap_err(), AuthError::Unauthorized);
    }
}

#[test]
fn refresh_turns_down_an_expired_token() {
    let service = service();
    let passport = service.login_at(Some(alice()), credentials("alice", "secret"), T0).unwrap();
    assert!(service.refresh_token_at(passport.refresh_token.clone(), T0 + WEEK as i64).is_ok());
    assert_eq!(
        service.refresh_token_at(passport.refresh_token.clone(), T0 + WEEK as i64 + 1).unwrap_err(),
        AuthError::Unauthorized
    );
    let long_ago = service.login_at(Some(alice()), credentials("alice", "secret"), 0).unwrap();
    assert_eq!(service.refresh_token(long_ago.refresh_token).unwrap_err(), AuthError::Unauthorized);
}

#[test]
fn refresh_by_the_clock() {
    let service = service();
    let lasting = Claims { sub: "7f3c".to_string(), exp: usize::MAX, iat: 0 };
    let token = generate_token("refresh_secret".to_string(), &lasting).unwrap();
    let passport = service.refresh_token(token).unwrap();
    let access = verify_toke("secret".to_string(), passport.access_token).unwrap();
    assert_eq!(access.sub, "7f3c");
    assert_eq!(access.exp - access.iat, DAY);
    let refresh = verify_toke("refresh_secret".to_string(), passport.refresh_token).unwrap();
    assert_eq!(refresh.exp, usize::MAX);
    assert_eq!(refresh.iat, access.iat);
}

#[test]
fn errors_have_messages() {
    assert_eq!(AuthError::UserNotFound.to_string(), "User not found");
    assert_eq!(AuthError::InvalidCredentials.to_string(), "Invalid password");
    assert_eq!(AuthError::Unauthorized.to_string(), "Unauthorized");
    assert_eq!(AuthError::Signing.to_string(), "Token signing failed");
    assert_eq!(AuthError::ClockOutOfRange.to_string(), "Clock out of range");
}
