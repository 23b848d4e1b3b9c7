//! The replies to a login and to a refresh.

use vstd::prelude::*;
use crate::authentication::{
    auth_result_view,
    login_outcome,
    refresh_outcome,
    subject_of,
    AuthError,
    AuthenticationUseCase,
};
use crate::claims::{Passport, PassportView};
use crate::cookies::{cookie_text, session_cookie, ACCESS_COOKIE, REFRESH_COOKIE};
use crate::credentials::LoginModel;
use crate::domain::entities::UserEntity;
use crate::http::reply::{
    error_reply,
    Body,
    BodyView,
    Reply,
    ReplyView,
    BAD_REQUEST,
    OK,
    UNAUTHORIZED,
};
use crate::session::{can_issue_at, can_rotate_at, SessionKeysView};

verus! {

/// The two `Set-Cookie` values that carry a passport: `act` with the access
/// token, then `rft` with the refresh token.
pub open spec fn passport_cookies(passport: PassportView) -> Seq<Seq<char>> {
    seq![cookie_text("act"@, passport.access_token), cookie_text("rft"@, passport.refresh_token)]
}

/// The reply that hands a passport out: 200, the two cookies, and `text`
/// under `message`.
pub open spec fn passport_reply(passport: PassportView, text: Seq<char>) -> ReplyView<()> {
    ReplyView { status: 200, cookies: passport_cookies(passport), body: BodyView::Message(text) }
}

/// The reply to a login with the given outcome: the passport with
/// `Login Successfully`, or, for every error alike, 401 with `Unauthorized`
/// under `error`.
pub open spec fn login_reply(outcome: Result<PassportView, AuthError>) -> ReplyView<()> {
    match outcome {
        Ok(passport) => passport_reply(passport, "Login Successfully"@),
        Err(_) => error_reply(401, "Unauthorized"@),
    }
}

/// The reply to a refresh: 400 with `Bad Request` under `error` where the
/// request had no refresh cookie; else the passport with
/// `Refresh token successfully`, or, for every error alike, 401 with
/// `Unauthorized` under `error`.
pub open spec fn refresh_reply(outcome: Option<Result<PassportView, AuthError>>) -> ReplyView<()> {
    match outcome {
        None => error_reply(400, "Bad Request"@),
        Some(Ok(passport)) => passport_reply(passport, "Refresh token successfully"@),
        Some(Err(_)) => error_reply(401, "Unauthorized"@),
    }
}

/// Writes the reply that hands `passport` out with the message `text`.
fn hand_out(passport: &Passport, text: &str) -> (reply: Reply<()>)
    ensures
        reply@ == passport_reply(passport@, text@),
{
    let mut cookies: Vec<String> = Vec::new();
    cookies.push(session_cookie(ACCESS_COOKIE, passport.access_token.as_str()));
    cookies.push(session_cookie(REFRESH_COOKIE, passport.refresh_token.as_str()));
    let reply = Reply { status: OK, cookies, body: Body::Message(String::from_str(text)) };
    assert(reply@.cookies =~= passport_cookies(passport@));
    reply
}

/// The reply that turns a client away.
fn turn_away() -> (reply: Reply<()>)
    ensures
        reply@ == error_reply::<()>(401, "Unauthorized"@),
{
    Reply::plain(UNAUTHORIZED, Body::Error(String::from_str("Unauthorized")))
}

/// Writes the reply to a login from its outcome.
pub fn reply_to_login(outcome: Result<Passport, AuthError>) -> (reply: Reply<()>)
    ensures
        reply@ == login_reply(auth_result_view(outcome)),
{
    match outcome {
        Ok(passport) => hand_out(&passport, "Login Successfully"),
        Err(_) => turn_away(),
    }
}

/// Writes the reply to a refresh from its outcome, `None` standing for a
/// request without a refresh cookie.
pub fn reply_to_refresh(outcome: Option<Result<Passport, AuthError>>) -> (reply: Reply<()>)
    ensures
        reply@ == refresh_reply(
            match outcome {
                Some(result) => Some(auth_result_view(result)),
                None => None,
            },
        ),
{
    match outcome {
        None => Reply::plain(BAD_REQUEST, Body::Error(String::from_str("Bad Request"))),
        Some(Ok(passport)) => hand_out(&passport, "Refresh token successfully"),
        Some(Err(_)) => turn_away(),
    }
}

/// Serves a login at the time `now`, with what the lookup of the user name
/// found.
pub fn login_at(
    service: &AuthenticationUseCase,
    found: Option<UserEntity>,
    login_model: LoginModel,
    now: i64,
) -> (reply: Reply<()>)
    requires
        can_issue_at(now as int),
    ensures
        reply@ == login_reply(login_outcome(service.keys@, found, login_model, now as int)),
{
    reply_to_login(service.login_at(found, login_model, now))
}

/// Serves a login at the time the clock shows.
///
/// Credentials that do not pass are answered with 401 whatever the clock
/// shows. Credentials that pass get the reply of [`login_at`] for some
/// reading of the clock, or 401 where the reading admits no tokens.
pub fn login(service: &AuthenticationUseCase, found: Option<UserEntity>, login_model: LoginModel) -> (reply:
    Reply<()>)
    ensures
        subject_of(found, login_model) is Err ==> reply@ == error_reply::<()>(401, "Unauthorized"@),
        subject_of(found, login_model) is Ok ==> reply@ == error_reply::<()>(401, "Unauthorized"@)
            || exists|now: i64|
            can_issue_at(now as int) && reply@ == login_reply(
                #[trigger] login_outcome(service.keys@, found, login_model, now as int),
            ),
{
    reply_to_login(service.login(found, login_model))
}

/// Serves a refresh at the time `now`, with the value of the refresh cookie
/// where the request had one.
pub fn refresh_token_at(service: &AuthenticationUseCase, refresh_cookie: Option<String>, now: i64) -> (reply:
    Reply<()>)
    requires
        can_rotate_at(now as int),
    ensures
        reply@ == refresh_reply(
            match refresh_cookie {
                Some(token) => Some(refresh_outcome(service.keys@, token@, now as int)),
                None => None,
            },
        ),
{
    match refresh_cookie {
        Some(token) => reply_to_refresh(Some(service.refresh_token_at(token, now))),
        None => reply_to_refresh(None),
    }
}

/// Serves a refresh at the time the clock shows.
///
/// A request without a refresh cookie is answered with 400 whatever the
/// clock shows. Any other gets the reply of [`refresh_token_at`] for some
/// reading of the clock, or 401 where the reading admits no tokens.
pub fn refresh_token(service: &AuthenticationUseCase, refresh_cookie: Option<String>) -> (reply: Reply<
    (),
>)
    ensures
        refresh_cookie is None ==> reply@ == error_reply::<()>(400, "Bad Request"@),
        refresh_cookie matches Some(token) ==> reply@ == error_reply::<()>(401, "Unauthorized"@)
            || exists|now: i64|
            can_rotate_at(now as int) && reply@ == refresh_reply(
                Some(#[trigger] refresh_outcome(service.keys@, token@, now as int)),
            ),
{
    match refresh_cookie {
        Some(token) => reply_to_refresh(Some(service.refresh_token(token))),
        None => reply_to_refresh(None),
    }
}

/// Every failed login is answered alike, whatever made it fail: a login
/// without an account and a login with a wrong password both get 401 with
/// `Unauthorized`, and no cookie.
pub proof fn lemma_failed_logins_look_alike(
    keys: SessionKeysView,
    found: Option<UserEntity>,
    login_model: LoginModel,
    now: int,
)
    requires
        subject_of(found, login_model) is Err,
    ensures
        login_reply(login_outcome(keys, found, login_model, now)) == error_reply::<()>(
            401,
            "Unauthorized"@,
        ),
        forall|first: AuthError, second: AuthError|
            login_reply(Err(first)) == login_reply(Err(second)),
{
}

/// A request without a refresh cookie and one with a token that is turned
/// down are answered differently: 400 and 401.
pub proof fn lemma_missing_cookie_is_not_a_bad_token(error: AuthError)
    ensures
        refresh_reply(None).status == 400,
        refresh_reply(Some(Err(error))).status == 401,
{
}

} // verus!
