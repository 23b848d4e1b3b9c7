//! The authentication service: a login with credentials, and a refresh with
//! a refresh token.
//!
//! Looking an account up is the caller's work: a login takes what the lookup
//! found. A refresh asks no store at all; it trusts the refresh token's
//! signature.

use vstd::prelude::*;
use crate::claims::{ClaimsView, Passport, PassportView};
use crate::clock::unix_now;
use crate::credentials::LoginModel;
use crate::domain::entities::UserEntity;
use crate::session::{
    access_claims,
    can_issue_at,
    can_rotate_at,
    carries,
    issuable,
    issue,
    issued,
    passport_of,
    refresh_claims,
    rotatable,
    rotate,
    rotated,
    rotated_claims,
    SessionKeys,
    SessionKeysView,
};
use crate::token::{
    hs256_opened,
    hs256_token,
    verified,
    verify_toke_at,
    PayloadView,
    Rejection,
    TokenError,
};

verus! {

/// Why a login or a refresh was turned down.
#[derive(Debug, Clone, Copy, PartialEq, Eq, Structural)]
pub enum AuthError {
    /// The lookup found no account.
    UserNotFound,
    /// The account's password is not the one supplied.
    InvalidCredentials,
    /// The refresh token did not verify: a bad signature, an expired or an
    /// unreadable token.
    Unauthorized,
    /// The encoder failed to produce a token.
    Signing,
    /// The clock shows a time for which no token can be made out.
    ClockOutOfRange,
}

impl AuthError {
    /// The error as a message.
    pub fn to_string(&self) -> (text: String)
        ensures
            text@ == match *self {
                AuthError::UserNotFound => "User not found"@,
                AuthError::InvalidCredentials => "Invalid password"@,
                AuthError::Unauthorized => "Unauthorized"@,
                AuthError::Signing => "Token signing failed"@,
                AuthError::ClockOutOfRange => "Clock out of range"@,
            },
    {
        match self {
            AuthError::UserNotFound => String::from_str("User not found"),
            AuthError::InvalidCredentials => String::from_str("Invalid password"),
            AuthError::Unauthorized => String::from_str("Unauthorized"),
            AuthError::Signing => String::from_str("Token signing failed"),
            AuthError::ClockOutOfRange => String::from_str("Clock out of range"),
        }
    }
}

/// The mathematical value of a login's or a refresh's result.
pub open spec fn auth_result_view(result: Result<Passport, AuthError>) -> Result<
    PassportView,
    AuthError,
> {
    match result {
        Ok(passport) => Ok(passport@),
        Err(e) => Err(e),
    }
}

/// An issuer's result as the service reports it.
pub open spec fn as_auth_result(result: Result<PassportView, TokenError>) -> Result<
    PassportView,
    AuthError,
> {
    match result {
        Ok(passport) => Ok(passport),
        Err(_) => Err(AuthError::Signing),
    }
}

/// Whether the credentials pass against what the lookup found, and if not,
/// why: `UserNotFound` without an account, `InvalidCredentials` with an
/// account whose password differs. On success the value is the account's
/// identifier.
pub open spec fn subject_of(found: Option<UserEntity>, login_model: LoginModel) -> Result<
    Seq<char>,
    AuthError,
> {
    match found {
        None => Err(AuthError::UserNotFound),
        Some(user) => if user.password@ == login_model.password@ {
            Ok(user.id@)
        } else {
            Err(AuthError::InvalidCredentials)
        },
    }
}

/// What a login at `now` yields.
pub open spec fn login_outcome(
    keys: SessionKeysView,
    found: Option<UserEntity>,
    login_model: LoginModel,
    now: int,
) -> Result<PassportView, AuthError> {
    match subject_of(found, login_model) {
        Err(e) => Err(e),
        Ok(sub) => as_auth_result(issued(keys, sub, now)),
    }
}

/// What a refresh at `now` yields: `Unauthorized` where the token does not
/// verify under the refresh secret, else the rotated passport.
pub open spec fn refresh_outcome(keys: SessionKeysView, refresh_token: Seq<char>, now: int) -> Result<
    PassportView,
    AuthError,
> {
    match verified(keys.refresh_secret, refresh_token, now) {
        Err(_) => Err(AuthError::Unauthorized),
        Ok(previous) => as_auth_result(rotated(keys, previous, now)),
    }
}

/// Checks the credentials against what the lookup found.
///
/// The password is compared with the stored one as it stands. A store that
/// keeps something else than the password decides for itself and asks
/// [`issue`] for the passport.
pub fn check_credentials(found: Option<UserEntity>, login_model: &LoginModel) -> (result: Result<
    String,
    AuthError,
>)
    ensures
        match result {
            Ok(sub) => subject_of(found, *login_model) == Ok::<Seq<char>, AuthError>(sub@),
            Err(e) => subject_of(found, *login_model) == Err::<Seq<char>, AuthError>(e),
        },
{
    match found {
        None => Err(AuthError::UserNotFound),
        Some(user) => {
            if user.password == login_model.password {
                Ok(user.id)
            } else {
                Err(AuthError::InvalidCredentials)
            }
        },
    }
}

/// The authentication service, holding the signing secrets it was set up
/// with.
#[derive(Debug)]
pub struct AuthenticationUseCase {
    pub keys: SessionKeys,
}

impl AuthenticationUseCase {
    /// A service that signs with the given secrets.
    pub fn new(keys: SessionKeys) -> (service: Self)
        ensures
            service.keys == keys,
    {
        AuthenticationUseCase { keys }
    }

    /// Logs in at the time `now`, in seconds since the Unix epoch, with what
    /// the lookup of `login_model.username` found.
    ///
    /// Without an account the result is `UserNotFound`; with one whose
    /// password differs, `InvalidCredentials`. Otherwise it is the passport
    /// issued to the account's identifier at `now`, whose tokens verify to
    /// their claims until they expire, or `Signing` where the encoder fails.
    pub fn login_at(&self, found: Option<UserEntity>, login_model: LoginModel, now: i64) -> (result:
        Result<Passport, AuthError>)
        requires
            can_issue_at(now as int),
        ensures
            auth_result_view(result) == login_outcome(self.keys@, found, login_model, now as int),
            result matches Ok(passport) ==> subject_of(found, login_model) matches Ok(sub)
                && carries(
                self.keys@,
                passport@,
                access_claims(sub, now as int),
                refresh_claims(sub, now as int),
            ),
    {
        let subject = match check_credentials(found, &login_model) {
            Ok(subject) => subject,
            Err(e) => {
                return Err(e);
            },
        };
        match issue(&self.keys, subject, now) {
            Ok(passport) => Ok(passport),
            Err(_) => Err(AuthError::Signing),
        }
    }

    /// Logs in at the time the clock shows.
    ///
    /// Credentials that do not pass fail as in [`Self::login_at`], whatever
    /// the clock shows. Credentials that pass give what `login_at` gives for
    /// some reading of the clock, or `ClockOutOfRange` where the reading
    /// admits no tokens.
    pub fn login(&self, found: Option<UserEntity>, login_model: LoginModel) -> (result: Result<
        Passport,
        AuthError,
    >)
        ensures
            subject_of(found, login_model) matches Err(e) ==> result == Err::<Passport, AuthError>(
                e,
            ),
            subject_of(found, login_model) is Ok ==> result == Err::<Passport, AuthError>(
                AuthError::ClockOutOfRange,
            ) || exists|now: i64|
                can_issue_at(now as int) && auth_result_view(result) == #[trigger] login_outcome(
                    self.keys@,
                    found,
                    login_model,
                    now as int,
                ),
    {
        let subject = match check_credentials(found, &login_model) {
            Ok(subject) => subject,
            Err(e) => {
                return Err(e);
            },
        };
        let now: i64 = unix_now();
        if !issuable(now) {
            return Err(AuthError::ClockOutOfRange);
        }
        let result = match issue(&self.keys, subject, now) {
            Ok(passport) => Ok(passport),
            Err(_) => Err(AuthError::Signing),
        };
        assert(auth_result_view(result) == login_outcome(
            self.keys@,
            found,
            login_model,
            now as int,
        ));
        result
    }

    /// Refreshes a session at the time `now`, in seconds since the Unix
    /// epoch.
    ///
    /// A token that does not verify under the refresh secret at `now` gives
    /// `Unauthorized`. One that does gives a passport for the same subject:
    /// an access token issued at `now` for a day, and a refresh token issued
    /// at `now` that expires when the presented one does. The only other
    /// error is `Signing`.
    pub fn refresh_token_at(&self, refresh_token: String, now: i64) -> (result: Result<
        Passport,
        AuthError,
    >)
        requires
            can_rotate_at(now as int),
        ensures
            auth_result_view(result) == refresh_outcome(self.keys@, refresh_token@, now as int),
            result matches Ok(passport) ==> verified(
                self.keys@.refresh_secret,
                refresh_token@,
                now as int,
            ) matches Ok(previous) && carries(
                self.keys@,
                passport@,
                access_claims(previous.sub, now as int),
                rotated_claims(previous, now as int),
            ),
    {
        let previous = match verify_toke_at(self.keys.refresh_secret.clone(), refresh_token, now) {
            Ok(claims) => claims,
            Err(_) => {
                return Err(AuthError::Unauthorized);
            },
        };
        match rotate(&self.keys, &previous, now) {
            Ok(passport) => Ok(passport),
            Err(_) => Err(AuthError::Signing),
        }
    }

    /// Refreshes a session at the time the clock shows.
    ///
    /// The result is what [`Self::refresh_token_at`] gives for some reading
    /// of the clock, or `ClockOutOfRange` where the reading admits no
    /// tokens.
    pub fn refresh_token(&self, refresh_token: String) -> (result: Result<Passport, AuthError>)
        ensures
            result == Err::<Passport, AuthError>(AuthError::ClockOutOfRange) || exists|now: i64|
                can_rotate_at(now as int) && auth_result_view(result) == #[trigger] refresh_outcome(
                    self.keys@,
                    refresh_token@,
                    now as int,
                ),
    {
        let now: i64 = unix_now();
        if !rotatable(now) {
            return Err(AuthError::ClockOutOfRange);
        }
        self.refresh_token_at(refresh_token, now)
    }
}

/// A login without an account is `UserNotFound`, a login with an account
/// and another password is `InvalidCredentials`, at whatever time and
/// under whatever secrets.
pub proof fn lemma_failed_logins(
    keys: SessionKeysView,
    found: Option<UserEntity>,
    login_model: LoginModel,
    now: int,
)
    ensures
        found is None ==> login_outcome(keys, found, login_model, now) == Err::<
            PassportView,
            AuthError,
        >(AuthError::UserNotFound),
        found matches Some(user) && user.password@ != login_model.password@ ==> login_outcome(
            keys,
            found,
            login_model,
            now,
        ) == Err::<PassportView, AuthError>(AuthError::InvalidCredentials),
{
}

/// The two secrets keep the kinds of token apart: no token signed under one
/// is accepted under the other.
///
/// Nothing here proves this of any pair of secrets: it is what a keyed hash
/// is relied on for. It fails of a short secret and the same secret followed
/// by zero bytes, which sign alike.
pub open spec fn keeps_kinds_apart(keys: SessionKeysView) -> bool {
    &&& forall|claims: ClaimsView| #[trigger]
        hs256_token(keys.access_secret, claims) matches Some(token) ==> hs256_opened(
            keys.refresh_secret,
            token,
        ) == Err::<PayloadView, Rejection>(Rejection::Signature)
    &&& forall|claims: ClaimsView| #[trigger]
        hs256_token(keys.refresh_secret, claims) matches Some(token) ==> hs256_opened(
            keys.access_secret,
            token,
        ) == Err::<PayloadView, Rejection>(Rejection::Signature)
}

/// Under secrets that keep the kinds apart, a token of one kind fails as
/// `InvalidSignature` under the other secret, whatever its claims and
/// whatever the time; so an access token refreshes no session.
pub proof fn lemma_wrong_kind_is_turned_down(
    keys: SessionKeysView,
    claims: ClaimsView,
    token: Seq<char>,
    now: int,
)
    requires
        keeps_kinds_apart(keys),
    ensures
        hs256_token(keys.access_secret, claims) == Some(token) ==> verified(
            keys.refresh_secret,
            token,
            now,
        ) == Err::<ClaimsView, TokenError>(TokenError::InvalidSignature),
        hs256_token(keys.refresh_secret, claims) == Some(token) ==> verified(
            keys.access_secret,
            token,
            now,
        ) == Err::<ClaimsView, TokenError>(TokenError::InvalidSignature),
        hs256_token(keys.access_secret, claims) == Some(token) ==> refresh_outcome(
            keys,
            token,
            now,
        ) == Err::<PassportView, AuthError>(AuthError::Unauthorized),
{
}

/// A refresh never moves the end of a session. Where the presented token
/// verifies to the refresh claims of a login at the time `login`, the
/// refresh token handed back is signed from claims that expire seven days
/// after `login`, whenever the refresh takes place; the access token is a
/// new one for a day from the refresh.
pub proof fn lemma_refresh_keeps_session_end(
    keys: SessionKeysView,
    sub: Seq<char>,
    login: int,
    refresh_token: Seq<char>,
    now: int,
)
    requires
        verified(keys.refresh_secret, refresh_token, now) == Ok::<ClaimsView, TokenError>(
            refresh_claims(sub, login),
        ),
    ensures
        refresh_outcome(keys, refresh_token, now) == as_auth_result(
            passport_of(
                keys,
                ClaimsView { sub, exp: now + 86_400, iat: now },
                ClaimsView { sub, exp: login + 604_800, iat: now },
            ),
        ),
{
}

} // verus!
