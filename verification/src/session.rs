//! The session issuer: a passport for a subject, and the passport that
//! follows it on a refresh.
//!
//! An access token lives for a day, a refresh token for a week. A refresh
//! gives the access token a new day and keeps the refresh token's expiry
//! where it was, so that a session ends a week after the login whatever
//! happens in between.

use vstd::prelude::*;
use crate::claims::{Claims, ClaimsView, Passport, PassportView};
use crate::token::{generate_token, hs256_token, is_token_text, verified, TokenError};

verus! {

/// Seconds an access token is accepted for: one day.
pub const ACCESS_TOKEN_LIFETIME: usize = 86_400;

/// Seconds a refresh token is accepted for: seven days.
pub const REFRESH_TOKEN_LIFETIME: usize = 604_800;

/// The two signing secrets, one for each kind of token.
#[derive(Debug)]
pub struct SessionKeys {
    pub access_secret: String,
    pub refresh_secret: String,
}

/// Mathematical value of a [`SessionKeys`].
pub struct SessionKeysView {
    pub access_secret: Seq<char>,
    pub refresh_secret: Seq<char>,
}

impl View for SessionKeys {
    type V = SessionKeysView;

    open spec fn view(&self) -> SessionKeysView {
        SessionKeysView { access_secret: self.access_secret@, refresh_secret: self.refresh_secret@ }
    }
}

impl Clone for SessionKeys {
    fn clone(&self) -> (copy: Self)
        ensures
            copy == *self,
    {
        SessionKeys {
            access_secret: self.access_secret.clone(),
            refresh_secret: self.refresh_secret.clone(),
        }
    }
}

/// The claims of an access token issued to `sub` at `now`.
pub open spec fn access_claims(sub: Seq<char>, now: int) -> ClaimsView {
    ClaimsView { sub, exp: now + ACCESS_TOKEN_LIFETIME, iat: now }
}

/// The claims of a refresh token issued to `sub` at `now`.
pub open spec fn refresh_claims(sub: Seq<char>, now: int) -> ClaimsView {
    ClaimsView { sub, exp: now + REFRESH_TOKEN_LIFETIME, iat: now }
}

/// The claims of the refresh token that replaces one with the claims
/// `previous` at `now`: the same subject and expiry, issued anew.
pub open spec fn rotated_claims(previous: ClaimsView, now: int) -> ClaimsView {
    ClaimsView { sub: previous.sub, exp: previous.exp, iat: now }
}

/// The passport made of the two sets of claims, each signed under the secret
/// of its kind; `Signing` where the encoder fails on either.
pub open spec fn passport_of(keys: SessionKeysView, access: ClaimsView, refresh: ClaimsView) -> Result<
    PassportView,
    TokenError,
> {
    match (hs256_token(keys.access_secret, access), hs256_token(keys.refresh_secret, refresh)) {
        (Some(access_token), Some(refresh_token)) => Ok(
            PassportView { refresh_token, access_token },
        ),
        _ => Err(TokenError::Signing),
    }
}

/// The passport issued to `sub` at `now`.
pub open spec fn issued(keys: SessionKeysView, sub: Seq<char>, now: int) -> Result<
    PassportView,
    TokenError,
> {
    passport_of(keys, access_claims(sub, now), refresh_claims(sub, now))
}

/// The passport that follows, at `now`, a refresh token with the claims
/// `previous`.
pub open spec fn rotated(keys: SessionKeysView, previous: ClaimsView, now: int) -> Result<
    PassportView,
    TokenError,
> {
    passport_of(keys, access_claims(previous.sub, now), rotated_claims(previous, now))
}

/// Both tokens of the passport are written in the alphabet of tokens, and
/// each verifies under its secret to the claims it was made from, at every
/// time up to its expiry.
pub open spec fn carries(
    keys: SessionKeysView,
    passport: PassportView,
    access: ClaimsView,
    refresh: ClaimsView,
) -> bool {
    &&& is_token_text(passport.access_token)
    &&& is_token_text(passport.refresh_token)
    &&& forall|at: int|
        at <= access.exp ==> #[trigger] verified(keys.access_secret, passport.access_token, at)
            == Ok::<ClaimsView, TokenError>(access)
    &&& forall|at: int|
        at <= refresh.exp ==> #[trigger] verified(keys.refresh_secret, passport.refresh_token, at)
            == Ok::<ClaimsView, TokenError>(refresh)
}

/// The mathematical value of an issuer's result.
pub open spec fn passport_result_view(result: Result<Passport, TokenError>) -> Result<
    PassportView,
    TokenError,
> {
    match result {
        Ok(passport) => Ok(passport@),
        Err(e) => Err(e),
    }
}

/// A login at `now` can be given tokens: the time is not negative and the
/// refresh token's expiry fits in `usize`.
pub open spec fn can_issue_at(now: int) -> bool {
    0 <= now && now + REFRESH_TOKEN_LIFETIME <= usize::MAX
}

/// A refresh at `now` can be given an access token: the time is not negative
/// and the access token's expiry fits in `usize`.
pub open spec fn can_rotate_at(now: int) -> bool {
    0 <= now && now + ACCESS_TOKEN_LIFETIME <= usize::MAX
}

/// Whether a login at `now` can be given tokens.
pub fn issuable(now: i64) -> (yes: bool)
    ensures
        yes == can_issue_at(now as int),
{
    now >= 0 && now as u64 <= usize::MAX as u64 && now as usize <= usize::MAX
        - REFRESH_TOKEN_LIFETIME
}

/// Whether a refresh at `now` can be given an access token.
pub fn rotatable(now: i64) -> (yes: bool)
    ensures
        yes == can_rotate_at(now as int),
{
    now >= 0 && now as u64 <= usize::MAX as u64 && now as usize <= usize::MAX
        - ACCESS_TOKEN_LIFETIME
}

/// Signs the two sets of claims into a passport.
fn sign_passport(keys: &SessionKeys, access: &Claims, refresh: &Claims) -> (result: Result<
    Passport,
    TokenError,
>)
    ensures
        passport_result_view(result) == passport_of(keys@, access@, refresh@),
        result matches Ok(passport) ==> carries(keys@, passport@, access@, refresh@),
{
    let access_token = match generate_token(keys.access_secret.clone(), access) {
        Ok(token) => token,
        Err(_) => {
            return Err(TokenError::Signing);
        },
    };
    let refresh_token = match generate_token(keys.refresh_secret.clone(), refresh) {
        Ok(token) => token,
        Err(_) => {
            return Err(TokenError::Signing);
        },
    };
    Ok(Passport { refresh_token, access_token })
}

/// Issues a passport to `subject` at the time `now`, in seconds since the
/// Unix epoch.
///
/// The access token's claims are issued at `now` and expire a day later, the
/// refresh token's are issued at `now` and expire seven days later, and each
/// token verifies to its claims until then. The only error is `Signing`,
/// when the encoder reports one.
pub fn issue(keys: &SessionKeys, subject: String, now: i64) -> (result: Result<Passport, TokenError>)
    requires
        can_issue_at(now as int),
    ensures
        passport_result_view(result) == issued(keys@, subject@, now as int),
        result matches Ok(passport) ==> carries(
            keys@,
            passport@,
            access_claims(subject@, now as int),
            refresh_claims(subject@, now as int),
        ),
{
    let issued_at: usize = now as usize;
    let access = Claims {
        sub: subject.clone(),
        exp: issued_at + ACCESS_TOKEN_LIFETIME,
        iat: issued_at,
    };
    let refresh = Claims { sub: subject, exp: issued_at + REFRESH_TOKEN_LIFETIME, iat: issued_at };
    sign_passport(keys, &access, &refresh)
}

/// Issues the passport that follows a refresh token with the claims
/// `previous`, at the time `now`.
///
/// The access token is a new one for the same subject, issued at `now` for a
/// day. The refresh token is issued at `now` too and keeps the expiry of the
/// one it replaces. The only error is `Signing`.
pub fn rotate(keys: &SessionKeys, previous: &Claims, now: i64) -> (result: Result<
    Passport,
    TokenError,
>)
    requires
        can_rotate_at(now as int),
    ensures
        passport_result_view(result) == rotated(keys@, previous@, now as int),
        result matches Ok(passport) ==> carries(
            keys@,
            passport@,
            access_claims(previous@.sub, now as int),
            rotated_claims(previous@, now as int),
        ),
{
    let issued_at: usize = now as usize;
    let access = Claims {
        sub: previous.sub.clone(),
        exp: issued_at + ACCESS_TOKEN_LIFETIME,
        iat: issued_at,
    };
    let refresh = Claims { sub: previous.sub.clone(), exp: previous.exp, iat: issued_at };
    sign_passport(keys, &access, &refresh)
}

/// The refresh claims of a session that began with `first` and was refreshed
/// at each of `times` in turn.
pub open spec fn rotated_through(first: ClaimsView, times: Seq<int>) -> ClaimsView
    decreases times.len(),
{
    if times.len() == 0 {
        first
    } else {
        rotated_claims(rotated_through(first, times.drop_last()), times.last())
    }
}

/// Claims issued by a login expire after they were issued: a day later for
/// the access token, seven days later for the refresh token.
pub proof fn lemma_issued_lifetimes(sub: Seq<char>, now: int)
    ensures
        access_claims(sub, now).well_formed(),
        refresh_claims(sub, now).well_formed(),
        access_claims(sub, now).exp - access_claims(sub, now).iat == 86_400,
        refresh_claims(sub, now).exp - refresh_claims(sub, now).iat == 604_800,
{
}

/// Refresh claims that replace others at a time at which those are still
/// accepted do not expire before they were issued; they expire in the very
/// second of their issue where the others were used in their last second.
pub proof fn lemma_rotated_claims_in_order(previous: ClaimsView, now: int)
    requires
        now <= previous.exp,
    ensures
        rotated_claims(previous, now).iat <= rotated_claims(previous, now).exp,
        rotated_claims(previous, now).well_formed() <==> now < previous.exp,
{
}

/// However often and whenever a session is refreshed, its refresh claims
/// keep the subject and the expiry of the first.
pub proof fn lemma_rotation_keeps_expiry(first: ClaimsView, times: Seq<int>)
    ensures
        rotated_through(first, times).exp == first.exp,
        rotated_through(first, times).sub == first.sub,
    decreases times.len(),
{
    if times.len() > 0 {
        lemma_rotation_keeps_expiry(first, times.drop_last());
    }
}

/// A session ends seven days after the login: that is when its refresh
/// claims expire, however often and whenever it was refreshed.
pub proof fn lemma_session_ends_a_week_after_login(sub: Seq<char>, login: int, times: Seq<int>)
    ensures
        rotated_through(refresh_claims(sub, login), times).exp == login + 604_800,
        rotated_through(refresh_claims(sub, login), times).sub == sub,
{
    lemma_rotation_keeps_expiry(refresh_claims(sub, login), times);
}

} // verus!
