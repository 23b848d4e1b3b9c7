//! The guard in front of the handlers: a request passes with the subject of
//! its access token, or not at all.

use vstd::prelude::*;
use crate::authentication::AuthError;
use crate::claims::PassportView;
use crate::clock::unix_now;
use crate::cookie_laws::{
    all_plain,
    header_of,
    is_name,
    is_plain,
    lemma_cookies_read_back,
    lookup,
    pair_text,
};
use crate::cookies::{cookie_value, get_cookie_value, is_whitespace, text_view, ACCESS_COOKIE};
use crate::session::{SessionKeys, SessionKeysView};
use crate::token::{is_token_char, is_token_text, verified, verify_toke_at};

verus! {

/// The subject that a request with the given `Cookie` header is let in as at
/// the time `now`, if it is let in: the header is there, it holds the cookie
/// `act`, and the cookie's value verifies under the access secret.
pub open spec fn admitted(keys: SessionKeysView, cookie_header: Option<Seq<char>>, now: int) -> Option<
    Seq<char>,
> {
    match cookie_header {
        None => None,
        Some(header) => match cookie_value(header, "act"@) {
            None => None,
            Some(token) => match verified(keys.access_secret, token, now) {
                Ok(claims) => Some(claims.sub),
                Err(_) => None,
            },
        },
    }
}

/// What the guard decided, as a mathematical value.
pub open spec fn decision_view(decision: Result<String, AuthError>) -> Option<Seq<char>> {
    match decision {
        Ok(subject) => Some(subject@),
        Err(_) => None,
    }
}

/// Decides on a request at the time `now`, in seconds since the Unix epoch,
/// from its `Cookie` header, if it has one that is text.
///
/// The request passes as the subject of its access token where the header
/// holds a cookie `act` whose value verifies under the access secret at
/// `now`. Every other request is `Unauthorized`, whatever it lacks.
pub fn user_authentication_at(keys: &SessionKeys, cookie_header: Option<String>, now: i64) -> (decision:
    Result<String, AuthError>)
    ensures
        decision_view(decision) == admitted(keys@, text_view(cookie_header), now as int),
        decision matches Err(e) ==> e == AuthError::Unauthorized,
{
    let header = match cookie_header {
        Some(header) => header,
        None => {
            return Err(AuthError::Unauthorized);
        },
    };
    let token = match get_cookie_value(header.as_str(), ACCESS_COOKIE) {
        Some(token) => token,
        None => {
            return Err(AuthError::Unauthorized);
        },
    };
    match verify_toke_at(keys.access_secret.clone(), token, now) {
        Ok(claims) => Ok(claims.sub),
        Err(_) => Err(AuthError::Unauthorized),
    }
}

/// Decides on a request at the time the clock shows.
///
/// A request without a header, or without the cookie `act` in it, is
/// `Unauthorized` whatever the clock shows. Any other gets what
/// [`user_authentication_at`] decides for some reading of the clock.
pub fn user_authentication(keys: &SessionKeys, cookie_header: Option<String>) -> (decision: Result<
    String,
    AuthError,
>)
    ensures
        exists|now: i64|
            decision_view(decision) == #[trigger] admitted(
                keys@,
                text_view(cookie_header),
                now as int,
            ),
        decision matches Err(e) ==> e == AuthError::Unauthorized,
{
    let now: i64 = unix_now();
    user_authentication_at(keys, cookie_header, now)
}

/// A request without a `Cookie` header is let in at no time.
pub proof fn lemma_no_header_no_entry(keys: SessionKeysView, now: int)
    ensures
        admitted(keys, None, now) is None,
{
}

/// A request whose header carries plain pairs is decided by the first pair
/// named `act`: it is let in as the subject that the pair's value verifies
/// to under the access secret, and not at all where there is no such pair
/// or the value does not verify.
pub proof fn lemma_first_access_cookie_decides(
    keys: SessionKeysView,
    pairs: Seq<(Seq<char>, Seq<char>)>,
    now: int,
)
    requires
        all_plain(pairs),
    ensures
        admitted(keys, Some(header_of(pairs)), now) == match lookup(pairs, "act"@) {
            None => None,
            Some(token) => match verified(keys.access_secret, token, now) {
                Ok(claims) => Some(claims.sub),
                Err(_) => None,
            },
        },
{
    lemma_cookies_read_back(pairs, "act"@);
}

/// The `Cookie` header of a client that sends a passport's two cookies back.
pub open spec fn passport_header(passport: PassportView) -> Seq<char> {
    header_of(seq![("act"@, passport.access_token), ("rft"@, passport.refresh_token)])
}

/// A request that sends a passport's two cookies back is let in as the
/// subject of the access token for as long as that token verifies; the
/// refresh token plays no part.
pub proof fn lemma_passport_passes_the_guard(keys: SessionKeysView, passport: PassportView, now: int)
    requires
        is_token_text(passport.access_token),
        is_token_text(passport.refresh_token),
    ensures
        passport_header(passport) == "act"@ + seq!['='] + passport.access_token + seq![';', ' ']
            + "rft"@ + seq!['='] + passport.refresh_token,
        admitted(keys, Some(passport_header(passport)), now) == match verified(
            keys.access_secret,
            passport.access_token,
            now,
        ) {
            Ok(claims) => Some(claims.sub),
            Err(_) => None,
        },
{
    reveal_strlit("act");
    reveal_strlit("rft");
    let pairs = seq![("act"@, passport.access_token), ("rft"@, passport.refresh_token)];
    assert(all_plain(pairs)) by {
        assert forall|i: int| 0 <= i < pairs.len() implies is_name((#[trigger] pairs[i]).0)
            && is_plain(pairs[i].1) by {
            let value = pairs[i].1;
            assert forall|j: int| 0 <= j < value.len() implies !is_whitespace(#[trigger] value[j])
                && value[j] != ';' by {
                assert(is_token_char(value[j]));
            }
        }
    }
    lemma_first_access_cookie_decides(keys, pairs, now);
    assert(pairs.drop_first() == seq![("rft"@, passport.refresh_token)]);
    assert(header_of(pairs.drop_first()) == pair_text(("rft"@, passport.refresh_token)));
}

} // verus!
