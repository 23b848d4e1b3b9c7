//! The token codec: claims are signed into compact tokens and read back.
//!
//! Signing and signature checking are done by `jsonwebtoken` with HS256.
//! What it returns is named here, not defined: [`hs256_token`] is the token
//! it makes of a secret and claims, [`hs256_opened`] is what it finds in a
//! token under a secret. Whether a token has expired is decided in this
//! module, against a time that the caller gives: a token is accepted up to
//! and including the second in which it expires.

use vstd::prelude::*;
use crate::claims::{Claims, ClaimsView};
use crate::clock::unix_now;

verus! {

/// Why the codec turned a request down.
#[derive(Debug, Clone, Copy, PartialEq, Eq, Structural)]
pub enum TokenError {
    /// The encoder failed to produce a token.
    Signing,
    /// The signature is not the one the secret gives.
    InvalidSignature,
    /// The token's expiry lies before the time of the check.
    Expired,
    /// The token has no readable header or payload, or its payload lacks a
    /// claim.
    Malformed,
}

impl TokenError {
    /// The name of the error, as it is written in messages.
    pub fn to_string(&self) -> (text: String)
        ensures
            text@ == match *self {
                TokenError::Signing => "Signing"@,
                TokenError::InvalidSignature => "InvalidSignature"@,
                TokenError::Expired => "Expired"@,
                TokenError::Malformed => "Malformed"@,
            },
    {
        match self {
            TokenError::Signing => String::from_str("Signing"),
            TokenError::InvalidSignature => String::from_str("InvalidSignature"),
            TokenError::Expired => String::from_str("Expired"),
            TokenError::Malformed => String::from_str("Malformed"),
        }
    }
}

/// The three members of a payload that make up the claims, each as it was
/// read: `None` where the member is missing or holds another kind of value.
#[derive(Debug)]
pub struct Payload {
    pub sub: Option<String>,
    pub exp: Option<u64>,
    pub iat: Option<u64>,
}

/// Mathematical value of a [`Payload`].
pub struct PayloadView {
    pub sub: Option<Seq<char>>,
    pub exp: Option<u64>,
    pub iat: Option<u64>,
}

impl View for Payload {
    type V = PayloadView;

    open spec fn view(&self) -> PayloadView {
        PayloadView {
            sub: match self.sub {
                Some(text) => Some(text@),
                None => None,
            },
            exp: self.exp,
            iat: self.iat,
        }
    }
}

/// Why a token could not be opened.
#[derive(Debug, Clone, Copy, PartialEq, Eq, Structural)]
pub enum Rejection {
    /// Header and payload were read, and the signature does not fit them.
    Signature,
    /// Anything else: the shape, the encoding, the algorithm, a required
    /// claim.
    Other,
}

/// The token that `jsonwebtoken::encode` makes of the claims under the
/// secret, with its default header; `None` where it reports an error.
pub uninterp spec fn hs256_token(secret: Seq<char>, claims: ClaimsView) -> Option<Seq<char>>;

/// What `jsonwebtoken::decode` finds in the token under the secret, with its
/// default validation but for the expiry, which it is told to leave alone.
pub uninterp spec fn hs256_opened(secret: Seq<char>, token: Seq<char>) -> Result<
    PayloadView,
    Rejection,
>;

/// A character that tokens are written in: a letter or digit of ASCII, `-`
/// or `_` (the URL-safe base64 alphabet), or the `.` between the parts.
pub open spec fn is_token_char(c: char) -> bool {
    ||| 'A' <= c <= 'Z'
    ||| 'a' <= c <= 'z'
    ||| '0' <= c <= '9'
    ||| c == '-'
    ||| c == '_'
    ||| c == '.'
}

/// Text made of the characters that tokens are written in.
pub open spec fn is_token_text(text: Seq<char>) -> bool {
    forall|i: int| 0 <= i < text.len() ==> is_token_char(#[trigger] text[i])
}

/// The payload that holds exactly the given claims.
pub open spec fn payload_of(claims: ClaimsView) -> PayloadView {
    PayloadView {
        sub: Some(claims.sub),
        exp: Some(claims.exp as u64),
        iat: Some(claims.iat as u64),
    }
}

/// The claims that an opened token stands for at the time `now`.
///
/// A rejected signature is `InvalidSignature`, any other rejection is
/// `Malformed`. A payload needs all three claims, each within `usize`, or it
/// is `Malformed`. Complete claims are `Expired` once `now` has passed
/// their expiry.
pub open spec fn claims_at(opened: Result<PayloadView, Rejection>, now: int) -> Result<
    ClaimsView,
    TokenError,
> {
    match opened {
        Err(Rejection::Signature) => Err(TokenError::InvalidSignature),
        Err(Rejection::Other) => Err(TokenError::Malformed),
        Ok(payload) => match (payload.sub, payload.exp, payload.iat) {
            (Some(sub), Some(exp), Some(iat)) => if exp > usize::MAX || iat > usize::MAX {
                Err(TokenError::Malformed)
            } else if now > exp {
                Err(TokenError::Expired)
            } else {
                Ok(ClaimsView { sub, exp: exp as int, iat: iat as int })
            },
            _ => Err(TokenError::Malformed),
        },
    }
}

/// What verifying `token` under `secret` at the time `now` yields.
pub open spec fn verified(secret: Seq<char>, token: Seq<char>, now: int) -> Result<
    ClaimsView,
    TokenError,
> {
    claims_at(hs256_opened(secret, token), now)
}

/// The mathematical value of a verification's result.
pub open spec fn claims_result_view(result: Result<Claims, TokenError>) -> Result<
    ClaimsView,
    TokenError,
> {
    match result {
        Ok(claims) => Ok(claims@),
        Err(e) => Err(e),
    }
}

/// The mathematical value of an opened token.
pub open spec fn opened_view(opened: Result<Payload, Rejection>) -> Result<PayloadView, Rejection> {
    match opened {
        Ok(payload) => Ok(payload@),
        Err(e) => Err(e),
    }
}

/// Calls `jsonwebtoken::encode` with the default header (HS256), the secret's
/// bytes as the key and a JSON object that holds `sub`, `exp` and `iat` in
/// this order.
///
/// Trusted: the result is what [`hs256_token`] names. A token that comes out
/// is three parts in URL-safe base64 without padding, joined by `.`; and
/// `jsonwebtoken::decode` opens it again under the same secret, where it
/// yields the three claims that went in.
#[verifier::external_body]
fn sign_claims(secret: &str, claims: &Claims) -> (token: Option<String>)
    ensures
        match token {
            Some(text) => {
                &&& hs256_token(secret@, claims@) == Some(text@)
                &&& is_token_text(text@)
                &&& hs256_opened(secret@, text@) == Ok::<PayloadView, Rejection>(
                    payload_of(claims@),
                )
            },
            None => hs256_token(secret@, claims@) is None,
        },
{
    let mut members = serde_json::Map::new();
    members.insert("sub".to_string(), serde_json::Value::from(claims.sub.as_str()));
    members.insert("exp".to_string(), serde_json::Value::from(claims.exp));
    members.insert("iat".to_string(), serde_json::Value::from(claims.iat));
    let key = jsonwebtoken::EncodingKey::from_secret(secret.as_bytes());
    let header = jsonwebtoken::Header::default();
    jsonwebtoken::encode(&header, &serde_json::Value::Object(members), &key).ok()
}

/// Calls `jsonwebtoken::decode` with the secret's bytes as the key and the
/// default validation (HS256, `exp` required) with `validate_exp` switched
/// off, so that the outcome does not depend on the clock.
///
/// Trusted: the result is what [`hs256_opened`] names. An accepted token's
/// payload is handed over member by member; of the errors only
/// `InvalidSignature` is told apart.
#[verifier::external_body]
fn open_token(secret: &str, token: &str) -> (opened: Result<Payload, Rejection>)
    ensures
        opened_view(opened) == hs256_opened(secret@, token@),
{
    let mut validation = jsonwebtoken::Validation::default();
    validation.validate_exp = false;
    let key = jsonwebtoken::DecodingKey::from_secret(secret.as_bytes());
    match jsonwebtoken::decode::<serde_json::Value>(token, &key, &validation) {
        Ok(data) => Ok(Payload {
            sub: data.claims["sub"].as_str().map(str::to_string),
            exp: data.claims["exp"].as_u64(),
            iat: data.claims["iat"].as_u64(),
        }),
        Err(e) => match e.kind() {
            jsonwebtoken::errors::ErrorKind::InvalidSignature => Err(Rejection::Signature),
            _ => Err(Rejection::Other),
        },
    }
}

/// Signs the claims under the secret.
///
/// The token is the one `jsonwebtoken` makes, written in the alphabet of
/// tokens, and verifying it under the same secret gives the claims back at
/// every time up to their expiry. The only error is `Signing`, when the
/// encoder reports one.
pub fn generate_token(secret: String, claims: &Claims) -> (result: Result<String, TokenError>)
    ensures
        match result {
            Ok(token) => {
                &&& hs256_token(secret@, claims@) == Some(token@)
                &&& is_token_text(token@)
                &&& forall|now: int|
                    now <= claims@.exp ==> #[trigger] verified(secret@, token@, now) == Ok::<
                        ClaimsView,
                        TokenError,
                    >(claims@)
                &&& forall|now: int|
                    now > claims@.exp ==> #[trigger] verified(secret@, token@, now) == Err::<
                        ClaimsView,
                        TokenError,
                    >(TokenError::Expired)
            },
            Err(e) => e == TokenError::Signing && hs256_token(secret@, claims@) is None,
        },
{
    match sign_claims(secret.as_str(), claims) {
        Some(token) => Ok(token),
        None => Err(TokenError::Signing),
    }
}

/// Turns an opened token into claims, or into the reason why it has none, at
/// the time `now` in seconds since the Unix epoch.
pub fn claims_from_payload(opened: Result<Payload, Rejection>, now: i64) -> (result: Result<
    Claims,
    TokenError,
>)
    ensures
        claims_result_view(result) == claims_at(opened_view(opened), now as int),
{
    match opened {
        Err(Rejection::Signature) => Err(TokenError::InvalidSignature),
        Err(Rejection::Other) => Err(TokenError::Malformed),
        Ok(payload) => match (payload.sub, payload.exp, payload.iat) {
            (Some(sub), Some(exp), Some(iat)) => {
                if exp > usize::MAX as u64 || iat > usize::MAX as u64 {
                    Err(TokenError::Malformed)
                } else if now >= 0 && now as u64 > exp {
                    Err(TokenError::Expired)
                } else {
                    Ok(Claims { sub, exp: exp as usize, iat: iat as usize })
                }
            },
            _ => Err(TokenError::Malformed),
        },
    }
}

/// Verifies a token under the secret at the time `now`, in seconds since the
/// Unix epoch.
///
/// The result is `InvalidSignature` where the signature does not fit,
/// `Malformed` where the token cannot be read or lacks a claim, `Expired`
/// where `now` is later than the expiry, and the claims otherwise.
pub fn verify_toke_at(secret: String, token: String, now: i64) -> (result: Result<
    Claims,
    TokenError,
>)
    ensures
        claims_result_view(result) == verified(secret@, token@, now as int),
{
    claims_from_payload(open_token(secret.as_str(), token.as_str()), now)
}

/// Verifies a token under the secret at the time the clock shows.
///
/// The result is the one [`verify_toke_at`] gives for some reading of the
/// clock; which one, the caller cannot know.
pub fn verify_toke(secret: String, token: String) -> (result: Result<Claims, TokenError>)
    ensures
        exists|now: i64| claims_result_view(result) == #[trigger] verified(secret@, token@, now as int),
{
    let now: i64 = unix_now();
    verify_toke_at(secret, token, now)
}

/// A complete payload stands for its claims up to and including the second
/// of its expiry, and for `Expired` from the next second on.
pub proof fn lemma_expiry_boundary(claims: ClaimsView, now: int)
    requires
        claims.representable(),
    ensures
        now <= claims.exp ==> claims_at(Ok(payload_of(claims)), now) == Ok::<ClaimsView, TokenError>(
            claims,
        ),
        now > claims.exp ==> claims_at(Ok(payload_of(claims)), now) == Err::<ClaimsView, TokenError>(
            TokenError::Expired,
        ),
{
}

} // verus!
