//! The data a token carries, and the pair of tokens a client holds.

use vstd::prelude::*;

verus! {

/// What a token commits to: the subject, when it was issued and when it
/// stops being accepted, both in seconds since the Unix epoch.
#[derive(Debug)]
pub struct Claims {
    pub sub: String,
    pub exp: usize,
    pub iat: usize,
}

/// Mathematical value of a [`Claims`].
pub struct ClaimsView {
    pub sub: Seq<char>,
    pub exp: int,
    pub iat: int,
}

impl View for Claims {
    type V = ClaimsView;

    open spec fn view(&self) -> ClaimsView {
        ClaimsView { sub: self.sub@, exp: self.exp as int, iat: self.iat as int }
    }
}

impl ClaimsView {
    /// The claims expire strictly after they were issued.
    pub open spec fn well_formed(self) -> bool {
        self.iat < self.exp
    }

    /// Both timestamps are ones that a [`Claims`] can hold.
    pub open spec fn representable(self) -> bool {
        0 <= self.iat <= usize::MAX && 0 <= self.exp <= usize::MAX
    }
}

impl Clone for Claims {
    fn clone(&self) -> (copy: Self)
        ensures
            copy == *self,
    {
        Claims { sub: self.sub.clone(), exp: self.exp, iat: self.iat }
    }
}

/// The pair of tokens handed to a client after a login or a refresh.
#[derive(Debug)]
pub struct Passport {
    pub refresh_token: String,
    pub access_token: String,
}

/// Mathematical value of a [`Passport`].
pub struct PassportView {
    pub refresh_token: Seq<char>,
    pub access_token: Seq<char>,
}

impl View for Passport {
    type V = PassportView;

    open spec fn view(&self) -> PassportView {
        PassportView { refresh_token: self.refresh_token@, access_token: self.access_token@ }
    }
}

impl Clone for Passport {
    fn clone(&self) -> (copy: Self)
        ensures
            copy == *self,
    {
        Passport {
            refresh_token: self.refresh_token.clone(),
            access_token: self.access_token.clone(),
        }
    }
}

} // verus!
