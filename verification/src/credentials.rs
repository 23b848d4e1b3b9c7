//! What a client sends to log in.

use vstd::prelude::*;

verus! {

/// A user name and the password that goes with it.
#[derive(Debug)]
pub struct LoginModel {
    pub username: String,
    pub password: String,
}

impl Clone for LoginModel {
    fn clone(&self) -> (copy: Self)
        ensures
            copy == *self,
    {
        LoginModel { username: self.username.clone(), password: self.password.clone() }
    }
}

} // verus!
