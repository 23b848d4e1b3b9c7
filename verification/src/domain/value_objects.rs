//! Forms as clients send them, and the messages of the to-do store.

use vstd::prelude::*;
use crate::domain::entities::{AddTodoEntity, RegisterUserEntity};

verus! {

/// A field of a form that breaks a rule, and the message that says so.
#[derive(Debug)]
pub struct FieldError {
    pub field: String,
    pub message: String,
}

/// The fields and messages of a list of errors, in order.
pub open spec fn field_errors_view(errors: Seq<FieldError>) -> Seq<(Seq<char>, Seq<char>)> {
    errors.map_values(|e: FieldError| (e.field@, e.message@))
}

/// The one error for `field` with `message` unless `holds`.
pub open spec fn error_unless(holds: bool, field: Seq<char>, message: Seq<char>) -> Seq<
    (Seq<char>, Seq<char>),
> {
    if holds {
        Seq::empty()
    } else {
        seq![(field, message)]
    }
}

/// Adds the error for `field` with `message` to `errors` unless `holds`.
fn record_unless(errors: &mut Vec<FieldError>, holds: bool, field: &str, message: &str)
    ensures
        field_errors_view(final(errors)@) == field_errors_view(old(errors)@) + error_unless(
            holds,
            field@,
            message@,
        ),
{
    if !holds {
        errors.push(FieldError { field: String::from_str(field), message: String::from_str(message) });
    }
    assert(field_errors_view(errors@) =~= field_errors_view(old(errors)@) + error_unless(
        holds,
        field@,
        message@,
    ));
}

/// The form for a new to-do.
#[derive(Debug)]
pub struct AddTodoModel {
    pub title: String,
}

impl AddTodoModel {
    /// The errors of this form: the title holds at least one character.
    pub open spec fn errors(&self) -> Seq<(Seq<char>, Seq<char>)> {
        error_unless(self.title@.len() >= 1, "title"@, "Title cannot be empty"@)
    }

    /// Checks the form against its rules: `Ok` where it breaks none, else
    /// the errors in the order of the fields.
    pub fn validate(&self) -> (result: Result<(), Vec<FieldError>>)
        ensures
            match result {
                Ok(_) => self.errors().len() == 0,
                Err(errors) => errors@.len() > 0 && field_errors_view(errors@) == self.errors(),
            },
    {
        let mut errors: Vec<FieldError> = Vec::new();
        assert(field_errors_view(errors@) =~= Seq::empty());
        record_unless(&mut errors, self.title.as_str().unicode_len() >= 1, "title", "Title cannot be empty");
        if errors.len() == 0 {
            Ok(())
        } else {
            Err(errors)
        }
    }

    /// The record to store for this form.
    pub fn to_entity(self) -> (entity: AddTodoEntity)
        ensures
            entity.title == self.title,
    {
        AddTodoEntity { title: self.title }
    }
}

/// What the to-do store answers when it cannot serve a request.
#[derive(Debug, Clone, Copy, PartialEq, Eq, Structural)]
pub enum TodoErrorMessage {
    NotFound,
}

impl TodoErrorMessage {
    /// The message as text.
    pub fn to_string(&self) -> (text: String)
        ensures
            text@ == "NotFound"@,
    {
        match self {
            TodoErrorMessage::NotFound => String::from_str("NotFound"),
        }
    }
}

/// The form for a new account.
#[derive(Debug)]
pub struct RegisterUserModel {
    pub username: String,
    pub password: String,
}

impl RegisterUserModel {
    /// The errors of this form: the user name holds at least one character,
    /// the password at least three.
    pub open spec fn errors(&self) -> Seq<(Seq<char>, Seq<char>)> {
        error_unless(self.username@.len() >= 1, "username"@, "Username cannot be empty"@)
            + error_unless(
            self.password@.len() >= 3,
            "password"@,
            "Password cannot be empty, at least 3 characters"@,
        )
    }

    /// Checks the form against its rules: `Ok` where it breaks none, else
    /// the errors in the order of the fields.
    pub fn validate(&self) -> (result: Result<(), Vec<FieldError>>)
        ensures
            match result {
                Ok(_) => self.errors().len() == 0,
                Err(errors) => errors@.len() > 0 && field_errors_view(errors@) == self.errors(),
            },
    {
        let mut errors: Vec<FieldError> = Vec::new();
        assert(field_errors_view(errors@) =~= Seq::empty());
        record_unless(
            &mut errors,
            self.username.as_str().unicode_len() >= 1,
            "username",
            "Username cannot be empty",
        );
        record_unless(
            &mut errors,
            self.password.as_str().unicode_len() >= 3,
            "password",
            "Password cannot be empty, at least 3 characters",
        );
        if errors.len() == 0 {
            Ok(())
        } else {
            Err(errors)
        }
    }

    /// The record to store for this form.
    pub fn to_entity(self) -> (entity: RegisterUserEntity)
        ensures
            entity.username == self.username,
            entity.password == self.password,
    {
        RegisterUserEntity { username: self.username, password: self.password }
    }
}

} // verus!
