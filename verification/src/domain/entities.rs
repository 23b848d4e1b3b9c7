//! Stored records: to-dos and user accounts.

use vstd::prelude::*;

verus! {

/// A stored to-do.
#[derive(Debug)]
pub struct TodoEntity {
    pub id: String,
    pub title: String,
    pub user_id: String,
    pub completed: bool,
    pub created_at: chrono::NaiveDateTime,
    pub updated_at: chrono::NaiveDateTime,
}

impl Clone for TodoEntity {
    fn clone(&self) -> (copy: Self)
        ensures
            copy == *self,
    {
        TodoEntity {
            id: self.id.clone(),
            title: self.title.clone(),
            user_id: self.user_id.clone(),
            completed: self.completed,
            created_at: self.created_at,
            updated_at: self.updated_at,
        }
    }
}

/// What is needed to store a new to-do.
#[derive(Debug)]
pub struct AddTodoEntity {
    pub title: String,
}

impl Clone for AddTodoEntity {
    fn clone(&self) -> (copy: Self)
        ensures
            copy == *self,
    {
        AddTodoEntity { title: self.title.clone() }
    }
}

/// A stored user account.
#[derive(Debug)]
pub struct UserEntity {
    pub id: String,
    pub username: String,
    pub password: String,
    pub created_at: chrono::NaiveDateTime,
    pub updated_at: chrono::NaiveDateTime,
}

impl Clone for UserEntity {
    fn clone(&self) -> (copy: Self)
        ensures
            copy == *self,
    {
        UserEntity {
            id: self.id.clone(),
            username: self.username.clone(),
            password: self.password.clone(),
            created_at: self.created_at,
            updated_at: self.updated_at,
        }
    }
}

/// What is needed to store a new account.
#[derive(Debug)]
pub struct RegisterUserEntity {
    pub username: String,
    pub password: String,
}

impl Clone for RegisterUserEntity {
    fn clone(&self) -> (copy: Self)
        ensures
            copy == *self,
    {
        RegisterUserEntity { username: self.username.clone(), password: self.password.clone() }
    }
}

} // verus!
