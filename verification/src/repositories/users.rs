//! The account store.

use vstd::prelude::*;
use crate::clock::naive_now;
use crate::domain::entities::{RegisterUserEntity, UserEntity};
use crate::ids::new_id;

verus! {

/// Some account in `users` has the user name `username`.
pub open spec fn has_user(users: Seq<UserEntity>, username: Seq<char>) -> bool {
    exists|i: int| 0 <= i < users.len() && (#[trigger] users[i]).username@ == username
}

/// `at` is the index of the first account in `users` with the user name
/// `username`.
pub open spec fn is_first_user(users: Seq<UserEntity>, username: Seq<char>, at: int) -> bool {
    &&& 0 <= at < users.len()
    &&& users[at].username@ == username
    &&& forall|i: int| 0 <= i < at ==> (#[trigger] users[i]).username@ != username
}

/// The accounts, in the order in which they were registered.
pub struct UsersAppState {
    users: Vec<UserEntity>,
}

impl View for UsersAppState {
    type V = Seq<UserEntity>;

    closed spec fn view(&self) -> Seq<UserEntity> {
        self.users@
    }
}

impl UsersAppState {
    /// An empty store.
    pub fn new() -> (store: Self)
        ensures
            store@ == Seq::<UserEntity>::empty(),
    {
        UsersAppState { users: Vec::new() }
    }

    /// Registers an account under the identifier `id` at the time `at`,
    /// behind all others. The password is stored as it was given.
    pub fn register_as(&mut self, id: String, payload: RegisterUserEntity, at: chrono::NaiveDateTime)
        ensures
            final(self)@ == old(self)@.push(
                UserEntity {
                    id,
                    username: payload.username,
                    password: payload.password,
                    created_at: at,
                    updated_at: at,
                },
            ),
    {
        self.users.push(
            UserEntity {
                id,
                username: payload.username,
                password: payload.password,
                created_at: at,
                updated_at: at,
            },
        );
    }

    /// Registers an account under a new random identifier at the time the
    /// clock shows, behind all others.
    pub fn register(&mut self, payload: RegisterUserEntity)
        ensures
            final(self)@.len() == old(self)@.len() + 1,
            final(self)@.drop_last() == old(self)@,
            final(self)@.last().username == payload.username,
            final(self)@.last().password == payload.password,
            final(self)@.last().created_at == final(self)@.last().updated_at,
    {
        let id = new_id();
        let at = naive_now();
        self.register_as(id, payload, at);
        assert(self@.drop_last() == old(self)@);
    }

    /// All accounts, in the order in which they were registered.
    pub fn list(&self) -> (users: Vec<UserEntity>)
        ensures
            users@ == self@,
    {
        let mut users: Vec<UserEntity> = Vec::new();
        let mut i: usize = 0;
        while i < self.users.len()
            invariant
                i <= self.users.len(),
                users@ == self.users@.take(i as int),
            decreases self.users.len() - i,
        {
            users.push(self.users[i].clone());
            assert(self.users@.take(i + 1) == self.users@.take(i as int).push(self.users@[i as int]));
            i += 1;
        }
        assert(self.users@.take(i as int) == self.users@);
        users
    }

    /// The first account with the user name `username`, if the store holds
    /// one.
    pub fn find_by_username(&self, username: String) -> (found: Option<UserEntity>)
        ensures
            match found {
                Some(user) => exists|at: int|
                    #[trigger] is_first_user(self@, username@, at) && user == self@[at],
                None => !has_user(self@, username@),
            },
    {
        let mut i: usize = 0;
        while i < self.users.len()
            invariant
                i <= self.users.len(),
                forall|j: int| 0 <= j < i ==> (#[trigger] self.users@[j]).username@ != username@,
            decreases self.users.len() - i,
        {
            if self.users[i].username == username {
                assert(is_first_user(self@, username@, i as int));
                return Some(self.users[i].clone());
            }
            i += 1;
        }
        None
    }
}

} // verus!
