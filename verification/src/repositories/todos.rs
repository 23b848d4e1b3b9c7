//! The to-do store.

use vstd::prelude::*;
use crate::clock::naive_now;
use crate::domain::entities::{AddTodoEntity, TodoEntity};
use crate::domain::value_objects::TodoErrorMessage;
use crate::ids::new_id;

verus! {

/// Some to-do in `todos` has the identifier `id`.
pub open spec fn has_todo(todos: Seq<TodoEntity>, id: Seq<char>) -> bool {
    exists|i: int| 0 <= i < todos.len() && (#[trigger] todos[i]).id@ == id
}

/// `at` is the index of the first to-do in `todos` with the identifier `id`.
pub open spec fn is_first_todo(todos: Seq<TodoEntity>, id: Seq<char>, at: int) -> bool {
    &&& 0 <= at < todos.len()
    &&& todos[at].id@ == id
    &&& forall|i: int| 0 <= i < at ==> (#[trigger] todos[i]).id@ != id
}

/// The to-do `todo` when it has been completed at the time `at`.
pub open spec fn completed(todo: TodoEntity, at: chrono::NaiveDateTime) -> TodoEntity {
    TodoEntity {
        id: todo.id,
        title: todo.title,
        user_id: todo.user_id,
        completed: true,
        created_at: todo.created_at,
        updated_at: at,
    }
}

/// The to-dos of all users, in the order in which they were added.
pub struct TodosAppState {
    todos: Vec<TodoEntity>,
}

impl View for TodosAppState {
    type V = Seq<TodoEntity>;

    closed spec fn view(&self) -> Seq<TodoEntity> {
        self.todos@
    }
}

impl TodosAppState {
    /// An empty store.
    pub fn new() -> (store: Self)
        ensures
            store@ == Seq::<TodoEntity>::empty(),
    {
        TodosAppState { todos: Vec::new() }
    }

    /// The index of the first to-do with the identifier `id`.
    fn position(&self, id: &String) -> (found: Option<usize>)
        ensures
            match found {
                Some(at) => is_first_todo(self@, id@, at as int),
                None => !has_todo(self@, id@),
            },
    {
        let mut i: usize = 0;
        while i < self.todos.len()
            invariant
                i <= self.todos.len(),
                forall|j: int| 0 <= j < i ==> (#[trigger] self.todos@[j]).id@ != id@,
            decreases self.todos.len() - i,
        {
            if self.todos[i].id == *id {
                return Some(i);
            }
            i += 1;
        }
        None
    }

    /// All to-dos, in the order in which they were added.
    pub fn list(&self) -> (todos: Vec<TodoEntity>)
        ensures
            todos@ == self@,
    {
        let mut todos: Vec<TodoEntity> = Vec::new();
        let mut i: usize = 0;
        while i < self.todos.len()
            invariant
                i <= self.todos.len(),
                todos@ == self.todos@.take(i as int),
            decreases self.todos.len() - i,
        {
            todos.push(self.todos[i].clone());
            assert(self.todos@.take(i + 1) == self.todos@.take(i as int).push(self.todos@[i as int]));
            i += 1;
        }
        assert(self.todos@.take(i as int) == self.todos@);
        todos
    }

    /// The first to-do with the identifier `id`, or `NotFound` where the
    /// store holds none.
    pub fn get(&self, id: String) -> (result: Result<TodoEntity, TodoErrorMessage>)
        ensures
            match result {
                Ok(todo) => exists|at: int|
                    #[trigger] is_first_todo(self@, id@, at) && todo == self@[at],
                Err(e) => e == TodoErrorMessage::NotFound && !has_todo(self@, id@),
            },
    {
        match self.position(&id) {
            Some(at) => Ok(self.todos[at].clone()),
            None => Err(TodoErrorMessage::NotFound),
        }
    }

    /// Adds a to-do for `user_id` under the identifier `id`, created at the
    /// time `at` and not completed, behind all others, and returns it.
    pub fn add_as(
        &mut self,
        id: String,
        user_id: String,
        payload: AddTodoEntity,
        at: chrono::NaiveDateTime,
    ) -> (todo: TodoEntity)
        ensures
            todo == (TodoEntity {
                id,
                title: payload.title,
                user_id,
                completed: false,
                created_at: at,
                updated_at: at,
            }),
            final(self)@ == old(self)@.push(todo),
    {
        let todo = TodoEntity {
            id,
            title: payload.title,
            user_id,
            completed: false,
            created_at: at,
            updated_at: at,
        };
        self.todos.push(todo.clone());
        todo
    }

    /// Adds a to-do for `user_id` under a new random identifier, created at
    /// the time the clock shows and not completed, behind all others, and
    /// returns it.
    pub fn add(&mut self, user_id: String, payload: AddTodoEntity) -> (todo: TodoEntity)
        ensures
            todo.title == payload.title,
            todo.user_id == user_id,
            !todo.completed,
            todo.created_at == todo.updated_at,
            final(self)@ == old(self)@.push(todo),
    {
        let id = new_id();
        let at = naive_now();
        self.add_as(id, user_id, payload, at)
    }

    /// Marks the first to-do with the identifier `id` as completed at the
    /// time `at` and returns it as it then stands. Where the store holds
    /// none, it stays as it is and the result is `NotFound`.
    pub fn to_completed_at(&mut self, id: String, at: chrono::NaiveDateTime) -> (result: Result<
        TodoEntity,
        TodoErrorMessage,
    >)
        ensures
            match result {
                Ok(todo) => exists|i: int|
                    {
                        &&& #[trigger] is_first_todo(old(self)@, id@, i)
                        &&& todo == completed(old(self)@[i], at)
                        &&& final(self)@ == old(self)@.update(i, todo)
                    },
                Err(e) => {
                    &&& e == TodoErrorMessage::NotFound
                    &&& !has_todo(old(self)@, id@)
                    &&& final(self)@ == old(self)@
                },
            },
    {
        match self.position(&id) {
            Some(i) => {
                let todo = TodoEntity {
                    id: self.todos[i].id.clone(),
                    title: self.todos[i].title.clone(),
                    user_id: self.todos[i].user_id.clone(),
                    completed: true,
                    created_at: self.todos[i].created_at,
                    updated_at: at,
                };
                self.todos.set(i, todo.clone());
                assert(is_first_todo(old(self)@, id@, i as int));
                assert(todo == completed(old(self)@[i as int], at));
                assert(self@ == old(self)@.update(i as int, todo));
                Ok(todo)
            },
            None => Err(TodoErrorMessage::NotFound),
        }
    }

    /// Marks the first to-do with the identifier `id` as completed at the
    /// time the clock shows and returns it as it then stands. Where the
    /// store holds none, it stays as it is and the result is `NotFound`.
    pub fn to_completed(&mut self, id: String) -> (result: Result<TodoEntity, TodoErrorMessage>)
        ensures
            match result {
                Ok(todo) => exists|i: int, at: chrono::NaiveDateTime|
                    {
                        &&& is_first_todo(old(self)@, id@, i)
                        &&& todo == #[trigger] completed(old(self)@[i], at)
                        &&& final(self)@ == old(self)@.update(i, todo)
                    },
                Err(e) => {
                    &&& e == TodoErrorMessage::NotFound
                    &&& !has_todo(old(self)@, id@)
                    &&& final(self)@ == old(self)@
                },
            },
    {
        let at = naive_now();
        self.to_completed_at(id, at)
    }

    /// Removes the first to-do with the identifier `id`. Where the store
    /// holds none, it stays as it is and the result is `NotFound`.
    pub fn delete(&mut self, id: String) -> (result: Result<(), TodoErrorMessage>)
        ensures
            match result {
                Ok(_) => exists|i: int|
                    {
                        &&& #[trigger] is_first_todo(old(self)@, id@, i)
                        &&& final(self)@ == old(self)@.remove(i)
                    },
                Err(e) => {
                    &&& e == TodoErrorMessage::NotFound
                    &&& !has_todo(old(self)@, id@)
                    &&& final(self)@ == old(self)@
                },
            },
    {
        match self.position(&id) {
            Some(i) => {
                self.todos.remove(i);
                Ok(())
            },
            None => Err(TodoErrorMessage::NotFound),
        }
    }
}

} // verus!
