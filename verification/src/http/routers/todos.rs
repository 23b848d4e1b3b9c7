//! The replies of the to-do routes.
//!
//! Each takes what the store answered: the value, or the message of the
//! error. A message that mentions `NotFound` is answered with 404 where a
//! single to-do was asked for.

use vstd::prelude::*;
use crate::domain::entities::TodoEntity;
use crate::http::reply::{
    data_reply,
    error_reply,
    message_reply,
    Body,
    Reply,
    ReplyView,
    CREATED,
    INTERNAL_SERVER_ERROR,
    NOT_FOUND,
    OK,
};
use crate::text::{contains, contains_text};

verus! {

/// The reply to a request for one to-do that failed with `message`: 404 with
/// `Todo not found` where the message mentions `NotFound`, else 500 with
/// `Internal Server Error`.
pub open spec fn failure_reply<T>(message: Seq<char>) -> ReplyView<T> {
    if contains_text(message, "NotFound"@) {
        error_reply(404, "Todo not found"@)
    } else {
        error_reply(500, "Internal Server Error"@)
    }
}

/// Writes the reply to a request for one to-do that failed with `message`.
fn failure<T>(message: &str) -> (reply: Reply<T>)
    ensures
        reply@ == failure_reply::<T>(message@),
{
    if contains(message, "NotFound") {
        Reply::plain(NOT_FOUND, Body::Error(String::from_str("Todo not found")))
    } else {
        Reply::plain(INTERNAL_SERVER_ERROR, Body::Error(String::from_str("Internal Server Error")))
    }
}

/// The reply to a new to-do: 201 with the to-do, or 500 with the error's
/// message.
pub fn add_todo(outcome: Result<TodoEntity, String>) -> (reply: Reply<TodoEntity>)
    ensures
        reply@ == match outcome {
            Ok(todo) => data_reply(201, todo),
            Err(message) => error_reply(500, message@),
        },
{
    match outcome {
        Ok(todo) => Reply::plain(CREATED, Body::Data(todo)),
        Err(message) => Reply::plain(INTERNAL_SERVER_ERROR, Body::Error(message)),
    }
}

/// The reply to a request for all to-dos: 200 with the to-dos, or 500 with
/// the error's message.
pub fn list(outcome: Result<Vec<TodoEntity>, String>) -> (reply: Reply<Vec<TodoEntity>>)
    ensures
        reply@ == match outcome {
            Ok(todos) => data_reply(200, todos),
            Err(message) => error_reply(500, message@),
        },
{
    match outcome {
        Ok(todos) => Reply::plain(OK, Body::Data(todos)),
        Err(message) => Reply::plain(INTERNAL_SERVER_ERROR, Body::Error(message)),
    }
}

/// The reply to a request for one to-do: 200 with the to-do, 404 where the
/// error's message mentions `NotFound`, else 500.
pub fn get_todo(outcome: Result<TodoEntity, String>) -> (reply: Reply<TodoEntity>)
    ensures
        reply@ == match outcome {
            Ok(todo) => data_reply(200, todo),
            Err(message) => failure_reply(message@),
        },
{
    match outcome {
        Ok(todo) => Reply::plain(OK, Body::Data(todo)),
        Err(message) => failure(message.as_str()),
    }
}

/// The reply to the completion of a to-do: 200 with the to-do as it then
/// stands, 404 where the error's message mentions `NotFound`, else 500.
pub fn to_completed(outcome: Result<TodoEntity, String>) -> (reply: Reply<TodoEntity>)
    ensures
        reply@ == match outcome {
            Ok(todo) => data_reply(200, todo),
            Err(message) => failure_reply(message@),
        },
{
    match outcome {
        Ok(todo) => Reply::plain(OK, Body::Data(todo)),
        Err(message) => failure(message.as_str()),
    }
}

/// The reply to the removal of a to-do: 200 with the message `Success`, 404
/// where the error's message mentions `NotFound`, else 500.
pub fn delete_todo(outcome: Result<(), String>) -> (reply: Reply<()>)
    ensures
        reply@ == match outcome {
            Ok(_) => message_reply::<()>(200, "Success"@),
            Err(message) => failure_reply(message@),
        },
{
    match outcome {
        Ok(_) => Reply::plain(OK, Body::Message(String::from_str("Success"))),
        Err(message) => failure(message.as_str()),
    }
}

} // verus!
