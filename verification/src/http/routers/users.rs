//! The replies of the account routes.

use vstd::prelude::*;
use crate::domain::entities::UserEntity;
use crate::http::reply::{
    data_reply,
    error_reply,
    message_reply,
    Body,
    Reply,
    CREATED,
    INTERNAL_SERVER_ERROR,
    OK,
};

verus! {

/// The reply to a registration: 201 with the message
/// `Create user success`, or 500 whatever the error says.
pub fn register(outcome: Result<(), String>) -> (reply: Reply<()>)
    ensures
        reply@ == match outcome {
            Ok(_) => message_reply::<()>(201, "Create user success"@),
            Err(_) => error_reply(500, "Internal server error"@),
        },
{
    match outcome {
        Ok(_) => Reply::plain(CREATED, Body::Message(String::from_str("Create user success"))),
        Err(_) => Reply::plain(
            INTERNAL_SERVER_ERROR,
            Body::Error(String::from_str("Internal server error")),
        ),
    }
}

/// The reply to a request for all accounts: 200 with the accounts, or 500
/// whatever the error says.
pub fn list(outcome: Result<Vec<UserEntity>, String>) -> (reply: Reply<Vec<UserEntity>>)
    ensures
        reply@ == match outcome {
            Ok(users) => data_reply(200, users),
            Err(_) => error_reply(500, "Internal server error"@),
        },
{
    match outcome {
        Ok(users) => Reply::plain(OK, Body::Data(users)),
        Err(_) => Reply::plain(
            INTERNAL_SERVER_ERROR,
            Body::Error(String::from_str("Internal server error")),
        ),
    }
}

} // verus!
