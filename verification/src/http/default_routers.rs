//! The two routes that need no state.

use vstd::prelude::*;
use crate::http::reply::{text_reply, Body, Reply, NOT_FOUND, OK};

verus! {

/// The reply to a health check: 200 with the text `OK`.
pub fn health_check() -> (reply: Reply<()>)
    ensures
        reply@ == text_reply::<()>(200, "OK"@),
{
    Reply::plain(OK, Body::Text(String::from_str("OK")))
}

/// The reply to a request that no route serves: 404 with the text
/// `Not Found`.
pub fn not_found() -> (reply: Reply<()>)
    ensures
        reply@ == text_reply::<()>(404, "Not Found"@),
{
    Reply::plain(NOT_FOUND, Body::Text(String::from_str("Not Found")))
}

} // verus!
