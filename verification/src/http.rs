//! What the service answers over HTTP, as plain values: the guard in front of
//! the handlers and the reply of each route.

pub mod default_routers;
pub mod middleware;
pub mod reply;
pub mod routers;
