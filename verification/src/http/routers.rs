//! The replies of the routes, one module for each group.

pub mod authentication;
pub mod todos;
pub mod users;
