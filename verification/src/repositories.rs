//! The stores: to-dos and accounts held in memory, in the order in which
//! they came.

pub mod todos;
pub mod users;
