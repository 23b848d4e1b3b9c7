//! The records the service keeps and the forms clients send.

pub mod entities;
pub mod value_objects;
