//! Game rules of *What May Become*: the server's reducers over its tables,
//! the client's session decisions, and the opening event that gives a hero
//! its origin.

pub mod identity;
pub mod tables;
pub mod reducers;
pub mod opening;
pub mod session;
