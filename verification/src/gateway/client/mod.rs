//! What an event handler is given to work with.

pub mod context;
