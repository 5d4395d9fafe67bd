//! A typed client core for a chat platform's REST API: routes, rate-limit
//! bookkeeping, request assembly and response classification, with the
//! transport left to the caller.

pub mod builder;
pub mod cache;
pub mod collector;
pub mod gateway;
pub mod http;
pub mod json;
pub mod model;
pub mod num;
pub mod secrets;
pub mod text;
