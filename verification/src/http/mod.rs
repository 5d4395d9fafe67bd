//! The request dispatcher: routes and their buckets, rate-limit state, request
//! assembly and response classification.

pub mod client;
pub mod error;
pub mod header;
pub mod multipart;
pub mod number;
pub mod pagination;
pub mod params;
pub mod ratelimiting;
pub mod request;
pub mod response;
pub mod routing;
