//! Data types of the platform's objects.

pub mod application;
pub mod channel;
pub mod colour;
pub mod error;
pub mod guild;
pub mod id;
pub mod misc;
pub mod monetization;
pub mod permissions;
pub mod timestamp;
pub mod user;
pub mod utils;
