//! Builders: values that collect the fields of a payload step by step.

pub mod create_allowed_mentions;
pub mod edit_current_application_info;
pub mod edit_member;
