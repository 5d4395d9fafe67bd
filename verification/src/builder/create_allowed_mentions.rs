//! Which mentions in a message may notify.

use crate::model::id::{RoleId, UserId};
use vstd::prelude::*;

verus! {

/// Which mentions in a message may notify those mentioned. A client can hold
/// one as the default for the messages that it sends.
#[derive(Clone, Debug)]
#[must_use]
pub struct CreateAllowedMentions {
    /// Whether `@everyone` and `@here` notify.
    pub everyone: bool,
    /// Whether every user mention notifies.
    pub all_users: bool,
    /// Whether every role mention notifies.
    pub all_roles: bool,
    /// The users whose mentions notify.
    pub users: Vec<UserId>,
    /// The roles whose mentions notify.
    pub roles: Vec<RoleId>,
    /// Whether the author of the message replied to is notified.
    pub replied_user: Option<bool>,
}

impl CreateAllowedMentions {
    /// No mention notifies.
    pub fn new() -> (m: Self)
        ensures
            !m.everyone,
            !m.all_users,
            !m.all_roles,
            m.users@.len() == 0,
            m.roles@.len() == 0,
            m.replied_user is None,
    {
        CreateAllowedMentions {
            everyone: false,
            all_users: false,
            all_roles: false,
            users: Vec::new(),
            roles: Vec::new(),
            replied_user: None,
        }
    }
}

} // verus!
