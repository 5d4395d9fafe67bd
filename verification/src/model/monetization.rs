//! Entitlements: what a user or a guild has bought from an application.

use crate::model::id::{GuildId, SkuId, UserId};
use vstd::prelude::*;

verus! {

/// Who holds an entitlement.
#[derive(Clone, Copy, Debug, PartialEq, Eq, Structural)]
pub enum EntitlementOwner {
    Guild(GuildId),
    User(UserId),
}

/// The payload that creates an entitlement for testing.
#[derive(Clone, Copy, Debug, PartialEq, Eq, Structural)]
pub struct TestEntitlement {
    pub sku_id: SkuId,
    pub owner_id: u64,
    /// 1 for a guild, 2 for a user.
    pub owner_type: u8,
}

impl TestEntitlement {
    /// The payload for an entitlement to `sku_id` held by `owner`.
    pub fn new(sku_id: SkuId, owner: EntitlementOwner) -> (t: Self)
        ensures
            t.sku_id == sku_id,
            match owner {
                EntitlementOwner::Guild(id) => t.owner_id == id.0 && t.owner_type == 1,
                EntitlementOwner::User(id) => t.owner_id == id.0 && t.owner_type == 2,
            },
    {
        let (owner_id, owner_type): (u64, u8) = match owner {
            EntitlementOwner::Guild(id) => (id.get(), 1),
            EntitlementOwner::User(id) => (id.get(), 2),
        };
        TestEntitlement { sku_id, owner_id, owner_type }
    }
}

} // verus!
