//! Roles of a guild.

use crate::model::colour::Colour;
use crate::model::id::{GuildId, RoleId};
use crate::model::permissions::Permissions;
use vstd::prelude::*;

verus! {

/// A role of a guild.
#[derive(Clone, Debug)]
pub struct Role {
    /// The id of the role.
    pub id: RoleId,
    /// The guild that the role belongs to.
    pub guild_id: GuildId,
    /// The colour of the role; 0 if it has none.
    pub colour: Colour,
    /// The name of the role.
    pub name: String,
    /// The permissions that the role grants.
    pub permissions: Permissions,
    /// The position of the role in the hierarchy: the higher, the more it
    /// counts.
    pub position: i16,
}

impl Role {
    /// Whether this role counts at least as much as `other`: by position,
    /// and among roles of one position by id.
    pub open spec fn outranks(self, other: Role) -> bool {
        self.position > other.position
            || (self.position == other.position && self.id.0 >= other.id.0)
    }

    /// Whether this role counts at least as much as `other`.
    pub fn ranks_above(&self, other: &Role) -> (r: bool)
        ensures
            r == self.outranks(*other),
    {
        self.position > other.position || (self.position == other.position && self.id.get()
            >= other.id.get())
    }

    /// A copy of the role.
    pub fn duplicate(&self) -> (r: Role)
        ensures
            r == *self,
    {
        Role {
            id: self.id,
            guild_id: self.guild_id,
            colour: self.colour,
            name: self.name.clone(),
            permissions: self.permissions,
            position: self.position,
        }
    }
}

/// The position of the first role with the id in a list, or the length of
/// the list if there is none.
pub open spec fn role_position(roles: Seq<Role>, id: RoleId) -> int
    decreases roles.len(),
{
    if roles.len() == 0 {
        0
    } else if roles[0].id == id {
        0
    } else {
        1 + role_position(roles.skip(1), id)
    }
}

/// The first role with the id in a list, if there is one.
pub open spec fn role_with_id(roles: Seq<Role>, id: RoleId) -> Option<Role> {
    if role_position(roles, id) < roles.len() {
        Some(roles[role_position(roles, id)])
    } else {
        None
    }
}

/// Where the first role with the id stands: no role before it has the id,
/// and it has it unless it is the end.
pub proof fn lemma_role_position(roles: Seq<Role>, id: RoleId)
    ensures
        0 <= role_position(roles, id) <= roles.len(),
        forall|i: int| 0 <= i < role_position(roles, id) ==> (#[trigger] roles[i]).id != id,
        role_position(roles, id) < roles.len() ==> roles[role_position(roles, id)].id == id,
    decreases roles.len(),
{
    if roles.len() > 0 && roles[0].id != id {
        lemma_role_position(roles.skip(1), id);
        assert forall|i: int| 0 <= i < role_position(roles, id) implies (#[trigger] roles[i]).id != id by {
            if i > 0 {
                assert(roles.skip(1)[i - 1] == roles[i]);
            }
        }
    }
}

/// A position with no role of the id before it that holds one, or is the
/// end, is where the first such role stands.
pub proof fn lemma_role_position_is(roles: Seq<Role>, id: RoleId, p: int)
    requires
        0 <= p <= roles.len(),
        forall|i: int| 0 <= i < p ==> (#[trigger] roles[i]).id != id,
        p < roles.len() ==> roles[p].id == id,
    ensures
        role_position(roles, id) == p,
{
    lemma_role_position(roles, id);
    let d = role_position(roles, id);
    if d < p {
        assert(roles[d].id != id);
    } else if p < d {
        assert(roles[p].id != id);
    }
}

/// Finds the first role with the id in a list.
pub fn find_role<'a>(roles: &'a Vec<Role>, id: RoleId) -> (r: Option<&'a Role>)
    ensures
        match r {
            Some(role) => role_with_id(roles@, id) == Some(*role) && role.id == id
                && roles@.contains(*role),
            None => role_with_id(roles@, id) is None,
        },
{
    let mut i: usize = 0;
    while i < roles.len()
        invariant
            0 <= i <= roles.len(),
            forall|j: int| 0 <= j < i ==> (#[trigger] roles@[j]).id != id,
        decreases roles.len() - i,
    {
        if roles[i].id == id {
            proof {
                lemma_role_position_is(roles@, id, i as int);
            }
            return Some(&roles[i]);
        }
        i += 1;
    }
    proof {
        lemma_role_position_is(roles@, id, roles.len() as int);
    }
    None
}

/// Whether a list of role ids holds the id.
pub fn holds_role(ids: &Vec<RoleId>, id: RoleId) -> (r: bool)
    ensures
        r == ids@.contains(id),
{
    let mut i: usize = 0;
    while i < ids.len()
        invariant
            0 <= i <= ids.len(),
            forall|j: int| 0 <= j < i ==> ids@[j] != id,
        decreases ids.len() - i,
    {
        if ids[i] == id {
            return true;
        }
        i += 1;
    }
    false
}

} // verus!
