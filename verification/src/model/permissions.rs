//! Permissions: a set of flags in 64 bits.

use vstd::prelude::*;

verus! {

/// The bit of the permission to do everything.
pub const ADMINISTRATOR: u64 = 0x8;

/// The bit of the permission to see a channel.
pub const VIEW_CHANNEL: u64 = 0x400;

/// Every bit that stands for a permission.
pub const ALL_PERMISSIONS: u64 = 0x0007_ffff_ffff_ffff;

/// A set of permissions, one bit each.
#[derive(Clone, Copy, Debug, PartialEq, Eq, Structural, Hash)]
pub struct Permissions(pub u64);

impl Permissions {
    /// No permission.
    pub fn empty() -> (p: Self)
        ensures
            p.0 == 0,
    {
        Permissions(0)
    }

    /// Every permission.
    pub fn all() -> (p: Self)
        ensures
            p.0 == ALL_PERMISSIONS,
    {
        Permissions(ALL_PERMISSIONS)
    }

    /// The permissions whose bits are set in `bits`; bits that stand for no
    /// permission are dropped.
    pub fn from_bits_truncate(bits: u64) -> (p: Self)
        ensures
            p.0 == bits & ALL_PERMISSIONS,
    {
        Permissions(bits & ALL_PERMISSIONS)
    }

    /// The bits of the set.
    pub fn bits(self) -> (b: u64)
        ensures
            b == self.0,
    {
        self.0
    }

    /// Whether every permission of `other` is in the set.
    pub open spec fn has(self, other: Permissions) -> bool {
        self.0 & other.0 == other.0
    }

    /// Whether every permission of `other` is in the set.
    pub fn contains(self, other: Permissions) -> (r: bool)
        ensures
            r == self.has(other),
    {
        self.0 & other.0 == other.0
    }

    /// The permissions that are in either set.
    pub fn union(self, other: Permissions) -> (p: Self)
        ensures
            p.0 == self.0 | other.0,
    {
        Permissions(self.0 | other.0)
    }

    /// The permissions of the set that are not in `other`.
    pub fn difference(self, other: Permissions) -> (p: Self)
        ensures
            p.0 == self.0 & !other.0,
    {
        Permissions(self.0 & !other.0)
    }

    /// Whether the set holds the permission to do everything.
    pub fn administrator(self) -> (r: bool)
        ensures
            r == (self.0 & ADMINISTRATOR == ADMINISTRATOR),
    {
        self.0 & ADMINISTRATOR == ADMINISTRATOR
    }

    /// Whether the set holds the permission to see a channel.
    pub fn view_channel(self) -> (r: bool)
        ensures
            r == (self.0 & VIEW_CHANNEL == VIEW_CHANNEL),
    {
        self.0 & VIEW_CHANNEL == VIEW_CHANNEL
    }
}

impl Default for Permissions {
    fn default() -> (p: Self)
        ensures
            p.0 == 0,
    {
        Permissions(0)
    }
}

} // verus!
