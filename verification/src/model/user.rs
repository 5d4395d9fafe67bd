//! Users.

use crate::model::id::UserId;
use crate::model::misc::ImageHash;
use crate::model::utils::{avatar_address, avatar_url};
use crate::num::u16_of;
use crate::text::{decimal, decimal_u64};
use nonmax::NonMaxU16;
use vstd::prelude::*;
use vstd::string::StringExecFns;

verus! {

/// A user of the platform.
#[derive(Clone, Debug)]
pub struct User {
    /// The id of the user.
    pub id: UserId,
    /// The unique name of the user.
    pub name: String,
    /// The four digits after the name, for users of the older naming
    /// system.
    pub discriminator: Option<NonMaxU16>,
    /// The name that the user shows, if they have set one.
    pub global_name: Option<String>,
    /// The hash of the user's avatar, if they have set one.
    pub avatar: Option<ImageHash>,
    /// Whether the user is a bot.
    pub bot: bool,
}

impl Default for User {
    /// A user with the id 1 and nothing else.
    fn default() -> (u: Self)
        ensures
            u.id == UserId(1),
            u.name@.len() == 0,
            u.discriminator is None,
            u.global_name is None,
            u.avatar is None,
            !u.bot,
    {
        User {
            id: UserId(1),
            name: String::new(),
            discriminator: None,
            global_name: None,
            avatar: None,
            bot: false,
        }
    }
}

/// Which of the default avatars a user has: by the discriminator for users of
/// the older naming system, else by the id.
pub open spec fn default_avatar_index(id: UserId, discriminator: Option<NonMaxU16>) -> nat {
    match discriminator {
        Some(d) => (u16_of(d) % 5) as nat,
        None => ((id.0 / 0x40_0000) % 6) as nat,
    }
}

impl User {
    /// How the user is mentioned in a message: `<@`, the id and `>`.
    pub open spec fn mention_text(self) -> Seq<char> {
        "<@"@ + decimal(self.id.0 as nat) + ">"@
    }

    /// The address of the default avatar of the user.
    pub open spec fn default_avatar_address(self) -> Seq<char> {
        "https://cdn.discordapp.com/embed/avatars/"@ + decimal(
            default_avatar_index(self.id, self.discriminator),
        ) + ".png"@
    }

    /// The address of the avatar that is shown for the user: their own if
    /// they have one, else the default one.
    pub open spec fn face_address(self) -> Seq<char> {
        match self.avatar {
            Some(hash) => avatar_address(None, self.id, hash),
            None => self.default_avatar_address(),
        }
    }

    /// Writes the mention of the user.
    pub fn mention(&self) -> (s: String)
        ensures
            s@ == self.mention_text(),
    {
        let mut s = String::from_str("<@");
        s.append(decimal_u64(self.id.get()).as_str());
        s.append(">");
        s
    }

    /// The address of the user's own avatar, if they have one.
    pub fn avatar_url(&self) -> (url: Option<String>)
        ensures
            match self.avatar {
                Some(hash) => url matches Some(s) && s@ == avatar_address(None, self.id, hash),
                None => url is None,
            },
    {
        avatar_url(None, self.id, self.avatar.as_ref())
    }

    /// The address of the default avatar of the user.
    pub fn default_avatar_url(&self) -> (s: String)
        ensures
            s@ == self.default_avatar_address(),
    {
        let index: u64 = match self.discriminator {
            Some(d) => (d.get() % 5) as u64,
            None => {
                let id = self.id.get();
                assert(id >> 22 == id / 0x40_0000) by (bit_vector);
                (id >> 22) % 6
            },
        };
        let mut s = String::from_str("https://cdn.discordapp.com/embed/avatars/");
        s.append(decimal_u64(index).as_str());
        s.append(".png");
        s
    }

    /// The address of the avatar that is shown for the user.
    pub fn face(&self) -> (s: String)
        ensures
            s@ == self.face_address(),
    {
        match self.avatar_url() {
            Some(url) => url,
            None => self.default_avatar_url(),
        }
    }
}

} // verus!
