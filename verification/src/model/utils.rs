//! Addresses on the CDN.

use crate::model::id::{GuildId, UserId};
use crate::model::misc::ImageHash;
use crate::text::{decimal, decimal_u64};
use vstd::prelude::*;
use vstd::string::StringExecFns;

verus! {

/// The file extension of an image on the CDN: `gif` if it is animated, else
/// `webp`.
pub open spec fn image_extension(hash: ImageHash) -> Seq<char> {
    if hash.is_animated {
        "gif"@
    } else {
        "webp"@
    }
}

/// The address of an avatar: that of a member in a guild if `guild_id` is
/// given, else that of a user.
pub open spec fn avatar_address(
    guild_id: Option<GuildId>,
    user_id: UserId,
    hash: ImageHash,
) -> Seq<char> {
    match guild_id {
        Some(guild_id) => "https://cdn.discordapp.com/guilds/"@ + decimal(guild_id.0 as nat)
            + "/users/"@
            + decimal(user_id.0 as nat) + "/avatars/"@ + hash.text() + "."@ + image_extension(hash)
            + "?size=1024"@,
        None => "https://cdn.discordapp.com/avatars/"@ + decimal(user_id.0 as nat) + "/"@
            + hash.text()
            + "."@ + image_extension(hash) + "?size=1024"@,
    }
}

/// The address of an avatar, if there is a hash for one.
pub fn avatar_url(
    guild_id: Option<GuildId>,
    user_id: UserId,
    hash: Option<&ImageHash>,
) -> (url: Option<String>)
    ensures
        match hash {
            Some(h) => url matches Some(s) && s@ == avatar_address(guild_id, user_id, *h),
            None => url is None,
        },
{
    match hash {
        None => None,
        Some(hash) => {
            let ext = if hash.is_animated() {
                "gif"
            } else {
                "webp"
            };
            let mut s = match guild_id {
                Some(guild_id) => {
                    let mut s = String::from_str("https://cdn.discordapp.com/guilds/");
                    s.append(decimal_u64(guild_id.get()).as_str());
                    s.append("/users/");
                    s.append(decimal_u64(user_id.get()).as_str());
                    s.append("/avatars/");
                    s
                },
                None => {
                    let mut s = String::from_str("https://cdn.discordapp.com/avatars/");
                    s.append(decimal_u64(user_id.get()).as_str());
                    s.append("/");
                    s
                },
            };
            s.append(hash.to_text().as_str());
            s.append(".");
            s.append(ext);
            s.append("?size=1024");
            Some(s)
        },
    }
}

} // verus!
