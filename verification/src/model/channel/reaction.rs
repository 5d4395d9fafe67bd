//! Reactions to messages.

use crate::model::id::EmojiId;
use crate::text::{decimal, decimal_u64, percent_encode, percent_encoded};
use vstd::prelude::*;
use vstd::string::{StringExecFns, StringSliceAdditionalSpecFns};
use vstd::utf8::encode_utf8;

verus! {

/// What a reaction shows.
#[derive(Clone, Debug)]
pub enum ReactionType {
    /// An emoji of a guild or an application.
    Custom {
        /// Whether the emoji is animated.
        animated: bool,
        /// The id of the emoji.
        id: EmojiId,
        /// The name of the emoji, if it is known.
        name: Option<String>,
    },
    /// An emoji of Unicode.
    Unicode(String),
}

impl ReactionType {
    /// The reaction as it stands in a path: for a custom emoji its name, `:`
    /// and its id; for an emoji of Unicode the emoji, percent-encoded.
    pub open spec fn data(self) -> Seq<char> {
        match self {
            ReactionType::Custom { animated: _, id, name } => (match name {
                Some(n) => n@,
                None => Seq::empty(),
            }) + ":"@ + decimal(id.0 as nat),
            ReactionType::Unicode(unicode) => percent_encoded(encode_utf8(unicode@)),
        }
    }

    /// Writes the reaction as it stands in a path.
    pub fn as_data(&self) -> (s: String)
        ensures
            s@ == self.data(),
    {
        match self {
            ReactionType::Custom { animated: _, id, name } => {
                let mut s = match name {
                    Some(n) => n.clone(),
                    None => String::new(),
                };
                s.append(":");
                s.append(decimal_u64(id.get()).as_str());
                s
            },
            ReactionType::Unicode(unicode) => percent_encode(unicode.as_str()),
        }
    }
}

} // verus!
