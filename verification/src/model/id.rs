//! Identifiers of the platform's objects: 64-bit snowflakes, one type per kind of
//! object so that an id of one kind cannot be passed for another.

use vstd::prelude::*;

verus! {

/// The identifier of an application.
#[derive(Clone, Copy, Debug, PartialEq, Eq, Structural, Hash)]
pub struct ApplicationId(pub u64);

impl ApplicationId {
    /// Wraps a raw identifier.
    pub fn new(id: u64) -> (r: Self)
        ensures
            r == ApplicationId(id),
    {
        ApplicationId(id)
    }

    /// The raw identifier.
    pub fn get(self) -> (id: u64)
        ensures
            id == self.0,
    {
        self.0
    }
}

/// The identifier of an audit log entry.
#[derive(Clone, Copy, Debug, PartialEq, Eq, Structural, Hash)]
pub struct AuditLogEntryId(pub u64);

impl AuditLogEntryId {
    /// Wraps a raw identifier.
    pub fn new(id: u64) -> (r: Self)
        ensures
            r == AuditLogEntryId(id),
    {
        AuditLogEntryId(id)
    }

    /// The raw identifier.
    pub fn get(self) -> (id: u64)
        ensures
            id == self.0,
    {
        self.0
    }
}

/// The identifier of a channel.
#[derive(Clone, Copy, Debug, PartialEq, Eq, Structural, Hash)]
pub struct ChannelId(pub u64);

impl ChannelId {
    /// Wraps a raw identifier.
    pub fn new(id: u64) -> (r: Self)
        ensures
            r == ChannelId(id),
    {
        ChannelId(id)
    }

    /// The raw identifier.
    pub fn get(self) -> (id: u64)
        ensures
            id == self.0,
    {
        self.0
    }
}

/// The identifier of an application command.
#[derive(Clone, Copy, Debug, PartialEq, Eq, Structural, Hash)]
pub struct CommandId(pub u64);

impl CommandId {
    /// Wraps a raw identifier.
    pub fn new(id: u64) -> (r: Self)
        ensures
            r == CommandId(id),
    {
        CommandId(id)
    }

    /// The raw identifier.
    pub fn get(self) -> (id: u64)
        ensures
            id == self.0,
    {
        self.0
    }
}

/// The identifier of an emoji.
#[derive(Clone, Copy, Debug, PartialEq, Eq, Structural, Hash)]
pub struct EmojiId(pub u64);

impl EmojiId {
    /// Wraps a raw identifier.
    pub fn new(id: u64) -> (r: Self)
        ensures
            r == EmojiId(id),
    {
        EmojiId(id)
    }

    /// The raw identifier.
    pub fn get(self) -> (id: u64)
        ensures
            id == self.0,
    {
        self.0
    }
}

/// The identifier of an entitlement.
#[derive(Clone, Copy, Debug, PartialEq, Eq, Structural, Hash)]
pub struct EntitlementId(pub u64);

impl EntitlementId {
    /// Wraps a raw identifier.
    pub fn new(id: u64) -> (r: Self)
        ensures
            r == EntitlementId(id),
    {
        EntitlementId(id)
    }

    /// The raw identifier.
    pub fn get(self) -> (id: u64)
        ensures
            id == self.0,
    {
        self.0
    }
}

/// The identifier of any object, where the kind is not known.
#[derive(Clone, Copy, Debug, PartialEq, Eq, Structural, Hash)]
pub struct GenericId(pub u64);

impl GenericId {
    /// Wraps a raw identifier.
    pub fn new(id: u64) -> (r: Self)
        ensures
            r == GenericId(id),
    {
        GenericId(id)
    }

    /// The raw identifier.
    pub fn get(self) -> (id: u64)
        ensures
            id == self.0,
    {
        self.0
    }
}

/// The identifier of a guild.
#[derive(Clone, Copy, Debug, PartialEq, Eq, Structural, Hash)]
pub struct GuildId(pub u64);

impl GuildId {
    /// Wraps a raw identifier.
    pub fn new(id: u64) -> (r: Self)
        ensures
            r == GuildId(id),
    {
        GuildId(id)
    }

    /// The raw identifier.
    pub fn get(self) -> (id: u64)
        ensures
            id == self.0,
    {
        self.0
    }
}

/// The identifier of an integration.
#[derive(Clone, Copy, Debug, PartialEq, Eq, Structural, Hash)]
pub struct IntegrationId(pub u64);

impl IntegrationId {
    /// Wraps a raw identifier.
    pub fn new(id: u64) -> (r: Self)
        ensures
            r == IntegrationId(id),
    {
        IntegrationId(id)
    }

    /// The raw identifier.
    pub fn get(self) -> (id: u64)
        ensures
            id == self.0,
    {
        self.0
    }
}

/// The identifier of an interaction.
#[derive(Clone, Copy, Debug, PartialEq, Eq, Structural, Hash)]
pub struct InteractionId(pub u64);

impl InteractionId {
    /// Wraps a raw identifier.
    pub fn new(id: u64) -> (r: Self)
        ensures
            r == InteractionId(id),
    {
        InteractionId(id)
    }

    /// The raw identifier.
    pub fn get(self) -> (id: u64)
        ensures
            id == self.0,
    {
        self.0
    }
}

/// The identifier of a message.
#[derive(Clone, Copy, Debug, PartialEq, Eq, Structural, Hash)]
pub struct MessageId(pub u64);

impl MessageId {
    /// Wraps a raw identifier.
    pub fn new(id: u64) -> (r: Self)
        ensures
            r == MessageId(id),
    {
        MessageId(id)
    }

    /// The raw identifier.
    pub fn get(self) -> (id: u64)
        ensures
            id == self.0,
    {
        self.0
    }
}

/// The identifier of a role.
#[derive(Clone, Copy, Debug, PartialEq, Eq, Structural, Hash)]
pub struct RoleId(pub u64);

impl RoleId {
    /// Wraps a raw identifier.
    pub fn new(id: u64) -> (r: Self)
        ensures
            r == RoleId(id),
    {
        RoleId(id)
    }

    /// The raw identifier.
    pub fn get(self) -> (id: u64)
        ensures
            id == self.0,
    {
        self.0
    }
}

/// The identifier of an auto moderation rule.
#[derive(Clone, Copy, Debug, PartialEq, Eq, Structural, Hash)]
pub struct RuleId(pub u64);

impl RuleId {
    /// Wraps a raw identifier.
    pub fn new(id: u64) -> (r: Self)
        ensures
            r == RuleId(id),
    {
        RuleId(id)
    }

    /// The raw identifier.
    pub fn get(self) -> (id: u64)
        ensures
            id == self.0,
    {
        self.0
    }
}

/// The identifier of a scheduled event.
#[derive(Clone, Copy, Debug, PartialEq, Eq, Structural, Hash)]
pub struct ScheduledEventId(pub u64);

impl ScheduledEventId {
    /// Wraps a raw identifier.
    pub fn new(id: u64) -> (r: Self)
        ensures
            r == ScheduledEventId(id),
    {
        ScheduledEventId(id)
    }

    /// The raw identifier.
    pub fn get(self) -> (id: u64)
        ensures
            id == self.0,
    {
        self.0
    }
}

/// The identifier of a stock keeping unit.
#[derive(Clone, Copy, Debug, PartialEq, Eq, Structural, Hash)]
pub struct SkuId(pub u64);

impl SkuId {
    /// Wraps a raw identifier.
    pub fn new(id: u64) -> (r: Self)
        ensures
            r == SkuId(id),
    {
        SkuId(id)
    }

    /// The raw identifier.
    pub fn get(self) -> (id: u64)
        ensures
            id == self.0,
    {
        self.0
    }
}

/// The identifier of a sticker.
#[derive(Clone, Copy, Debug, PartialEq, Eq, Structural, Hash)]
pub struct StickerId(pub u64);

impl StickerId {
    /// Wraps a raw identifier.
    pub fn new(id: u64) -> (r: Self)
        ensures
            r == StickerId(id),
    {
        StickerId(id)
    }

    /// The raw identifier.
    pub fn get(self) -> (id: u64)
        ensures
            id == self.0,
    {
        self.0
    }
}

/// The identifier of a sticker pack.
#[derive(Clone, Copy, Debug, PartialEq, Eq, Structural, Hash)]
pub struct StickerPackId(pub u64);

impl StickerPackId {
    /// Wraps a raw identifier.
    pub fn new(id: u64) -> (r: Self)
        ensures
            r == StickerPackId(id),
    {
        StickerPackId(id)
    }

    /// The raw identifier.
    pub fn get(self) -> (id: u64)
        ensures
            id == self.0,
    {
        self.0
    }
}

/// The identifier of the target of a permission overwrite, a user or a role.
#[derive(Clone, Copy, Debug, PartialEq, Eq, Structural, Hash)]
pub struct TargetId(pub u64);

impl TargetId {
    /// Wraps a raw identifier.
    pub fn new(id: u64) -> (r: Self)
        ensures
            r == TargetId(id),
    {
        TargetId(id)
    }

    /// The raw identifier.
    pub fn get(self) -> (id: u64)
        ensures
            id == self.0,
    {
        self.0
    }
}

/// The identifier of a user.
#[derive(Clone, Copy, Debug, PartialEq, Eq, Structural, Hash)]
pub struct UserId(pub u64);

impl UserId {
    /// Wraps a raw identifier.
    pub fn new(id: u64) -> (r: Self)
        ensures
            r == UserId(id),
    {
        UserId(id)
    }

    /// The raw identifier.
    pub fn get(self) -> (id: u64)
        ensures
            id == self.0,
    {
        self.0
    }
}

/// The identifier of a webhook.
#[derive(Clone, Copy, Debug, PartialEq, Eq, Structural, Hash)]
pub struct WebhookId(pub u64);

impl WebhookId {
    /// Wraps a raw identifier.
    pub fn new(id: u64) -> (r: Self)
        ensures
            r == WebhookId(id),
    {
        WebhookId(id)
    }

    /// The raw identifier.
    pub fn get(self) -> (id: u64)
        ensures
            id == self.0,
    {
        self.0
    }
}

/// The number of a gateway shard.
#[derive(Clone, Copy, Debug, PartialEq, Eq, Structural, Hash)]
pub struct ShardId(pub u16);

impl ShardId {
    /// The shard's number.
    pub fn get(self) -> (id: u16)
        ensures
            id == self.0,
    {
        self.0
    }
}

/// The number of an answer of a poll.
#[derive(Clone, Copy, Debug, PartialEq, Eq, Structural, Hash)]
pub struct AnswerId(pub u8);

impl AnswerId {
    /// The answer's number.
    pub fn get(self) -> (id: u8)
        ensures
            id == self.0,
    {
        self.0
    }
}

} // verus!
