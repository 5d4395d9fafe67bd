//! What the client tells the gateway.

pub mod client;

use vstd::prelude::*;

verus! {

/// How the current user appears to others.
#[derive(Clone, Copy, Debug, PartialEq, Eq, Structural, Hash)]
pub enum OnlineStatus {
    DoNotDisturb,
    Idle,
    Invisible,
    Offline,
    Online,
}

/// What kind of thing an activity is.
#[derive(Clone, Copy, Debug, PartialEq, Eq, Structural, Hash)]
pub enum ActivityType {
    Playing,
    Streaming,
    Listening,
    Watching,
    Custom,
    Competing,
    /// A kind that this library has no name for.
    Unknown(u8),
}

/// What the current user is shown to be doing.
#[derive(Clone, Debug)]
pub struct ActivityData {
    /// The name of the activity.
    pub name: String,
    /// The kind of the activity.
    pub kind: ActivityType,
    /// The state of the activity, shown below its name.
    pub state: Option<String>,
    /// The address of the stream, for a streaming activity.
    pub url: Option<String>,
}

/// A message from the client to the runner of a shard.
#[derive(Clone, Debug)]
pub enum ShardRunnerMessage {
    /// Sets the activity and keeps the status.
    SetActivity(Option<ActivityData>),
    /// Sets the activity and the status.
    SetPresence { activity: Option<ActivityData>, status: OnlineStatus },
    /// Sets the status and keeps the activity.
    SetStatus(OnlineStatus),
}

} // verus!
