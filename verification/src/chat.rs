//! Identifiers and small value types of chats and messages: chat and message IDs,
//! chat types and visibilities, ephemeral timers, reactions and webxdc serials.

use vstd::prelude::*;

verus! {

/// Chat ID, including reserved IDs.
#[derive(Debug, Clone, Copy, PartialEq, Eq, Structural, Hash)]
pub struct ChatId(u32);

impl ChatId {
    /// The numerical value.
    pub closed spec fn id(self) -> u32 {
        self.0
    }

    /// Creates a new [`ChatId`].
    pub fn new(id: u32) -> (r: ChatId)
        ensures
            r.id() == id,
    {
        ChatId(id)
    }

    /// Numerical representation of the [`ChatId`].
    pub fn to_u32(&self) -> (r: u32)
        ensures
            r == self.id(),
    {
        self.0
    }
}

impl Default for ChatId {
    fn default() -> (r: ChatId)
        ensures
            r.id() == 0,
    {
        ChatId(0)
    }
}

/// Message ID, including reserved IDs.
#[derive(Debug, Clone, Copy, PartialEq, Eq, Structural, Hash)]
pub struct MsgId(u32);

impl MsgId {
    /// The numerical value.
    pub closed spec fn id(self) -> u32 {
        self.0
    }

    /// Creates a new [`MsgId`].
    pub fn new(id: u32) -> (r: MsgId)
        ensures
            r.id() == id,
    {
        MsgId(id)
    }

    /// Numerical representation of the [`MsgId`].
    pub fn to_u32(&self) -> (r: u32)
        ensures
            r == self.id(),
    {
        self.0
    }
}

/// Serial number of a webxdc status update.
#[derive(Debug, Clone, Copy, PartialEq, Eq, Structural, Hash)]
pub struct StatusUpdateSerial(u32);

impl StatusUpdateSerial {
    /// The numerical value.
    pub closed spec fn id(self) -> u32 {
        self.0
    }

    /// Creates a new [`StatusUpdateSerial`].
    pub fn new(id: u32) -> (r: StatusUpdateSerial)
        ensures
            r.id() == id,
    {
        StatusUpdateSerial(id)
    }

    /// Numerical representation of the serial.
    pub fn to_u32(&self) -> (r: u32)
        ensures
            r == self.id(),
    {
        self.0
    }
}

/// Ephemeral message timer of a chat.
#[derive(Debug, Clone, Copy, PartialEq, Eq, Structural)]
pub enum Timer {
    /// Messages do not disappear.
    Disabled,
    /// Messages disappear after `duration` seconds.
    Enabled { duration: u32 },
}

impl Timer {
    /// The timer as a number of seconds, zero when it is disabled.
    pub open spec fn spec_to_u32(self) -> u32 {
        match self {
            Timer::Disabled => 0,
            Timer::Enabled { duration } => duration,
        }
    }

    /// Returns the timer as a number of seconds, zero when it is disabled.
    pub fn to_u32(&self) -> (r: u32)
        ensures
            r == self.spec_to_u32(),
    {
        match self {
            Timer::Disabled => 0,
            Timer::Enabled { duration } => *duration,
        }
    }
}

/// Chat type.
#[derive(Debug, Clone, Copy, PartialEq, Eq, Structural)]
pub enum Chattype {
    /// A one-to-one chat.
    Single,
    /// A group chat.
    Group,
    /// A mailing list.
    Mailinglist,
    /// A broadcast channel, seen from its owner.
    OutBroadcast,
    /// A broadcast channel, seen from a subscriber.
    InBroadcast,
}

/// Where a chat is shown in the chat list.
#[derive(Debug, Clone, Copy, PartialEq, Eq, Structural)]
pub enum ChatVisibility {
    /// Shown normally.
    Normal,
    /// Moved to the archive.
    Archived,
    /// Pinned to the top.
    Pinned,
}

/// A reaction to a message: an emoji or a short text.
#[derive(Debug, Clone, PartialEq, Eq)]
pub struct Reaction {
    /// The reaction as it is shown.
    pub text: String,
}

impl Reaction {
    /// Returns the reaction as a string.
    pub fn as_str(&self) -> (r: &str)
        ensures
            r@ == self.text@,
    {
        self.text.as_str()
    }
}

/// The number under which a chat visibility crosses the C interface.
pub open spec fn visibility_number(v: ChatVisibility) -> i32 {
    match v {
        ChatVisibility::Normal => 0,
        ChatVisibility::Archived => 1,
        ChatVisibility::Pinned => 2,
    }
}

impl ChatVisibility {
    /// The number under which the visibility crosses the C interface.
    pub fn to_i32(self) -> (r: i32)
        ensures
            r == visibility_number(self),
    {
        match self {
            ChatVisibility::Normal => 0,
            ChatVisibility::Archived => 1,
            ChatVisibility::Pinned => 2,
        }
    }

    /// The visibility that a number from the C interface names, if any.
    pub fn from_i32(n: i32) -> (r: Option<ChatVisibility>)
        ensures
            r == visibility_of_number(n as int),
    {
        if n == 0 {
            Some(ChatVisibility::Normal)
        } else if n == 1 {
            Some(ChatVisibility::Archived)
        } else if n == 2 {
            Some(ChatVisibility::Pinned)
        } else {
            None
        }
    }
}

/// The visibility that a number from the C interface names, if any.
pub open spec fn visibility_of_number(n: int) -> Option<ChatVisibility> {
    if n == 0 {
        Some(ChatVisibility::Normal)
    } else if n == 1 {
        Some(ChatVisibility::Archived)
    } else if n == 2 {
        Some(ChatVisibility::Pinned)
    } else {
        None
    }
}

/// A chat visibility read back from its number is the same visibility.
pub proof fn visibility_number_round_trip(v: ChatVisibility)
    ensures
        visibility_of_number(visibility_number(v) as int) == Some(v),
{
}

/// How long a chat is muted, as the core stores it.
#[derive(Debug, Clone, Copy, PartialEq, Eq, Structural)]
pub enum MuteDuration {
    /// Not muted.
    NotMuted,
    /// Muted for ever.
    Forever,
    /// Muted until this time, in seconds since the epoch.
    Until(i64),
}

/// The mute duration that a number from the C interface asks for at time `now`: 0
/// unmutes, -1 mutes for ever, a positive number mutes for that many seconds (for ever
/// where the end cannot be held); other negative numbers are refused.
pub fn mute_duration_from_seconds(duration: i64, now: i64) -> (r: Option<MuteDuration>)
    ensures
        r == if duration == 0 {
            Some(MuteDuration::NotMuted)
        } else if duration == -1 {
            Some(MuteDuration::Forever)
        } else if duration > 0 {
            if now + duration <= i64::MAX {
                Some(MuteDuration::Until((now + duration) as i64))
            } else {
                Some(MuteDuration::Forever)
            }
        } else {
            None::<MuteDuration>
        },
{
    if duration == 0 {
        Some(MuteDuration::NotMuted)
    } else if duration == -1 {
        Some(MuteDuration::Forever)
    } else if duration > 0 {
        match now.checked_add(duration) {
            Some(t) => Some(MuteDuration::Until(t)),
            None => Some(MuteDuration::Forever),
        }
    } else {
        None
    }
}

/// The seconds a chat stays muted from `now`, as the C interface reports them: 0 where
/// it is not muted or the time has passed, -1 where it is muted for ever.
pub fn remaining_mute_seconds(is_muted: bool, mute: MuteDuration, now: i64) -> (r: i64)
    ensures
        r == if !is_muted {
            0i64
        } else {
            match mute {
                MuteDuration::NotMuted => 0i64,
                MuteDuration::Forever => -1i64,
                MuteDuration::Until(when) => if when >= now {
                    (when - now) as i64
                } else {
                    0i64
                },
            }
        },
{
    if !is_muted {
        return 0;
    }
    match mute {
        MuteDuration::NotMuted => 0,
        MuteDuration::Forever => -1,
        MuteDuration::Until(when) => if when >= now {
            ((when as i128) - (now as i128)) as i64
        } else {
            0
        },
    }
}

} // verus!
