//! Events that the library reports to its user, and the numbers and data under which
//! they are handed across the C interface.

use vstd::prelude::*;

use crate::chat::{ChatId, Chattype, MsgId, Reaction, StatusUpdateSerial, Timer};
use crate::contact::ContactId;

verus! {

/// Event payload.
#[derive(Debug, Clone, PartialEq, Eq)]
pub enum EventType {
    /// The library-user may write an informational string to the log.
    Info(String),
    /// Emitted when SMTP connection is established and login was successful.
    SmtpConnected(String),
    /// Emitted when IMAP connection is established and login was successful.
    ImapConnected(String),
    /// Emitted when a message was successfully sent to the SMTP server.
    SmtpMessageSent(String),
    /// Emitted when an IMAP message has been marked as deleted.
    ImapMessageDeleted(String),
    /// Emitted when an IMAP message has been moved.
    ImapMessageMoved(String),
    /// Emitted before going into IDLE on the Inbox folder.
    ImapInboxIdle,
    /// Emitted when a new file in the blob directory was created.
    NewBlobFile(String),
    /// Emitted when a file in the blob directory was deleted.
    DeletedBlobFile(String),
    /// The library-user should write a warning string to the log.
    Warning(String),
    /// The library-user should report an error to the end-user.
    Error(String),
    /// An action cannot be performed because the user is not in the group.
    ErrorSelfNotInGroup(String),
    /// Messages or chats changed.
    MsgsChanged { chat_id: ChatId, msg_id: MsgId },
    /// Reactions for the message changed.
    ReactionsChanged { chat_id: ChatId, msg_id: MsgId, contact_id: ContactId },
    /// A reaction to one's own sent message was received.
    IncomingReaction { chat_id: ChatId, contact_id: ContactId, msg_id: MsgId, reaction: Reaction },
    /// A webxdc wants the user's attention.
    IncomingWebxdcNotify {
        chat_id: ChatId,
        contact_id: ContactId,
        msg_id: MsgId,
        text: String,
        href: Option<String>,
    },
    /// There is a fresh message.
    IncomingMsg { chat_id: ChatId, msg_id: MsgId },
    /// Downloading a bunch of messages just finished.
    IncomingMsgBunch,
    /// Messages were seen or noticed.
    MsgsNoticed(ChatId),
    /// A single message was sent successfully.
    MsgDelivered { chat_id: ChatId, msg_id: MsgId },
    /// A single message could not be sent.
    MsgFailed { chat_id: ChatId, msg_id: MsgId },
    /// A single message was read by the receiver.
    MsgRead { chat_id: ChatId, msg_id: MsgId },
    /// A single message was deleted.
    MsgDeleted { chat_id: ChatId, msg_id: MsgId },
    /// The count of readers of a message changed.
    MsgReadCountChanged { chat_id: ChatId, msg_id: MsgId },
    /// Chat changed: name, image, members or the like.
    ChatModified(ChatId),
    /// Chat ephemeral timer changed.
    ChatEphemeralTimerModified { chat_id: ChatId, timer: Timer },
    /// Chat deleted.
    ChatDeleted { chat_id: ChatId },
    /// Contact(s) created, renamed, blocked, deleted or changed their key.
    ContactsChanged(Option<ContactId>),
    /// Location of one or more contacts has changed.
    LocationChanged(Option<ContactId>),
    /// Progress of configuration, in per mille.
    ConfigureProgress { progress: u16, comment: Option<String> },
    /// Progress of import or export, in per mille.
    ImexProgress(u16),
    /// A file has been exported; the path of the file.
    ImexFileWritten(String),
    /// Progress of a secure join, seen from the inviter.
    SecurejoinInviterProgress {
        contact_id: ContactId,
        chat_id: ChatId,
        chat_type: Chattype,
        progress: u16,
    },
    /// Progress of a secure join, seen from the joiner.
    SecurejoinJoinerProgress { contact_id: ContactId, progress: u16 },
    /// The connectivity to the server changed.
    ConnectivityChanged,
    /// The user's avatar changed.
    SelfavatarChanged,
    /// A multi-device synced config value changed; the key's name.
    ConfigSynced { key: String },
    /// A webxdc status update was received.
    WebxdcStatusUpdate { msg_id: MsgId, status_update_serial: StatusUpdateSerial },
    /// Data received over an ephemeral peer channel.
    WebxdcRealtimeData { msg_id: MsgId, data: Vec<u8> },
    /// Advertisement received over an ephemeral peer channel.
    WebxdcRealtimeAdvertisementReceived { msg_id: MsgId },
    /// A webxdc instance was deleted.
    WebxdcInstanceDeleted { msg_id: MsgId },
    /// Background fetch of all accounts finished.
    AccountsBackgroundFetchDone,
    /// The order of chats in the chat list changed.
    ChatlistChanged,
    /// A chat item in the chat list changed.
    ChatlistItemChanged { chat_id: Option<ChatId> },
    /// The list of accounts changed.
    AccountsChanged,
    /// An account's state changed.
    AccountsItemChanged,
    /// An incoming call.
    IncomingCall { msg_id: MsgId, chat_id: ChatId, place_call_info: String, has_video: bool },
    /// An incoming call was accepted.
    IncomingCallAccepted { msg_id: MsgId, chat_id: ChatId, from_this_device: bool },
    /// An outgoing call was accepted.
    OutgoingCallAccepted { msg_id: MsgId, chat_id: ChatId, accept_call_info: String },
    /// A call ended.
    CallEnded { msg_id: MsgId, chat_id: ChatId },
    /// The list of transports changed.
    TransportsModified,
    /// Some events were dropped because the channel overflowed; how many.
    EventChannelOverflow { n: u64 },
}

/// The string data of an event, handed out as its second datum.
#[derive(Debug, Clone, PartialEq, Eq)]
pub enum EventData {
    /// A text.
    Text(String),
    /// Raw bytes.
    Bytes(Vec<u8>),
}

/// The number under which an event is known across the C interface.
pub open spec fn spec_event_id(e: EventType) -> i32 {
    match e {
            EventType::Info(_) => 100,
            EventType::SmtpConnected(_) => 101,
            EventType::ImapConnected(_) => 102,
            EventType::SmtpMessageSent(_) => 103,
            EventType::ImapMessageDeleted(_) => 104,
            EventType::ImapMessageMoved(_) => 105,
            EventType::ImapInboxIdle => 106,
            EventType::NewBlobFile(_) => 150,
            EventType::DeletedBlobFile(_) => 151,
            EventType::Warning(_) => 300,
            EventType::Error(_) => 400,
            EventType::ErrorSelfNotInGroup(_) => 410,
            EventType::MsgsChanged { .. } => 2000,
            EventType::ReactionsChanged { .. } => 2001,
            EventType::IncomingReaction { .. } => 2002,
            EventType::IncomingWebxdcNotify { .. } => 2003,
            EventType::IncomingMsg { .. } => 2005,
            EventType::IncomingMsgBunch => 2006,
            EventType::MsgsNoticed(_) => 2008,
            EventType::MsgDelivered { .. } => 2010,
            EventType::MsgFailed { .. } => 2012,
            EventType::MsgRead { .. } => 2015,
            EventType::MsgDeleted { .. } => 2016,
            EventType::MsgReadCountChanged { .. } => 2018,
            EventType::ChatModified(_) => 2020,
            EventType::ChatEphemeralTimerModified { .. } => 2021,
            EventType::ChatDeleted { .. } => 2023,
            EventType::ContactsChanged(_) => 2030,
            EventType::LocationChanged(_) => 2035,
            EventType::ConfigureProgress { .. } => 2041,
            EventType::ImexProgress(_) => 2051,
            EventType::ImexFileWritten(_) => 2052,
            EventType::SecurejoinInviterProgress { .. } => 2060,
            EventType::SecurejoinJoinerProgress { .. } => 2061,
            EventType::ConnectivityChanged => 2100,
            EventType::SelfavatarChanged => 2110,
            EventType::ConfigSynced { .. } => 2111,
            EventType::WebxdcStatusUpdate { .. } => 2120,
            EventType::WebxdcInstanceDeleted { .. } => 2121,
            EventType::WebxdcRealtimeData { .. } => 2150,
            EventType::WebxdcRealtimeAdvertisementReceived { .. } => 2151,
            EventType::AccountsBackgroundFetchDone => 2200,
            EventType::ChatlistChanged => 2300,
            EventType::ChatlistItemChanged { .. } => 2301,
            EventType::AccountsChanged => 2302,
            EventType::AccountsItemChanged => 2303,
            EventType::EventChannelOverflow { .. } => 2400,
            EventType::IncomingCall { .. } => 2550,
            EventType::IncomingCallAccepted { .. } => 2560,
            EventType::OutgoingCallAccepted { .. } => 2570,
            EventType::CallEnded { .. } => 2580,
            EventType::TransportsModified => 2600,
    }
}

/// `1` for `true`, `0` for `false`.
pub open spec fn flag(b: bool) -> i32 {
    if b {
        1
    } else {
        0
    }
}

/// The first integer datum of an event.
pub open spec fn spec_data1_int(e: EventType) -> i32 {
    match e {
        EventType::IncomingReaction { contact_id, .. } => contact_id.id() as i32,
        EventType::IncomingWebxdcNotify { contact_id, .. } => contact_id.id() as i32,
        EventType::MsgsChanged { chat_id, .. } => chat_id.id() as i32,
        EventType::ReactionsChanged { chat_id, .. } => chat_id.id() as i32,
        EventType::IncomingMsg { chat_id, .. } => chat_id.id() as i32,
        EventType::MsgsNoticed(chat_id) => chat_id.id() as i32,
        EventType::MsgDelivered { chat_id, .. } => chat_id.id() as i32,
        EventType::MsgFailed { chat_id, .. } => chat_id.id() as i32,
        EventType::MsgRead { chat_id, .. } => chat_id.id() as i32,
        EventType::MsgDeleted { chat_id, .. } => chat_id.id() as i32,
        EventType::MsgReadCountChanged { chat_id, .. } => chat_id.id() as i32,
        EventType::ChatModified(chat_id) => chat_id.id() as i32,
        EventType::ChatEphemeralTimerModified { chat_id, .. } => chat_id.id() as i32,
        EventType::ChatDeleted { chat_id } => chat_id.id() as i32,
        EventType::ContactsChanged(id) => match id {
            Some(c) => c.id() as i32,
            None => 0,
        },
        EventType::LocationChanged(id) => match id {
            Some(c) => c.id() as i32,
            None => 0,
        },
        EventType::ConfigureProgress { progress, .. } => progress as i32,
        EventType::ImexProgress(progress) => progress as i32,
        EventType::SecurejoinInviterProgress { contact_id, .. } => contact_id.id() as i32,
        EventType::SecurejoinJoinerProgress { contact_id, .. } => contact_id.id() as i32,
        EventType::WebxdcRealtimeData { msg_id, .. } => msg_id.id() as i32,
        EventType::WebxdcStatusUpdate { msg_id, .. } => msg_id.id() as i32,
        EventType::WebxdcRealtimeAdvertisementReceived { msg_id } => msg_id.id() as i32,
        EventType::WebxdcInstanceDeleted { msg_id } => msg_id.id() as i32,
        EventType::IncomingCall { msg_id, .. } => msg_id.id() as i32,
        EventType::IncomingCallAccepted { msg_id, .. } => msg_id.id() as i32,
        EventType::OutgoingCallAccepted { msg_id, .. } => msg_id.id() as i32,
        EventType::CallEnded { msg_id, .. } => msg_id.id() as i32,
        EventType::ChatlistItemChanged { chat_id } => match chat_id {
            Some(c) => c.id() as i32,
            None => 0,
        },
        EventType::EventChannelOverflow { n } => n as i32,
        _ => 0,
    }
}

/// The second integer datum of an event.
pub open spec fn spec_data2_int(e: EventType) -> i32 {
    match e {
        EventType::MsgsChanged { msg_id, .. } => msg_id.id() as i32,
        EventType::ReactionsChanged { msg_id, .. } => msg_id.id() as i32,
        EventType::IncomingReaction { msg_id, .. } => msg_id.id() as i32,
        EventType::IncomingWebxdcNotify { msg_id, .. } => msg_id.id() as i32,
        EventType::IncomingMsg { msg_id, .. } => msg_id.id() as i32,
        EventType::MsgDelivered { msg_id, .. } => msg_id.id() as i32,
        EventType::MsgFailed { msg_id, .. } => msg_id.id() as i32,
        EventType::MsgRead { msg_id, .. } => msg_id.id() as i32,
        EventType::MsgDeleted { msg_id, .. } => msg_id.id() as i32,
        EventType::MsgReadCountChanged { msg_id, .. } => msg_id.id() as i32,
        EventType::SecurejoinInviterProgress { progress, .. } => progress as i32,
        EventType::SecurejoinJoinerProgress { progress, .. } => progress as i32,
        EventType::ChatEphemeralTimerModified { timer, .. } => timer.spec_to_u32() as i32,
        EventType::WebxdcStatusUpdate { status_update_serial, .. } => status_update_serial.id() as i32,
        EventType::WebxdcRealtimeData { data, .. } => data@.len() as i32,
        EventType::IncomingCall { has_video, .. } => flag(has_video),
        EventType::IncomingCallAccepted { from_this_device, .. } => flag(from_this_device),
        _ => 0,
    }
}

/// The first string datum of an event: the link of a webxdc notification, if it has one.
pub open spec fn spec_data1_str(e: EventType) -> Option<String> {
    match e {
        EventType::IncomingWebxdcNotify { href, .. } => href,
        _ => None,
    }
}

/// The second string datum of an event, where it is a text.
pub open spec fn spec_data2_text(e: EventType) -> Option<String> {
    match e {
        EventType::Info(msg) => Some(msg),
        EventType::SmtpConnected(msg) => Some(msg),
        EventType::ImapConnected(msg) => Some(msg),
        EventType::SmtpMessageSent(msg) => Some(msg),
        EventType::ImapMessageDeleted(msg) => Some(msg),
        EventType::ImapMessageMoved(msg) => Some(msg),
        EventType::NewBlobFile(msg) => Some(msg),
        EventType::DeletedBlobFile(msg) => Some(msg),
        EventType::Warning(msg) => Some(msg),
        EventType::Error(msg) => Some(msg),
        EventType::ErrorSelfNotInGroup(msg) => Some(msg),
        EventType::IncomingCall { place_call_info, .. } => Some(place_call_info),
        EventType::OutgoingCallAccepted { accept_call_info, .. } => Some(accept_call_info),
        EventType::ConfigureProgress { comment, .. } => comment,
        EventType::ImexFileWritten(file) => Some(file),
        EventType::ConfigSynced { key } => Some(key),
        EventType::IncomingReaction { reaction, .. } => Some(reaction.text),
        EventType::IncomingWebxdcNotify { text, .. } => Some(text),
        _ => None,
    }
}

fn clone_opt(s: &Option<String>) -> (r: Option<String>)
    ensures
        r == *s,
{
    match s {
        Some(t) => Some(t.clone()),
        None => None,
    }
}

impl EventType {
    /// Returns the message of a warning event.
    pub fn get_warn(&self) -> (r: Option<&String>)
        ensures
            match *self {
                EventType::Warning(s) => r == Some(&s),
                _ => r is None,
            },
    {
        match self {
            Self::Warning(s) => Some(s),
            _ => None,
        }
    }

    /// Returns the message of an error event.
    pub fn get_error(&self) -> (r: Option<&String>)
        ensures
            match *self {
                EventType::Error(s) => r == Some(&s),
                EventType::ErrorSelfNotInGroup(s) => r == Some(&s),
                _ => r is None,
            },
    {
        match self {
            Self::Error(s) | Self::ErrorSelfNotInGroup(s) => Some(s),
            _ => None,
        }
    }

    /// The number under which the event is known across the C interface.
    pub fn id(&self) -> (r: i32)
        ensures
            r == spec_event_id(*self),
    {
        match self {
            EventType::Info(_) => 100,
            EventType::SmtpConnected(_) => 101,
            EventType::ImapConnected(_) => 102,
            EventType::SmtpMessageSent(_) => 103,
            EventType::ImapMessageDeleted(_) => 104,
            EventType::ImapMessageMoved(_) => 105,
            EventType::ImapInboxIdle => 106,
            EventType::NewBlobFile(_) => 150,
            EventType::DeletedBlobFile(_) => 151,
            EventType::Warning(_) => 300,
            EventType::Error(_) => 400,
            EventType::ErrorSelfNotInGroup(_) => 410,
            EventType::MsgsChanged { .. } => 2000,
            EventType::ReactionsChanged { .. } => 2001,
            EventType::IncomingReaction { .. } => 2002,
            EventType::IncomingWebxdcNotify { .. } => 2003,
            EventType::IncomingMsg { .. } => 2005,
            EventType::IncomingMsgBunch => 2006,
            EventType::MsgsNoticed(_) => 2008,
            EventType::MsgDelivered { .. } => 2010,
            EventType::MsgFailed { .. } => 2012,
            EventType::MsgRead { .. } => 2015,
            EventType::MsgDeleted { .. } => 2016,
            EventType::MsgReadCountChanged { .. } => 2018,
            EventType::ChatModified(_) => 2020,
            EventType::ChatEphemeralTimerModified { .. } => 2021,
            EventType::ChatDeleted { .. } => 2023,
            EventType::ContactsChanged(_) => 2030,
            EventType::LocationChanged(_) => 2035,
            EventType::ConfigureProgress { .. } => 2041,
            EventType::ImexProgress(_) => 2051,
            EventType::ImexFileWritten(_) => 2052,
            EventType::SecurejoinInviterProgress { .. } => 2060,
            EventType::SecurejoinJoinerProgress { .. } => 2061,
            EventType::ConnectivityChanged => 2100,
            EventType::SelfavatarChanged => 2110,
            EventType::ConfigSynced { .. } => 2111,
            EventType::WebxdcStatusUpdate { .. } => 2120,
            EventType::WebxdcInstanceDeleted { .. } => 2121,
            EventType::WebxdcRealtimeData { .. } => 2150,
            EventType::WebxdcRealtimeAdvertisementReceived { .. } => 2151,
            EventType::AccountsBackgroundFetchDone => 2200,
            EventType::ChatlistChanged => 2300,
            EventType::ChatlistItemChanged { .. } => 2301,
            EventType::AccountsChanged => 2302,
            EventType::AccountsItemChanged => 2303,
            EventType::EventChannelOverflow { .. } => 2400,
            EventType::IncomingCall { .. } => 2550,
            EventType::IncomingCallAccepted { .. } => 2560,
            EventType::OutgoingCallAccepted { .. } => 2570,
            EventType::CallEnded { .. } => 2580,
            EventType::TransportsModified => 2600,
        }
    }

    /// The first integer datum of the event: the chat, contact or message it is about,
    /// or its progress.
    pub fn data1_int(&self) -> (r: i32)
        ensures
            r == spec_data1_int(*self),
    {
        match self {
            EventType::IncomingReaction { contact_id, .. }
            | EventType::IncomingWebxdcNotify { contact_id, .. } => contact_id.to_u32() as i32,
            EventType::MsgsChanged { chat_id, .. }
            | EventType::ReactionsChanged { chat_id, .. }
            | EventType::IncomingMsg { chat_id, .. }
            | EventType::MsgsNoticed(chat_id)
            | EventType::MsgDelivered { chat_id, .. }
            | EventType::MsgFailed { chat_id, .. }
            | EventType::MsgRead { chat_id, .. }
            | EventType::MsgDeleted { chat_id, .. }
            | EventType::MsgReadCountChanged { chat_id, .. }
            | EventType::ChatModified(chat_id)
            | EventType::ChatEphemeralTimerModified { chat_id, .. }
            | EventType::ChatDeleted { chat_id } => chat_id.to_u32() as i32,
            EventType::ContactsChanged(id) | EventType::LocationChanged(id) => match id {
                Some(c) => c.to_u32() as i32,
                None => ContactId::default().to_u32() as i32,
            },
            EventType::ConfigureProgress { progress, .. } | EventType::ImexProgress(progress) => {
                *progress as i32
            },
            EventType::SecurejoinInviterProgress { contact_id, .. }
            | EventType::SecurejoinJoinerProgress { contact_id, .. } => contact_id.to_u32() as i32,
            EventType::WebxdcRealtimeData { msg_id, .. }
            | EventType::WebxdcStatusUpdate { msg_id, .. }
            | EventType::WebxdcRealtimeAdvertisementReceived { msg_id }
            | EventType::WebxdcInstanceDeleted { msg_id }
            | EventType::IncomingCall { msg_id, .. }
            | EventType::IncomingCallAccepted { msg_id, .. }
            | EventType::OutgoingCallAccepted { msg_id, .. }
            | EventType::CallEnded { msg_id, .. } => msg_id.to_u32() as i32,
            EventType::ChatlistItemChanged { chat_id } => match chat_id {
                Some(c) => c.to_u32() as i32,
                None => ChatId::default().to_u32() as i32,
            },
            EventType::EventChannelOverflow { n } => *n as i32,
            _ => 0,
        }
    }

    /// The second integer datum of the event: the message it is about, a progress, a
    /// timer, a serial, a length or a flag.
    pub fn data2_int(&self) -> (r: i32)
        ensures
            r == spec_data2_int(*self),
    {
        match self {
            EventType::MsgsChanged { msg_id, .. }
            | EventType::ReactionsChanged { msg_id, .. }
            | EventType::IncomingReaction { msg_id, .. }
            | EventType::IncomingWebxdcNotify { msg_id, .. }
            | EventType::IncomingMsg { msg_id, .. }
            | EventType::MsgDelivered { msg_id, .. }
            | EventType::MsgFailed { msg_id, .. }
            | EventType::MsgRead { msg_id, .. }
            | EventType::MsgDeleted { msg_id, .. }
            | EventType::MsgReadCountChanged { msg_id, .. } => msg_id.to_u32() as i32,
            EventType::SecurejoinInviterProgress { progress, .. }
            | EventType::SecurejoinJoinerProgress { progress, .. } => *progress as i32,
            EventType::ChatEphemeralTimerModified { timer, .. } => timer.to_u32() as i32,
            EventType::WebxdcStatusUpdate { status_update_serial, .. } => {
                status_update_serial.to_u32() as i32
            },
            EventType::WebxdcRealtimeData { data, .. } => data.len() as i32,
            EventType::IncomingCall { has_video, .. } => if *has_video {
                1
            } else {
                0
            },
            EventType::IncomingCallAccepted { from_this_device, .. } => if *from_this_device {
                1
            } else {
                0
            },
            _ => 0,
        }
    }

    /// The first string datum of the event: the link of a webxdc notification.
    pub fn data1_str(&self) -> (r: Option<String>)
        ensures
            r == spec_data1_str(*self),
    {
        match self {
            EventType::IncomingWebxdcNotify { href, .. } => clone_opt(href),
            _ => None,
        }
    }

    /// The second string datum of the event: its text, or the bytes of realtime data.
    pub fn data2_str(&self) -> (r: Option<EventData>)
        ensures
            match *self {
                EventType::WebxdcRealtimeData { data, .. } => r matches Some(
                    EventData::Bytes(b),
                ) && b@ == data@,
                _ => match spec_data2_text(*self) {
                    Some(t) => r == Some(EventData::Text(t)),
                    None => r is None,
                },
            },
    {
        match self {
            EventType::Info(msg)
            | EventType::SmtpConnected(msg)
            | EventType::ImapConnected(msg)
            | EventType::SmtpMessageSent(msg)
            | EventType::ImapMessageDeleted(msg)
            | EventType::ImapMessageMoved(msg)
            | EventType::NewBlobFile(msg)
            | EventType::DeletedBlobFile(msg)
            | EventType::Warning(msg)
            | EventType::Error(msg)
            | EventType::ErrorSelfNotInGroup(msg) => Some(EventData::Text(msg.clone())),
            EventType::IncomingCall { place_call_info, .. } => Some(
                EventData::Text(place_call_info.clone()),
            ),
            EventType::OutgoingCallAccepted { accept_call_info, .. } => Some(
                EventData::Text(accept_call_info.clone()),
            ),
            EventType::ConfigureProgress { comment, .. } => match comment {
                Some(c) => Some(EventData::Text(c.clone())),
                None => None,
            },
            EventType::ImexFileWritten(file) => Some(EventData::Text(file.clone())),
            EventType::ConfigSynced { key } => Some(EventData::Text(key.clone())),
            EventType::WebxdcRealtimeData { data, .. } => {
                let mut b: Vec<u8> = Vec::new();
                let mut i: usize = 0;
                while i < data.len()
                    invariant
                        i <= data@.len(),
                        b@ == data@.subrange(0, i as int),
                    decreases data@.len() - i,
                {
                    b.push(data[i]);
                    i = i + 1;
                    proof {
                        assert(b@ =~= data@.subrange(0, i as int));
                    }
                }
                proof {
                    assert(b@ =~= data@);
                }
                Some(EventData::Bytes(b))
            },
            EventType::IncomingReaction { reaction, .. } => Some(
                EventData::Text(reaction.text.clone()),
            ),
            EventType::IncomingWebxdcNotify { text, .. } => Some(EventData::Text(text.clone())),
            _ => None,
        }
    }
}

} // verus!
